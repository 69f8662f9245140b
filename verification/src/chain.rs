//! Applying the tools in order of priority: the first that is there and
//! works wins.

use vstd::prelude::*;
use crate::errors::ToolFailure;
use crate::command::{line, CommandLineView};
use crate::tools::{
    Adapter, ProbeResult, StepResult, StepView, ToolAvailability, ToolStep, DAEMON_SETTLE_MS,
};

verus! {

/// The first available adapter at or after `from`; the number of adapters
/// if there is none.
pub open spec fn next_available(available: Seq<bool>, from: int) -> int
    decreases available.len() - from,
{
    if from < 0 || from >= available.len() {
        available.len() as int
    } else if available[from] {
        from
    } else {
        next_available(available, from + 1)
    }
}

/// The available adapters before `end`, in order of priority.
pub open spec fn available_before(available: Seq<bool>, end: int) -> Seq<int>
    decreases end,
{
    if end <= 0 {
        Seq::empty()
    } else if available[end - 1] {
        available_before(available, end - 1).push(end - 1)
    } else {
        available_before(available, end - 1)
    }
}

/// How applying the chain has ended.
#[derive(Debug, PartialEq, Eq)]
pub enum ApplyOutcome {
    /// The adapter at this place has set the wallpaper.
    Success { adapter: usize },
    /// No tool is available.
    NoBackendAvailable,
    /// Every available tool was tried, and each has failed.
    ToolsFailed { failures: Vec<ToolFailure> },
}

/// How applying the chain has ended, as contracts see it.
pub enum OutcomeView {
    /// The adapter at this place has set the wallpaper.
    Success { adapter: int },
    /// No tool is available.
    NoBackendAvailable,
    /// Every available tool was tried, and each has failed.
    ToolsFailed { failures: Seq<ToolFailure> },
}

impl View for ApplyOutcome {
    type V = OutcomeView;

    open spec fn view(&self) -> OutcomeView {
        match self {
            ApplyOutcome::Success { adapter } => OutcomeView::Success { adapter: *adapter as int },
            ApplyOutcome::NoBackendAvailable => OutcomeView::NoBackendAvailable,
            ApplyOutcome::ToolsFailed { failures } => OutcomeView::ToolsFailed {
                failures: failures@,
            },
        }
    }
}

/// The state of the chain, as contracts see it.
pub struct ChainState {
    /// The steps of each adapter, in order of priority.
    pub scripts: Seq<Seq<StepView>>,
    /// The name of each adapter.
    pub names: Seq<&'static str>,
    /// The command line that probes for each adapter.
    pub probes: Seq<CommandLineView>,
    /// Whether each adapter was found to be there.
    pub available: Seq<bool>,
    /// The adapter that is being applied; the number of adapters when none is left.
    pub cursor: int,
    /// The step of that adapter that is due.
    pub step: int,
    /// The adapters that were tried and failed, in the order of the tries.
    pub failures: Seq<ToolFailure>,
    /// Whether the adapter at the cursor has set the wallpaper.
    pub succeeded: bool,
}

impl ChainState {
    /// How many adapters the chain knows.
    pub open spec fn len(self) -> int {
        self.scripts.len() as int
    }

    /// Each adapter has a name, an availability and at least one step; the
    /// adapter at the cursor is available; the failures are those of the
    /// available adapters before the cursor, each once, in order of priority.
    pub open spec fn wf(self) -> bool {
        &&& self.names.len() == self.scripts.len()
        &&& self.probes.len() == self.scripts.len()
        &&& self.available.len() == self.scripts.len()
        &&& self.scripts.len() <= usize::MAX
        &&& forall|i: int| 0 <= i < self.scripts.len() ==> (#[trigger] self.scripts[i]).len() > 0
        &&& 0 <= self.cursor <= self.len()
        &&& self.cursor < self.len() ==> self.available[self.cursor] && 0 <= self.step
            < self.scripts[self.cursor].len()
        &&& self.succeeded ==> self.cursor < self.len()
        &&& self.failures.len() == available_before(self.available, self.cursor).len()
        &&& forall|k: int|
            0 <= k < self.failures.len() ==> (#[trigger] self.failures[k]).adapter
                == available_before(self.available, self.cursor)[k] && self.failures[k].name
                == self.names[self.failures[k].adapter as int]
    }

    /// Whether a step is due.
    pub open spec fn active(self) -> bool {
        !self.succeeded && self.cursor < self.len()
    }

    /// The step that is due.
    pub open spec fn current(self) -> StepView {
        self.scripts[self.cursor][self.step]
    }

    /// The state after the probes have come back: an adapter is available
    /// where its probe ran and succeeded, and the first available one is due.
    pub open spec fn detected(self, results: Seq<ProbeResult>) -> ChainState {
        let available = Seq::new(
            self.scripts.len(),
            |i: int| i < results.len() && results[i].shows_available(),
        );
        ChainState {
            available,
            cursor: next_available(available, 0),
            step: 0,
            failures: Seq::empty(),
            succeeded: false,
            ..self
        }
    }

    /// The state after the step that was due has come back with `result`.
    /// A step that passes leads to the adapter's next step, the last one to
    /// success. A step that fails the tool is recorded, and the next
    /// available adapter is due. Once nothing is due, nothing changes.
    pub open spec fn advance(self, result: StepResult) -> ChainState {
        if !self.active() {
            self
        } else {
            match self.current().verdict(result) {
                Some(reason) => ChainState {
                    failures: self.failures.push(
                        ToolFailure {
                            adapter: self.cursor as usize,
                            name: self.names[self.cursor],
                            reason,
                        },
                    ),
                    cursor: next_available(self.available, self.cursor + 1),
                    step: 0,
                    ..self
                },
                None => if self.step + 1 < self.scripts[self.cursor].len() {
                    ChainState { step: self.step + 1, ..self }
                } else {
                    ChainState { succeeded: true, ..self }
                },
            }
        }
    }

    /// How applying the chain has ended; `None` while a step is due.
    pub open spec fn outcome(self) -> Option<OutcomeView> {
        if self.succeeded {
            Some(OutcomeView::Success { adapter: self.cursor })
        } else if self.cursor < self.len() {
            None
        } else if self.failures.len() == 0 {
            Some(OutcomeView::NoBackendAvailable)
        } else {
            Some(OutcomeView::ToolsFailed { failures: self.failures })
        }
    }

    /// The state after the steps that were due, one after the other, have
    /// come back with `results`.
    pub open spec fn run(self, results: Seq<StepResult>) -> ChainState
        decreases results.len(),
    {
        if results.len() == 0 {
            self
        } else {
            self.run(results.drop_last()).advance(results.last())
        }
    }
}

/// The next available adapter lies at or after `from`, is available, and no
/// adapter between the two is.
pub proof fn lemma_next_available(available: Seq<bool>, from: int)
    requires
        0 <= from <= available.len(),
    ensures
        from <= next_available(available, from) <= available.len(),
        next_available(available, from) < available.len() ==> available[next_available(
            available,
            from,
        )],
        forall|i: int| from <= i < next_available(available, from) ==> !#[trigger] available[i],
        available_before(available, next_available(available, from)) == available_before(
            available,
            from,
        ),
    decreases available.len() - from,
{
    if from < available.len() && !available[from] {
        lemma_next_available(available, from + 1);
        assert(available_before(available, from + 1) == available_before(available, from));
    }
}

/// The available adapters before `end` are exactly those: each listed
/// adapter lies before `end` and is available, they are listed in rising
/// order, and each available adapter before `end` is listed.
pub proof fn lemma_available_before(available: Seq<bool>, end: int)
    requires
        0 <= end <= available.len(),
    ensures
        forall|k: int|
            0 <= k < available_before(available, end).len() ==> 0 <= (#[trigger] available_before(
                available,
                end,
            )[k]) < end && available[available_before(available, end)[k]],
        forall|k: int, l: int|
            0 <= k < l < available_before(available, end).len() ==> available_before(
                available,
                end,
            )[k] < available_before(available, end)[l],
        forall|i: int|
            0 <= i < end && available[i] ==> #[trigger] available_before(available, end).contains(
                i,
            ),
        available_before(available, end).len() == 0 <==> forall|i: int|
            0 <= i < end ==> !#[trigger] available[i],
    decreases end,
{
    if end > 0 {
        lemma_available_before(available, end - 1);
        let before = available_before(available, end - 1);
        let all = available_before(available, end);
        if available[end - 1] {
            assert(all == before.push(end - 1));
            assert(all[all.len() - 1] == end - 1);
            assert forall|i: int| 0 <= i < end && available[i] implies #[trigger] all.contains(
                i,
            ) by {
                if i < end - 1 {
                    assert(before.contains(i));
                    let k = choose|k: int| 0 <= k < before.len() && before[k] == i;
                    assert(all[k] == i);
                }
            }
        } else {
            assert(all == before);
        }
    }
}

/// The probes leave the chain well formed.
pub proof fn lemma_detected_wf(state: ChainState, results: Seq<ProbeResult>)
    requires
        state.names.len() == state.scripts.len(),
        state.probes.len() == state.scripts.len(),
        state.scripts.len() <= usize::MAX,
        forall|i: int| 0 <= i < state.scripts.len() ==> (#[trigger] state.scripts[i]).len() > 0,
    ensures
        state.detected(results).wf(),
{
    let after = state.detected(results);
    lemma_next_available(after.available, 0);
}

/// Every result leaves a well-formed chain well formed.
pub proof fn lemma_advance_wf(state: ChainState, result: StepResult)
    requires
        state.wf(),
    ensures
        state.advance(result).wf(),
{
    let after = state.advance(result);
    if state.active() {
        if let Some(reason) = state.current().verdict(result) {
            lemma_next_available(state.available, state.cursor + 1);
            let before = available_before(state.available, state.cursor);
            assert(available_before(state.available, state.cursor + 1) == before.push(
                state.cursor,
            ));
            assert forall|k: int| 0 <= k < after.failures.len() implies (
            #[trigger] after.failures[k]).adapter == available_before(
                after.available,
                after.cursor,
            )[k] && after.failures[k].name == after.names[after.failures[k].adapter as int] by {
                if k < state.failures.len() {
                    assert(after.failures[k] == state.failures[k]);
                }
            }
        }
    }
}

/// Whatever comes back, the chain stays well formed.
pub proof fn lemma_run_wf(state: ChainState, results: Seq<StepResult>)
    requires
        state.wf(),
    ensures
        state.run(results).wf(),
    decreases results.len(),
{
    if results.len() > 0 {
        lemma_run_wf(state, results.drop_last());
        lemma_advance_wf(state.run(results.drop_last()), results.last());
    }
}

/// No adapter is invoked that was found unavailable: whenever a step is
/// due, it is a step of an adapter whose probe succeeded.
pub proof fn lemma_only_available_invoked(state: ChainState)
    requires
        state.wf(),
        state.active(),
    ensures
        0 <= state.cursor < state.len(),
        state.available[state.cursor],
        0 <= state.step < state.scripts[state.cursor].len(),
{
}

/// Applying changes neither the adapters nor what is known of their
/// availability.
pub proof fn lemma_run_keeps_adapters(state: ChainState, results: Seq<StepResult>)
    ensures
        state.run(results).scripts == state.scripts,
        state.run(results).names == state.names,
        state.run(results).probes == state.probes,
        state.run(results).available == state.available,
    decreases results.len(),
{
    if results.len() > 0 {
        lemma_run_keeps_adapters(state, results.drop_last());
    }
}

/// Applying never invokes an adapter that the probes found unavailable:
/// after the probes have come back with `probes`, and whatever the steps
/// come back with, a step is only ever due for an adapter whose probe
/// succeeded, and every adapter that was tried is one whose probe succeeded.
pub proof fn lemma_apply_respects_detect(
    state: ChainState,
    probes: Seq<ProbeResult>,
    results: Seq<StepResult>,
)
    requires
        state.wf(),
    ensures
        ({
            let now = state.detected(probes).run(results);
            &&& now.wf()
            &&& now.active() ==> 0 <= now.cursor < probes.len()
                && probes[now.cursor].shows_available()
            &&& forall|k: int|
                0 <= k < now.failures.len() ==> 0 <= (#[trigger] now.failures[k]).adapter
                    < probes.len() && probes[now.failures[k].adapter as int].shows_available()
        }),
{
    let detected = state.detected(probes);
    let now = detected.run(results);
    lemma_detected_wf(state, probes);
    lemma_run_wf(detected, results);
    lemma_run_keeps_adapters(detected, results);
    lemma_available_before(now.available, now.cursor);
    assert forall|k: int| 0 <= k < now.failures.len() implies 0 <= (
    #[trigger] now.failures[k]).adapter < probes.len()
        && probes[now.failures[k].adapter as int].shows_available() by {
        let adapter = available_before(now.available, now.cursor)[k];
        assert(now.available[adapter]);
    }
    if now.active() {
        assert(now.available[now.cursor]);
    }
}

/// What the outcome says. Success is that of the first adapter in order of
/// priority that worked: it is available, and every available adapter
/// before it was tried and failed. A failure lists every available adapter,
/// each with its reason, and comes exactly when each of them was tried and
/// failed and there was at least one. "No backend available" comes exactly
/// when no adapter is available. While a step is due there is no outcome.
pub proof fn lemma_outcome(state: ChainState)
    requires
        state.wf(),
    ensures
        state.outcome() is None <==> state.active(),
        state.outcome() matches Some(OutcomeView::Success { adapter }) ==> {
            &&& 0 <= adapter < state.len()
            &&& state.available[adapter]
            &&& state.failures.len() == available_before(state.available, adapter).len()
            &&& forall|i: int|
                0 <= i < adapter && state.available[i] ==> exists|k: int|
                    0 <= k < state.failures.len() && (#[trigger] state.failures[k]).adapter == i
        },
        state.outcome() matches Some(OutcomeView::ToolsFailed { failures }) ==> {
            &&& failures == state.failures
            &&& failures.len() > 0
            &&& failures.len() == available_before(state.available, state.len()).len()
            &&& forall|k: int|
                0 <= k < failures.len() ==> state.available[(#[trigger] failures[k]).adapter as int]
            &&& forall|k: int, l: int|
                0 <= k < l < failures.len() ==> (#[trigger] failures[k]).adapter < (
                #[trigger] failures[l]).adapter
            &&& forall|i: int|
                0 <= i < state.len() && state.available[i] ==> exists|k: int|
                    0 <= k < failures.len() && (#[trigger] failures[k]).adapter == i
        },
        state.outcome() == Some(OutcomeView::NoBackendAvailable) <==> !state.succeeded
            && forall|i: int| 0 <= i < state.len() ==> !#[trigger] state.available[i],
        (state.outcome() matches Some(OutcomeView::Success { .. })) <==> state.succeeded,
        (state.outcome() matches Some(OutcomeView::ToolsFailed { .. })) <==> !state.succeeded
            && state.cursor == state.len() && state.failures.len() > 0,
{
    lemma_available_before(state.available, state.cursor);
    let listed = available_before(state.available, state.cursor);
    assert forall|i: int| 0 <= i < state.cursor && state.available[i] implies exists|k: int|
        0 <= k < state.failures.len() && (#[trigger] state.failures[k]).adapter == i by {
        assert(listed.contains(i));
        let k = choose|k: int| 0 <= k < listed.len() && listed[k] == i;
        assert(state.failures[k].adapter == i);
    }
    assert forall|k: int, l: int| 0 <= k < l < state.failures.len() implies (
    #[trigger] state.failures[k]).adapter < (#[trigger] state.failures[l]).adapter by {
        assert(listed[k] < listed[l]);
    }
    if state.cursor < state.len() {
        assert(state.available[state.cursor]);
    }
}

/// The ordered set of tool adapters, with what is known of their
/// availability and how far applying them has come.
pub struct ToolAdapterChain {
    adapters: Vec<Adapter>,
    available: Vec<bool>,
    cursor: usize,
    step: usize,
    failures: Vec<ToolFailure>,
    succeeded: bool,
}

impl View for ToolAdapterChain {
    type V = ChainState;

    closed spec fn view(&self) -> ChainState {
        ChainState {
            scripts: self.adapters@.map_values(|adapter: Adapter| adapter.steps()),
            names: self.adapters@.map_values(|adapter: Adapter| adapter.spec_name()),
            probes: self.adapters@.map_values(|adapter: Adapter| adapter.spec_probe()),
            available: self.available@,
            cursor: self.cursor as int,
            step: self.step as int,
            failures: self.failures@,
            succeeded: self.succeeded,
        }
    }
}

impl ToolAdapterChain {
    /// The state of the chain is well formed.
    pub closed spec fn wf(&self) -> bool {
        self@.wf()
    }

    /// A chain is well formed exactly when its state, as contracts see it,
    /// is.
    pub proof fn lemma_wf(&self)
        ensures
            self.wf() == self@.wf(),
    {
    }

    /// A chain of the given adapters, in their order. Until the probes have
    /// come back, none of them counts as available.
    pub fn new(adapters: Vec<Adapter>) -> (chain: ToolAdapterChain)
        ensures
            chain.wf(),
            chain@.scripts == adapters@.map_values(|adapter: Adapter| adapter.steps()),
            chain@.names == adapters@.map_values(|adapter: Adapter| adapter.spec_name()),
            chain@.probes == adapters@.map_values(|adapter: Adapter| adapter.spec_probe()),
            chain@.available == Seq::new(adapters.len() as nat, |i: int| false),
            chain@.cursor == adapters.len(),
            chain@.step == 0,
            chain@.failures == Seq::<ToolFailure>::empty(),
            !chain@.succeeded,
    {
        let mut available: Vec<bool> = Vec::new();
        let mut at: usize = 0;
        while at < adapters.len()
            invariant
                at <= adapters.len(),
                available.len() == at,
                forall|i: int| 0 <= i < at ==> !available[i],
                forall|i: int| 0 <= i < at ==> (#[trigger] adapters[i]).steps().len() > 0,
            decreases adapters.len() - at,
        {
            let adapter = &adapters[at];
            proof {
                use_type_invariant(adapter);
                adapter.lemma_has_steps();
            }
            available.push(false);
            at = at + 1;
        }
        let chain = ToolAdapterChain {
            adapters,
            available,
            cursor: at,
            step: 0,
            failures: Vec::new(),
            succeeded: false,
        };
        proof {
            assert(chain@.available =~= Seq::new(adapters.len() as nat, |i: int| false));
            lemma_available_before(chain@.available, chain@.cursor);
            assert(chain@.failures =~= Seq::<ToolFailure>::empty());
        }
        chain
    }

    /// The chain of the known tools for one image: `hyprpaper`, `swww`,
    /// `swaybg`, in that order of priority.
    pub fn known(image_path: &str) -> (chain: ToolAdapterChain)
        ensures
            chain.wf(),
            chain@.names == seq!["hyprpaper", "swww", "swaybg"],
            chain@.probes == seq![
                line("hyprctl"@, seq!["--help"@]),
                line("swww"@, seq!["--version"@]),
                line("swaybg"@, seq!["--version"@]),
            ],
            chain@.scripts == seq![
                Adapter::preload_steps(
                    line("hyprctl"@, seq!["hyprpaper"@, "preload"@, image_path@]),
                    line("hyprctl"@, seq!["hyprpaper"@, "wallpaper"@, ","@ + image_path@]),
                ),
                Adapter::one_shot_steps(line("swww"@, seq!["img"@, image_path@])),
                Adapter::daemon_steps(
                    line("pkill"@, seq!["swaybg"@]),
                    line("swaybg"@, seq!["-i"@, image_path@]),
                    DAEMON_SETTLE_MS,
                ),
            ],
            chain@.available == seq![false, false, false],
            chain@.cursor == 3,
            !chain@.succeeded,
            chain@.failures.len() == 0,
    {
        let mut adapters: Vec<Adapter> = Vec::new();
        adapters.push(Adapter::hyprpaper(image_path));
        adapters.push(Adapter::swww(image_path));
        adapters.push(Adapter::swaybg(image_path));
        let chain = ToolAdapterChain::new(adapters);
        assert(chain@.names =~= seq!["hyprpaper", "swww", "swaybg"]);
        assert(chain@.available =~= seq![false, false, false]);
        assert(chain@.probes =~= seq![
            line("hyprctl"@, seq!["--help"@]),
            line("swww"@, seq!["--version"@]),
            line("swaybg"@, seq!["--version"@]),
        ]);
        assert(chain@.scripts =~= seq![
            Adapter::preload_steps(
                line("hyprctl"@, seq!["hyprpaper"@, "preload"@, image_path@]),
                line("hyprctl"@, seq!["hyprpaper"@, "wallpaper"@, ","@ + image_path@]),
            ),
            Adapter::one_shot_steps(line("swww"@, seq!["img"@, image_path@])),
            Adapter::daemon_steps(
                line("pkill"@, seq!["swaybg"@]),
                line("swaybg"@, seq!["-i"@, image_path@]),
                DAEMON_SETTLE_MS,
            ),
        ]);
        chain
    }

    /// How many adapters the chain knows.
    pub fn len(&self) -> (len: usize)
        ensures
            len == self@.len(),
    {
        self.adapters.len()
    }

    /// The adapter at `at` in the order of priority.
    pub fn adapter(&self, at: usize) -> (adapter: &Adapter)
        requires
            at < self@.len(),
        ensures
            adapter.spec_name() == self@.names[at as int],
            adapter.spec_probe() == self@.probes[at as int],
            adapter.steps() == self@.scripts[at as int],
    {
        &self.adapters[at]
    }

    /// The first available adapter at or after `from`.
    fn seek(&self, from: usize) -> (found: usize)
        requires
            from <= self.available.len(),
        ensures
            found == next_available(self.available@, from as int),
    {
        let mut at: usize = from;
        while at < self.available.len() && !self.available[at]
            invariant
                from <= at <= self.available.len(),
                next_available(self.available@, at as int) == next_available(
                    self.available@,
                    from as int,
                ),
            decreases self.available.len() - at,
        {
            at = at + 1;
        }
        at
    }

    /// Takes the results of the probes, one for each adapter in order of
    /// priority, and starts over: an adapter is available where its probe ran
    /// and exited with a zero status, and unavailable where it did not or no
    /// result is given. Answers with the availability of every adapter.
    pub fn detect(&mut self, results: &Vec<ProbeResult>) -> (found: Vec<ToolAvailability>)
        requires
            old(self).wf(),
        ensures
            final(self).wf(),
            final(self)@ == old(self)@.detected(results@),
            found.len() == final(self)@.len(),
            forall|i: int|
                0 <= i < found.len() ==> (#[trigger] found[i]).name == final(self)@.names[i]
                    && found[i].is_available == final(self)@.available[i],
    {
        proof {
            lemma_detected_wf(self@, results@);
        }
        let mut available: Vec<bool> = Vec::new();
        let mut found: Vec<ToolAvailability> = Vec::new();
        let mut at: usize = 0;
        while at < self.adapters.len()
            invariant
                at <= self.adapters.len(),
                *self == *old(self),
                available.len() == at,
                found.len() == at,
                forall|i: int|
                    0 <= i < at ==> available[i] == (i < results.len()
                        && results[i].shows_available()),
                forall|i: int|
                    0 <= i < at ==> (#[trigger] found[i]).name == self.adapters[i].spec_name()
                        && found[i].is_available == available[i],
            decreases self.adapters.len() - at,
        {
            let is_available = at < results.len() && results[at].is_available();
            available.push(is_available);
            found.push(ToolAvailability { name: self.adapters[at].name(), is_available });
            at = at + 1;
        }
        self.available = available;
        self.cursor = self.seek(0);
        self.step = 0;
        self.failures = Vec::new();
        self.succeeded = false;
        proof {
            assert(self@.available =~= old(self)@.detected(results@).available);
            assert(self@.failures =~= Seq::<ToolFailure>::empty());
        }
        found
    }

    /// Whether the adapter at `at` was found to be there.
    pub fn is_available(&self, at: usize) -> (available: bool)
        requires
            self.wf(),
        ensures
            available == (at < self@.len() && self@.available[at as int]),
    {
        at < self.available.len() && self.available[at]
    }

    /// The adapter that is being applied, while a step is due.
    pub fn current_adapter(&self) -> (current: Option<usize>)
        requires
            self.wf(),
        ensures
            current is Some <==> self@.active(),
            current matches Some(at) ==> at == self@.cursor && self@.available[at as int],
    {
        if !self.succeeded && self.cursor < self.adapters.len() {
            Some(self.cursor)
        } else {
            None
        }
    }

    /// The step that is due: always one of an available adapter. `None` once
    /// applying the chain has ended.
    pub fn next_step(&self) -> (due: Option<&ToolStep>)
        requires
            self.wf(),
        ensures
            due is Some <==> self@.active(),
            due matches Some(step) ==> step@ == self@.current() && self@.available[self@.cursor],
    {
        if !self.succeeded && self.cursor < self.adapters.len() {
            Some(self.adapters[self.cursor].step(self.step))
        } else {
            None
        }
    }

    /// Takes in what came of the step that was due.
    pub fn advance(&mut self, result: StepResult)
        requires
            old(self).wf(),
        ensures
            final(self).wf(),
            final(self)@ == old(self)@.advance(result),
    {
        proof {
            lemma_advance_wf(self@, result);
        }
        if self.succeeded || self.cursor >= self.adapters.len() {
            return ;
        }
        let adapter = &self.adapters[self.cursor];
        match adapter.step(self.step).judge(result) {
            Some(reason) => {
                self.failures.push(
                    ToolFailure { adapter: self.cursor, name: adapter.name(), reason },
                );
                self.cursor = self.seek(self.cursor + 1);
                self.step = 0;
            },
            None => {
                let count = adapter.step_count();
                assert(self@.scripts[self.cursor as int] == adapter.steps());
                assert(self.step < count);
                if self.step + 1 < count {
                    self.step = self.step + 1;
                } else {
                    self.succeeded = true;
                }
            },
        }
    }

    /// The adapters that were tried and failed, in the order of the tries.
    pub fn failures(&self) -> (failures: &Vec<ToolFailure>)
        ensures
            failures@ == self@.failures,
    {
        &self.failures
    }

    /// How applying the chain has ended; `None` while a step is due.
    pub fn outcome(&self) -> (outcome: Option<ApplyOutcome>)
        requires
            self.wf(),
        ensures
            outcome is Some <==> self@.outcome() is Some,
            outcome matches Some(ended) ==> self@.outcome() == Some(ended@),
    {
        if self.succeeded {
            Some(ApplyOutcome::Success { adapter: self.cursor })
        } else if self.cursor < self.adapters.len() {
            None
        } else if self.failures.len() == 0 {
            Some(ApplyOutcome::NoBackendAvailable)
        } else {
            let mut failures: Vec<ToolFailure> = Vec::new();
            let mut at: usize = 0;
            while at < self.failures.len()
                invariant
                    at <= self.failures.len(),
                    failures.len() == at,
                    forall|k: int| 0 <= k < at ==> failures[k] == self.failures[k],
                decreases self.failures.len() - at,
            {
                failures.push(self.failures[at]);
                at = at + 1;
            }
            assert(failures@ =~= self.failures@);
            Some(ApplyOutcome::ToolsFailed { failures })
        }
    }
}

} // verus!
