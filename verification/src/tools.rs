//! The chain of external wallpaper tools: which are there, and which is
//! tried when.

use vstd::prelude::*;
use crate::command::{line, CommandLine, CommandLineView};
use crate::errors::ToolFailureReason;

verus! {

/// The pause before a daemon's liveness is checked, in milliseconds.
pub const DAEMON_SETTLE_MS: u64 = 100;

/// One step of applying a tool.
#[derive(Debug, PartialEq, Eq)]
pub enum ToolStep {
    /// Run the command and wait for it to exit. Unless `best_effort`, a
    /// launch failure or a non-zero exit status fails the tool.
    Run { command: CommandLine, best_effort: bool },
    /// Start the command and do not wait. A launch failure fails the tool.
    Spawn { command: CommandLine },
    /// Wait for this many milliseconds.
    Settle { millis: u64 },
    /// Check that the process that was spawned is still running. If it has
    /// exited, the tool has failed.
    CheckAlive,
}

/// A step as contracts see it.
pub enum StepView {
    /// Run and wait.
    Run { command: CommandLineView, best_effort: bool },
    /// Start and do not wait.
    Spawn { command: CommandLineView },
    /// Wait.
    Settle { millis: u64 },
    /// Check that the spawned process runs.
    CheckAlive,
}

impl View for ToolStep {
    type V = StepView;

    open spec fn view(&self) -> StepView {
        match self {
            ToolStep::Run { command, best_effort } => StepView::Run {
                command: command@,
                best_effort: *best_effort,
            },
            ToolStep::Spawn { command } => StepView::Spawn { command: command@ },
            ToolStep::Settle { millis } => StepView::Settle { millis: *millis },
            ToolStep::CheckAlive => StepView::CheckAlive,
        }
    }
}

/// What came of one step.
#[derive(Clone, Copy, Debug, PartialEq, Eq, Structural)]
pub enum StepResult {
    /// The command ran and exited, with a zero status or not.
    Exited { success: bool },
    /// The command could not be started.
    LaunchFailed,
    /// The command was started.
    Spawned,
    /// The pause has passed.
    Settled,
    /// The spawned process is still running.
    Alive,
    /// The spawned process has exited, or its state cannot be told.
    Gone,
}

impl StepView {
    /// Why the tool has failed at this step, given what came of it; `None`
    /// where the step has passed. A best-effort run and a pause always pass;
    /// a run passes on a zero exit status, a spawn when the process was
    /// started, a liveness check when it still runs.
    pub open spec fn verdict(self, result: StepResult) -> Option<ToolFailureReason> {
        match self {
            StepView::Run { best_effort, .. } => if best_effort || result == (StepResult::Exited {
                success: true,
            }) {
                None
            } else if result == StepResult::LaunchFailed {
                Some(ToolFailureReason::LaunchFailed)
            } else {
                Some(ToolFailureReason::ExitedWithFailure)
            },
            StepView::Spawn { .. } => if result == StepResult::Spawned {
                None
            } else {
                Some(ToolFailureReason::LaunchFailed)
            },
            StepView::Settle { .. } => None,
            StepView::CheckAlive => if result == StepResult::Alive {
                None
            } else {
                Some(ToolFailureReason::DaemonExited)
            },
        }
    }
}

impl ToolStep {
    /// Why the tool has failed at this step, given what came of it.
    pub fn judge(&self, result: StepResult) -> (verdict: Option<ToolFailureReason>)
        ensures
            verdict == self@.verdict(result),
    {
        match self {
            ToolStep::Run { best_effort, .. } => {
                if *best_effort {
                    None
                } else {
                    match result {
                        StepResult::Exited { success: true } => None,
                        StepResult::LaunchFailed => Some(ToolFailureReason::LaunchFailed),
                        _ => Some(ToolFailureReason::ExitedWithFailure),
                    }
                }
            },
            ToolStep::Spawn { .. } => match result {
                StepResult::Spawned => None,
                _ => Some(ToolFailureReason::LaunchFailed),
            },
            ToolStep::Settle { .. } => None,
            ToolStep::CheckAlive => match result {
                StepResult::Alive => None,
                _ => Some(ToolFailureReason::DaemonExited),
            },
        }
    }
}

/// What came of probing for a tool.
#[derive(Clone, Copy, Debug, PartialEq, Eq, Structural)]
pub enum ProbeResult {
    /// The probe could not be started.
    LaunchFailed,
    /// The probe ran and exited, with a zero status or not.
    Exited { success: bool },
}

impl ProbeResult {
    /// Whether the probe shows the tool to be there: it ran and exited with a
    /// zero status.
    pub open spec fn shows_available(self) -> bool {
        self == (ProbeResult::Exited { success: true })
    }

    /// Whether the probe shows the tool to be there.
    pub fn is_available(self) -> (available: bool)
        ensures
            available == self.shows_available(),
    {
        match self {
            ProbeResult::Exited { success: true } => true,
            _ => false,
        }
    }
}

/// Whether a known tool is there.
#[derive(Clone, Copy, Debug, PartialEq, Eq)]
pub struct ToolAvailability {
    /// The adapter's name.
    pub name: &'static str,
    /// Whether its probe succeeded.
    pub is_available: bool,
}

/// One external tool: how to find out that it is there, and the steps that
/// set the wallpaper with it.
pub struct Adapter {
    name: &'static str,
    probe: CommandLine,
    script: Vec<ToolStep>,
}

impl Adapter {
    /// The adapter has at least one step.
    #[verifier::type_invariant]
    pub closed spec fn wf(&self) -> bool {
        self.script.len() > 0
    }

    /// Every adapter has at least one step.
    pub proof fn lemma_has_steps(&self)
        requires
            self.wf(),
        ensures
            self.steps().len() > 0,
    {
    }

    /// The adapter's name.
    pub closed spec fn spec_name(&self) -> &'static str {
        self.name
    }

    /// The probe's command line.
    pub closed spec fn spec_probe(&self) -> CommandLineView {
        self.probe@
    }

    /// The steps that apply the tool.
    pub closed spec fn steps(&self) -> Seq<StepView> {
        self.script@.map_values(|step: ToolStep| step@)
    }

    /// The steps of a one-shot tool: run `set`, whose exit status decides.
    pub open spec fn one_shot_steps(set: CommandLineView) -> Seq<StepView> {
        seq![StepView::Run { command: set, best_effort: false }]
    }

    /// The steps of a tool that preloads: run `preload`, whatever comes of
    /// it, then run `set`, whose exit status decides.
    pub open spec fn preload_steps(preload: CommandLineView, set: CommandLineView) -> Seq<StepView> {
        seq![
            StepView::Run { command: preload, best_effort: true },
            StepView::Run { command: set, best_effort: false },
        ]
    }

    /// The steps of a daemon: run `stop` to end an earlier instance, whatever
    /// comes of it, spawn `start`, wait, and check that the daemon is alive.
    pub open spec fn daemon_steps(stop: CommandLineView, start: CommandLineView, millis: u64) -> Seq<
        StepView,
    > {
        seq![
            StepView::Run { command: stop, best_effort: true },
            StepView::Spawn { command: start },
            StepView::Settle { millis },
            StepView::CheckAlive,
        ]
    }

    /// A one-shot, synchronous tool.
    pub fn one_shot(name: &'static str, probe: CommandLine, set: CommandLine) -> (adapter: Adapter)
        ensures
            adapter.wf(),
            adapter.spec_name() == name,
            adapter.spec_probe() == probe@,
            adapter.steps() == Self::one_shot_steps(set@),
    {
        let mut script: Vec<ToolStep> = Vec::new();
        script.push(ToolStep::Run { command: set, best_effort: false });
        let adapter = Adapter { name, probe, script };
        assert(adapter.steps() =~= Self::one_shot_steps(set@));
        adapter
    }

    /// A tool that preloads the image before it sets it.
    pub fn preload_then_set(
        name: &'static str,
        probe: CommandLine,
        preload: CommandLine,
        set: CommandLine,
    ) -> (adapter: Adapter)
        ensures
            adapter.wf(),
            adapter.spec_name() == name,
            adapter.spec_probe() == probe@,
            adapter.steps() == Self::preload_steps(preload@, set@),
    {
        let mut script: Vec<ToolStep> = Vec::new();
        script.push(ToolStep::Run { command: preload, best_effort: true });
        script.push(ToolStep::Run { command: set, best_effort: false });
        let adapter = Adapter { name, probe, script };
        assert(adapter.steps() =~= Self::preload_steps(preload@, set@));
        adapter
    }

    /// A daemon-style tool.
    pub fn daemon(
        name: &'static str,
        probe: CommandLine,
        stop: CommandLine,
        start: CommandLine,
        settle_millis: u64,
    ) -> (adapter: Adapter)
        ensures
            adapter.wf(),
            adapter.spec_name() == name,
            adapter.spec_probe() == probe@,
            adapter.steps() == Self::daemon_steps(stop@, start@, settle_millis),
    {
        let mut script: Vec<ToolStep> = Vec::new();
        script.push(ToolStep::Run { command: stop, best_effort: true });
        script.push(ToolStep::Spawn { command: start });
        script.push(ToolStep::Settle { millis: settle_millis });
        script.push(ToolStep::CheckAlive);
        let adapter = Adapter { name, probe, script };
        assert(adapter.steps() =~= Self::daemon_steps(stop@, start@, settle_millis));
        adapter
    }

    /// Whether this is the adapter of `hyprpaper` for the image at
    /// `image_path`: probed with `hyprctl --help`; applied by
    /// `hyprctl hyprpaper preload` with the path, then
    /// `hyprctl hyprpaper wallpaper` with a comma and the path.
    pub open spec fn is_hyprpaper(&self, image_path: Seq<char>) -> bool {
        &&& self.spec_name() == "hyprpaper"
        &&& self.spec_probe() == line("hyprctl"@, seq!["--help"@])
        &&& self.steps() == Self::preload_steps(
            line("hyprctl"@, seq!["hyprpaper"@, "preload"@, image_path]),
            line("hyprctl"@, seq!["hyprpaper"@, "wallpaper"@, ","@ + image_path]),
        )
    }

    /// Whether this is the adapter of `swww` for the image at `image_path`:
    /// probed with `swww --version`, applied by `swww img` with the path.
    pub open spec fn is_swww(&self, image_path: Seq<char>) -> bool {
        &&& self.spec_name() == "swww"
        &&& self.spec_probe() == line("swww"@, seq!["--version"@])
        &&& self.steps() == Self::one_shot_steps(line("swww"@, seq!["img"@, image_path]))
    }

    /// Whether this is the adapter of `swaybg` for the image at
    /// `image_path`: probed with `swaybg --version`; applied by `pkill
    /// swaybg`, then `swaybg -i` with the path, spawned and checked after
    /// the settling time.
    pub open spec fn is_swaybg(&self, image_path: Seq<char>) -> bool {
        &&& self.spec_name() == "swaybg"
        &&& self.spec_probe() == line("swaybg"@, seq!["--version"@])
        &&& self.steps() == Self::daemon_steps(
            line("pkill"@, seq!["swaybg"@]),
            line("swaybg"@, seq!["-i"@, image_path]),
            DAEMON_SETTLE_MS,
        )
    }

    /// `hyprpaper`, driven through `hyprctl`: preload the image, then set it
    /// on every monitor.
    pub fn hyprpaper(image_path: &str) -> (adapter: Adapter)
        ensures
            adapter.wf(),
            adapter.is_hyprpaper(image_path@),
    {
        let probe = CommandLine::new("hyprctl").arg("--help");
        let preload = CommandLine::new("hyprctl").arg("hyprpaper").arg("preload").arg(image_path);
        let set = CommandLine::new("hyprctl").arg("hyprpaper").arg("wallpaper").arg_with_prefix(
            ",",
            image_path,
        );
        assert(probe@ =~= line("hyprctl"@, seq!["--help"@]));
        assert(preload@.args =~= seq!["hyprpaper"@, "preload"@, image_path@]);
        assert(set@.args =~= seq!["hyprpaper"@, "wallpaper"@, ","@ + image_path@]);
        Adapter::preload_then_set("hyprpaper", probe, preload, set)
    }

    /// `swww`: one call sets the image.
    pub fn swww(image_path: &str) -> (adapter: Adapter)
        ensures
            adapter.wf(),
            adapter.is_swww(image_path@),
    {
        let probe = CommandLine::new("swww").arg("--version");
        let set = CommandLine::new("swww").arg("img").arg(image_path);
        assert(probe@ =~= line("swww"@, seq!["--version"@]));
        assert(set@.args =~= seq!["img"@, image_path@]);
        Adapter::one_shot("swww", probe, set)
    }

    /// `swaybg`: a daemon that shows the image for as long as it runs.
    pub fn swaybg(image_path: &str) -> (adapter: Adapter)
        ensures
            adapter.wf(),
            adapter.is_swaybg(image_path@),
    {
        let probe = CommandLine::new("swaybg").arg("--version");
        let stop = CommandLine::new("pkill").arg("swaybg");
        let start = CommandLine::new("swaybg").arg("-i").arg(image_path);
        assert(probe@ =~= line("swaybg"@, seq!["--version"@]));
        assert(stop@ =~= line("pkill"@, seq!["swaybg"@]));
        assert(start@.args =~= seq!["-i"@, image_path@]);
        Adapter::daemon("swaybg", probe, stop, start, DAEMON_SETTLE_MS)
    }

    /// The adapter's name.
    pub fn name(&self) -> (name: &'static str)
        ensures
            name == self.spec_name(),
    {
        self.name
    }

    /// The command line that probes for the tool.
    pub fn probe(&self) -> (probe: &CommandLine)
        ensures
            probe@ == self.spec_probe(),
    {
        &self.probe
    }

    /// The number of steps.
    pub fn step_count(&self) -> (count: usize)
        ensures
            count == self.steps().len(),
    {
        self.script.len()
    }

    /// The step at `at`.
    pub fn step(&self, at: usize) -> (step: &ToolStep)
        requires
            at < self.steps().len(),
        ensures
            step@ == self.steps()[at as int],
    {
        &self.script[at]
    }
}

} // verus!
