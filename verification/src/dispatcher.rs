//! The coordinator: which backend is attempted when, and what the caller is
//! told in the end.

use vstd::prelude::*;
use crate::chain::{lemma_outcome, ApplyOutcome, ChainState, OutcomeView};
use crate::environment::{class_of, classify, text_of, DesktopClass};
use crate::errors::{
    failure_views, BackendFailure, ErrorView, FailureView, NativeError, ToolFailure, WallrusError,
};

verus! {

/// The backend that set the wallpaper.
#[derive(Clone, Copy, Debug, PartialEq, Eq, Structural)]
pub enum Backend {
    /// The desktop environment's own command.
    Direct,
    /// The native compositor client.
    Native,
    /// The external tool at this place in the order of priority.
    Tool { adapter: usize },
}

/// What the coordinator asks for next.
#[derive(Clone, Copy, Debug, PartialEq, Eq, Structural)]
pub enum DispatchAction {
    /// Run the desktop environment's own command and report how it went.
    RunDirect,
    /// Drive the native compositor client and report how it ended.
    AttemptNative,
    /// Apply the chain of external tools and report its outcome.
    AttemptTools,
    /// Nothing more: the result stands.
    Finish,
}

/// The failures of the tools, as entries of the aggregated error.
pub open spec fn tool_entries(failures: Seq<ToolFailure>) -> Seq<FailureView> {
    failures.map_values(|failure: ToolFailure| FailureView::Tool(failure))
}

/// The state of the coordinator, as contracts see it.
pub struct DispatchState {
    /// The class of the running desktop.
    pub class: DesktopClass,
    /// The desktop identifier of the environment, where it is known.
    pub desktop: Option<Seq<char>>,
    /// How the desktop's own command went, once it was run: the text of the
    /// failure where it could not be started.
    pub direct: Option<Result<(), Seq<char>>>,
    /// How the native client ended, once it was attempted.
    pub native: Option<Result<(), NativeError>>,
    /// How the tool chain ended, once it was applied.
    pub tools: Option<OutcomeView>,
}

impl DispatchState {
    /// The state before any backend was attempted, for a desktop of which
    /// only the class is known.
    pub open spec fn initial(class: DesktopClass) -> DispatchState {
        DispatchState { class, desktop: None, direct: None, native: None, tools: None }
    }

    /// The state before any backend was attempted, for the desktop that the
    /// signals of the environment stand for.
    pub open spec fn detected(desktop: Option<Seq<char>>, instance_signal: bool) -> DispatchState {
        DispatchState {
            class: class_of(desktop, instance_signal),
            desktop,
            direct: None,
            native: None,
            tools: None,
        }
    }

    /// Why there is no backend for an unknown desktop: its identifier names
    /// none, or there is no identifier.
    pub open spec fn undetected(self) -> FailureView {
        match self.desktop {
            Some(name) => FailureView::UnknownDesktop(name),
            None => FailureView::NoDesktop,
        }
    }

    /// What is asked for next. A known desktop runs its own command, once.
    /// A layer compositor attempts the native client first, and the tool
    /// chain after the native client has failed. An unknown desktop attempts
    /// nothing.
    pub open spec fn action(self) -> DispatchAction {
        match self.class {
            DesktopClass::GnomeFamily | DesktopClass::Kde | DesktopClass::Xfce => if self.direct
                is None {
                DispatchAction::RunDirect
            } else {
                DispatchAction::Finish
            },
            DesktopClass::WaylandLayerCompositor(_) => match self.native {
                None => DispatchAction::AttemptNative,
                Some(Ok(_)) => DispatchAction::Finish,
                Some(Err(_)) => if self.tools is None {
                    DispatchAction::AttemptTools
                } else {
                    DispatchAction::Finish
                },
            },
            DesktopClass::Unknown => DispatchAction::Finish,
        }
    }

    /// The state after the desktop's own command was run; unchanged unless
    /// that was asked for.
    pub open spec fn with_direct(self, outcome: Result<(), Seq<char>>) -> DispatchState {
        if self.action() == DispatchAction::RunDirect {
            DispatchState { direct: Some(outcome), ..self }
        } else {
            self
        }
    }

    /// The state after the native client has ended; unchanged unless the
    /// native attempt was asked for.
    pub open spec fn with_native(self, outcome: Result<(), NativeError>) -> DispatchState {
        if self.action() == DispatchAction::AttemptNative {
            DispatchState { native: Some(outcome), ..self }
        } else {
            self
        }
    }

    /// The state after the tool chain has ended; unchanged unless the chain
    /// was asked for.
    pub open spec fn with_tools(self, outcome: OutcomeView) -> DispatchState {
        if self.action() == DispatchAction::AttemptTools {
            DispatchState { tools: Some(outcome), ..self }
        } else {
            self
        }
    }

    /// What the caller is told, once nothing more is asked for: the backend
    /// that set the wallpaper, or the error. Where every backend of a layer
    /// compositor has failed, the error is `UnsupportedEnvironment` with one
    /// entry for each backend that was attempted, in the order of the
    /// attempts. For an unknown desktop it is `UnsupportedEnvironment` with
    /// one entry that says why the desktop is not known.
    pub open spec fn result(self) -> Option<Result<Backend, ErrorView>> {
        match self.class {
            DesktopClass::GnomeFamily | DesktopClass::Kde | DesktopClass::Xfce => match self.direct {
                None => None,
                Some(Ok(_)) => Some(Ok(Backend::Direct)),
                Some(Err(text)) => Some(Err(ErrorView::Io(text))),
            },
            DesktopClass::WaylandLayerCompositor(_) => match self.native {
                None => None,
                Some(Ok(_)) => Some(Ok(Backend::Native)),
                Some(Err(error)) => match self.tools {
                    None => None,
                    Some(OutcomeView::Success { adapter }) => Some(
                        Ok(Backend::Tool { adapter: adapter as usize }),
                    ),
                    Some(OutcomeView::NoBackendAvailable) => Some(
                        Err(
                            ErrorView::UnsupportedEnvironment(
                                seq![FailureView::Native(error), FailureView::NoToolAvailable],
                            ),
                        ),
                    ),
                    Some(OutcomeView::ToolsFailed { failures }) => Some(
                        Err(
                            ErrorView::UnsupportedEnvironment(
                                seq![FailureView::Native(error)] + tool_entries(failures),
                            ),
                        ),
                    ),
                },
            },
            DesktopClass::Unknown => Some(
                Err(ErrorView::UnsupportedEnvironment(seq![self.undetected()])),
            ),
        }
    }
}

/// The top-level coordinator.
pub struct BackendDispatcher {
    class: DesktopClass,
    desktop: Option<String>,
    direct: Option<Result<(), String>>,
    native: Option<Result<(), NativeError>>,
    tools: Option<ApplyOutcome>,
}

impl View for BackendDispatcher {
    type V = DispatchState;

    closed spec fn view(&self) -> DispatchState {
        DispatchState {
            class: self.class,
            desktop: match self.desktop {
                None => None,
                Some(name) => Some(name@),
            },
            direct: match self.direct {
                None => None,
                Some(Ok(_)) => Some(Ok(())),
                Some(Err(text)) => Some(Err(text@)),
            },
            native: self.native,
            tools: match self.tools {
                None => None,
                Some(outcome) => Some(outcome@),
            },
        }
    }
}

impl BackendDispatcher {
    /// A coordinator for a desktop of which only the class is known.
    pub fn new(class: DesktopClass) -> (dispatcher: BackendDispatcher)
        ensures
            dispatcher@ == DispatchState::initial(class),
    {
        BackendDispatcher { class, desktop: None, direct: None, native: None, tools: None }
    }

    /// A coordinator for the desktop that the signals of the environment
    /// stand for: the desktop identifier, where one is set, and the presence
    /// of the compositor's instance signal. The identifier is kept, so that
    /// an unknown desktop can be named.
    pub fn for_environment(desktop: Option<&str>, instance_signal: bool) -> (dispatcher:
        BackendDispatcher)
        ensures
            dispatcher@ == DispatchState::detected(text_of(desktop), instance_signal),
    {
        let class = classify(desktop, instance_signal);
        let desktop = match desktop {
            Some(name) => Some(name.to_owned()),
            None => None,
        };
        BackendDispatcher { class, desktop, direct: None, native: None, tools: None }
    }

    /// The class of the running desktop.
    pub fn class(&self) -> (class: DesktopClass)
        ensures
            class == self@.class,
    {
        self.class
    }

    /// What is to be attempted next.
    pub fn next(&self) -> (action: DispatchAction)
        ensures
            action == self@.action(),
    {
        match self.class {
            DesktopClass::GnomeFamily | DesktopClass::Kde | DesktopClass::Xfce => {
                if self.direct.is_none() {
                    DispatchAction::RunDirect
                } else {
                    DispatchAction::Finish
                }
            },
            DesktopClass::WaylandLayerCompositor(_) => match self.native {
                None => DispatchAction::AttemptNative,
                Some(Ok(_)) => DispatchAction::Finish,
                Some(Err(_)) => {
                    if self.tools.is_none() {
                        DispatchAction::AttemptTools
                    } else {
                        DispatchAction::Finish
                    }
                },
            },
            DesktopClass::Unknown => DispatchAction::Finish,
        }
    }

    /// Records how the desktop's own command went: `Err` with the text of
    /// the failure where it could not be started.
    pub fn record_direct(&mut self, outcome: Result<(), String>)
        ensures
            final(self)@ == old(self)@.with_direct(
                match outcome {
                    Ok(_) => Ok(()),
                    Err(text) => Err(text@),
                },
            ),
    {
        if self.next() == DispatchAction::RunDirect {
            self.direct = Some(outcome);
        }
    }

    /// Records how the native client has ended.
    pub fn record_native(&mut self, outcome: Result<(), NativeError>)
        ensures
            final(self)@ == old(self)@.with_native(outcome),
    {
        if self.next() == DispatchAction::AttemptNative {
            self.native = Some(outcome);
        }
    }

    /// Records how the tool chain has ended.
    pub fn record_tools(&mut self, outcome: ApplyOutcome)
        ensures
            final(self)@ == old(self)@.with_tools(outcome@),
    {
        if self.next() == DispatchAction::AttemptTools {
            self.tools = Some(outcome);
        }
    }

    /// What the caller is told; `None` while a backend is still to be
    /// attempted.
    pub fn result(&self) -> (result: Option<Result<Backend, WallrusError>>)
        ensures
            result is Some <==> self@.action() == DispatchAction::Finish,
            match result {
                None => self@.result() is None,
                Some(Ok(backend)) => self@.result() == Some(Ok::<Backend, ErrorView>(backend)),
                Some(Err(error)) => self@.result() == Some(Err::<Backend, ErrorView>(error@)),
            },
    {
        match self.class {
            DesktopClass::GnomeFamily | DesktopClass::Kde | DesktopClass::Xfce => match &self.direct {
                None => None,
                Some(Ok(_)) => Some(Ok(Backend::Direct)),
                Some(Err(text)) => Some(Err(WallrusError::Io(text.clone()))),
            },
            DesktopClass::WaylandLayerCompositor(_) => match self.native {
                None => None,
                Some(Ok(_)) => Some(Ok(Backend::Native)),
                Some(Err(error)) => match &self.tools {
                    None => None,
                    Some(ApplyOutcome::Success { adapter }) => Some(
                        Ok(Backend::Tool { adapter: *adapter }),
                    ),
                    Some(ApplyOutcome::NoBackendAvailable) => {
                        let mut entries: Vec<BackendFailure> = Vec::new();
                        entries.push(BackendFailure::Native(error));
                        entries.push(BackendFailure::NoToolAvailable);
                        assert(failure_views(entries@) =~= seq![
                            FailureView::Native(error),
                            FailureView::NoToolAvailable,
                        ]);
                        Some(Err(WallrusError::UnsupportedEnvironment(entries)))
                    },
                    Some(ApplyOutcome::ToolsFailed { failures }) => {
                        let mut entries: Vec<BackendFailure> = Vec::new();
                        entries.push(BackendFailure::Native(error));
                        let mut at: usize = 0;
                        while at < failures.len()
                            invariant
                                at <= failures.len(),
                                entries.len() == at + 1,
                                entries[0]@ == FailureView::Native(error),
                                forall|k: int|
                                    0 <= k < at ==> entries[k + 1]@ == FailureView::Tool(
                                        failures[k],
                                    ),
                            decreases failures.len() - at,
                        {
                            entries.push(BackendFailure::Tool(failures[at]));
                            at = at + 1;
                        }
                        assert(failure_views(entries@) =~= seq![FailureView::Native(error)]
                            + tool_entries(failures@));
                        Some(Err(WallrusError::UnsupportedEnvironment(entries)))
                    },
                },
            },
            DesktopClass::Unknown => {
                let mut entries: Vec<BackendFailure> = Vec::new();
                match &self.desktop {
                    Some(name) => entries.push(BackendFailure::UnknownDesktop(name.clone())),
                    None => entries.push(BackendFailure::NoDesktop),
                }
                assert(failure_views(entries@) =~= seq![self@.undetected()]);
                Some(Err(WallrusError::UnsupportedEnvironment(entries)))
            },
        }
    }
}

/// There is a result exactly when nothing more is asked for.
pub proof fn lemma_result_when_finished(state: DispatchState)
    ensures
        state.result() is Some <==> state.action() == DispatchAction::Finish,
{
}

/// With a failing native client and no tool available, the request fails
/// with `UnsupportedEnvironment`, and both reasons are listed: that of the
/// native client, and that no tool is available.
pub proof fn lemma_nothing_works(state: DispatchState, error: NativeError, chain: ChainState)
    requires
        state.class is WaylandLayerCompositor,
        state.native == Some(Err::<(), NativeError>(error)),
        chain.wf(),
        !chain.succeeded,
        forall|i: int| 0 <= i < chain.len() ==> !#[trigger] chain.available[i],
        state.tools == chain.outcome(),
    ensures
        state.result() == Some(
            Err::<Backend, ErrorView>(
                ErrorView::UnsupportedEnvironment(
                    seq![FailureView::Native(error), FailureView::NoToolAvailable],
                ),
            ),
        ),
{
    lemma_outcome(chain);
}

/// The request succeeds only through a backend that did: the desktop's own
/// command where it ran, the native client where it ended well, or a tool
/// where the native client had failed and the chain reported the tool's
/// success. The tool chain is attempted only after the native client has
/// failed.
pub proof fn lemma_success_is_earned(state: DispatchState)
    ensures
        state.result() == Some(Ok::<Backend, ErrorView>(Backend::Direct)) ==> (
        state.direct matches Some(Ok(_))),
        state.result() == Some(Ok::<Backend, ErrorView>(Backend::Native)) ==> (
        state.native matches Some(Ok(_))),
        state.result() matches Some(Ok(Backend::Tool { adapter })) ==> (state.native matches Some(
            Err(_),
        )) && (state.tools matches Some(OutcomeView::Success { adapter: tool }) && tool as usize
            == adapter),
        state.action() == DispatchAction::AttemptTools ==> (state.native matches Some(Err(_))),
{
}

/// Where every backend of a layer compositor has failed, the error lists
/// the native client's reason first and then every tool that was tried,
/// each with its reason, in the order of the tries.
pub proof fn lemma_failure_lists_every_attempt(
    state: DispatchState,
    error: NativeError,
    failures: Seq<ToolFailure>,
)
    requires
        state.class is WaylandLayerCompositor,
        state.native == Some(Err::<(), NativeError>(error)),
        state.tools == Some(OutcomeView::ToolsFailed { failures }),
    ensures
        state.result() matches Some(Err(ErrorView::UnsupportedEnvironment(entries))) && {
            &&& entries.len() == failures.len() + 1
            &&& entries[0] == FailureView::Native(error)
            &&& forall|k: int|
                0 <= k < failures.len() ==> #[trigger] entries[k + 1] == FailureView::Tool(
                    failures[k],
                )
        },
{
}

/// Every failure of the native client leads to the tool chain: on a layer
/// compositor, whatever the error, the tools are attempted next, and
/// nothing is reported to the caller yet.
pub proof fn lemma_native_failure_falls_back(class: DesktopClass, error: NativeError)
    requires
        class is WaylandLayerCompositor,
    ensures
        DispatchState::initial(class).action() == DispatchAction::AttemptNative,
        DispatchState::initial(class).with_native(Err(error)).action()
            == DispatchAction::AttemptTools,
        DispatchState::initial(class).with_native(Err(error)).result() is None,
{
}

/// A desktop that is not known is unsupported, and the error says why:
/// it names the identifier that stands for no known desktop, or says that
/// the environment holds no identifier and no compositor's signal. Nothing
/// is attempted for it.
pub proof fn lemma_unknown_desktop_is_named(desktop: Option<Seq<char>>, instance_signal: bool)
    requires
        class_of(desktop, instance_signal) is Unknown,
    ensures
        DispatchState::detected(desktop, instance_signal).action() == DispatchAction::Finish,
        DispatchState::detected(desktop, instance_signal).result() == Some(
            Err::<Backend, ErrorView>(
                ErrorView::UnsupportedEnvironment(
                    seq![
                        match desktop {
                            Some(name) => FailureView::UnknownDesktop(name),
                            None => FailureView::NoDesktop,
                        },
                    ],
                ),
            ),
        ),
        desktop is None ==> !instance_signal,
{
}

} // verus!
