//! The failure taxonomy of the negotiation engine.

use vstd::prelude::*;
use vstd::string::*;

verus! {

/// A capability that the compositor must advertise before the native client
/// can render.
#[derive(Clone, Copy, Debug, PartialEq, Eq, Structural)]
pub enum Global {
    /// The base surface interface.
    Compositor,
    /// The shared-memory allocator.
    SharedMemory,
    /// The background-layer-surface extension.
    LayerShell,
    /// The output-enumeration interface.
    Output,
}

/// Where the link to the compositor broke.
#[derive(Clone, Copy, Debug, PartialEq, Eq, Structural)]
pub enum ConnectionStage {
    /// The display socket could not be reached.
    Connect,
    /// The registry discovery round-trip failed.
    Discovery,
    /// The round-trip that enumerates outputs failed.
    Enumerate,
    /// A dispatch failed while waiting for configure events.
    ConfigureWait,
}

/// Why no shared buffer could be produced for a surface.
#[derive(Clone, Copy, Debug, PartialEq, Eq, Structural)]
pub enum BufferError {
    /// Width or height is zero.
    EmptyGeometry,
    /// A dimension is above what can be scaled, or the pixel data does not
    /// fit the limits of the wire protocol or of memory.
    TooLarge,
    /// The source pixels do not match the stated geometry.
    SourceMismatch,
    /// The compositor advertises no pixel format that the client can write.
    NoCommonFormat,
    /// The shared-memory region could not be allocated or written.
    Allocation,
}

/// A failure of the native compositor client. Each one ends the native
/// attempt, none of them the whole request.
#[derive(Clone, Copy, Debug, PartialEq, Eq, Structural)]
pub enum NativeError {
    /// The compositor cannot be reached.
    Connection(ConnectionStage),
    /// A required capability is missing.
    ProtocolNegotiation(Global),
    /// No surface was configured within the bounded number of attempts.
    ConfigureTimeout,
    /// A shared buffer could not be produced.
    Buffer(BufferError),
}

/// Why one external tool did not set the wallpaper.
#[derive(Clone, Copy, Debug, PartialEq, Eq, Structural)]
pub enum ToolFailureReason {
    /// The tool's process could not be started.
    LaunchFailed,
    /// The tool ran and reported a non-zero exit status.
    ExitedWithFailure,
    /// The daemon was gone when its liveness was checked.
    DaemonExited,
}

/// The failure of one external tool.
#[derive(Clone, Copy, Debug, PartialEq, Eq)]
pub struct ToolFailure {
    /// The adapter's place in the order of priority.
    pub adapter: usize,
    /// The adapter's name.
    pub name: &'static str,
    /// Why it failed.
    pub reason: ToolFailureReason,
}

/// One reason why the wallpaper was not set: a backend that was attempted
/// and failed, or a desktop for which there is no backend to attempt.
#[derive(Clone, Debug, PartialEq, Eq)]
pub enum BackendFailure {
    /// The desktop identifier of the environment names no desktop that the
    /// engine knows; the identifier is kept.
    UnknownDesktop(String),
    /// The environment holds neither a desktop identifier nor the instance
    /// signal of a compositor.
    NoDesktop,
    /// The native compositor client failed.
    Native(NativeError),
    /// No external tool is available.
    NoToolAvailable,
    /// An external tool was tried and failed.
    Tool(ToolFailure),
}

/// A reason as contracts see it.
pub enum FailureView {
    /// The desktop identifier names no known desktop.
    UnknownDesktop(Seq<char>),
    /// Neither a desktop identifier nor a compositor's instance signal.
    NoDesktop,
    /// The native compositor client failed.
    Native(NativeError),
    /// No external tool is available.
    NoToolAvailable,
    /// An external tool was tried and failed.
    Tool(ToolFailure),
}

impl View for BackendFailure {
    type V = FailureView;

    open spec fn view(&self) -> FailureView {
        match self {
            BackendFailure::UnknownDesktop(name) => FailureView::UnknownDesktop(name@),
            BackendFailure::NoDesktop => FailureView::NoDesktop,
            BackendFailure::Native(error) => FailureView::Native(*error),
            BackendFailure::NoToolAvailable => FailureView::NoToolAvailable,
            BackendFailure::Tool(failure) => FailureView::Tool(*failure),
        }
    }
}

/// The reasons of a list, as contracts see them.
pub open spec fn failure_views(failures: Seq<BackendFailure>) -> Seq<FailureView> {
    failures.map_values(|failure: BackendFailure| failure@)
}

/// What the engine reports to its caller when the wallpaper was not set.
#[derive(Debug, PartialEq, Eq)]
pub enum WallrusError {
    /// An operation on a file or a process failed; the text says how.
    Io(String),
    /// A request over the network failed; the text says how.
    Network(String),
    /// The configuration or the environment is not usable.
    Config(String),
    /// An image could not be read or written.
    ImageProcessing(String),
    /// No backend could set the wallpaper. Each backend that was attempted
    /// is listed with its reason, in the order of the attempts; where none
    /// was, because the desktop is not known, that is listed.
    UnsupportedEnvironment(Vec<BackendFailure>),
}

/// An error as contracts see it.
pub enum ErrorView {
    /// An operation on a file or a process failed.
    Io(Seq<char>),
    /// A request over the network failed.
    Network(Seq<char>),
    /// The configuration or the environment is not usable.
    Config(Seq<char>),
    /// An image could not be read or written.
    ImageProcessing(Seq<char>),
    /// No backend could set the wallpaper.
    UnsupportedEnvironment(Seq<FailureView>),
}

impl View for WallrusError {
    type V = ErrorView;

    open spec fn view(&self) -> ErrorView {
        match self {
            WallrusError::Io(text) => ErrorView::Io(text@),
            WallrusError::Network(text) => ErrorView::Network(text@),
            WallrusError::Config(text) => ErrorView::Config(text@),
            WallrusError::ImageProcessing(text) => ErrorView::ImageProcessing(text@),
            WallrusError::UnsupportedEnvironment(failures) => ErrorView::UnsupportedEnvironment(
                failure_views(failures@),
            ),
        }
    }
}

impl NativeError {
    /// The reason in words.
    pub open spec fn text(self) -> Seq<char> {
        match self {
            NativeError::Connection(ConnectionStage::Connect) => "cannot reach the compositor"@,
            NativeError::Connection(ConnectionStage::Discovery) => "registry discovery failed"@,
            NativeError::Connection(ConnectionStage::Enumerate) => "output enumeration failed"@,
            NativeError::Connection(ConnectionStage::ConfigureWait) =>
                "event dispatch failed during the configure wait"@,
            NativeError::ProtocolNegotiation(Global::Compositor) =>
                "required global missing: compositor"@,
            NativeError::ProtocolNegotiation(Global::SharedMemory) =>
                "required global missing: shared memory"@,
            NativeError::ProtocolNegotiation(Global::LayerShell) =>
                "required global missing: layer shell"@,
            NativeError::ProtocolNegotiation(Global::Output) => "required global missing: output"@,
            NativeError::ConfigureTimeout => "no surface was configured in time"@,
            NativeError::Buffer(BufferError::EmptyGeometry) => "buffer error: empty geometry"@,
            NativeError::Buffer(BufferError::TooLarge) => "buffer error: image too large"@,
            NativeError::Buffer(BufferError::SourceMismatch) =>
                "buffer error: source pixels do not match the geometry"@,
            NativeError::Buffer(BufferError::NoCommonFormat) =>
                "buffer error: no common pixel format"@,
            NativeError::Buffer(BufferError::Allocation) =>
                "buffer error: shared memory could not be allocated"@,
        }
    }

    /// The reason in words.
    pub fn describe(self) -> (text: &'static str)
        ensures
            text@ == self.text(),
    {
        match self {
            NativeError::Connection(ConnectionStage::Connect) => "cannot reach the compositor",
            NativeError::Connection(ConnectionStage::Discovery) => "registry discovery failed",
            NativeError::Connection(ConnectionStage::Enumerate) => "output enumeration failed",
            NativeError::Connection(ConnectionStage::ConfigureWait) =>
                "event dispatch failed during the configure wait",
            NativeError::ProtocolNegotiation(Global::Compositor) =>
                "required global missing: compositor",
            NativeError::ProtocolNegotiation(Global::SharedMemory) =>
                "required global missing: shared memory",
            NativeError::ProtocolNegotiation(Global::LayerShell) =>
                "required global missing: layer shell",
            NativeError::ProtocolNegotiation(Global::Output) => "required global missing: output",
            NativeError::ConfigureTimeout => "no surface was configured in time",
            NativeError::Buffer(BufferError::EmptyGeometry) => "buffer error: empty geometry",
            NativeError::Buffer(BufferError::TooLarge) => "buffer error: image too large",
            NativeError::Buffer(BufferError::SourceMismatch) =>
                "buffer error: source pixels do not match the geometry",
            NativeError::Buffer(BufferError::NoCommonFormat) =>
                "buffer error: no common pixel format",
            NativeError::Buffer(BufferError::Allocation) =>
                "buffer error: shared memory could not be allocated",
        }
    }
}

impl ToolFailureReason {
    /// The reason in words.
    pub open spec fn text(self) -> Seq<char> {
        match self {
            ToolFailureReason::LaunchFailed => "could not be started"@,
            ToolFailureReason::ExitedWithFailure => "exited with a failure"@,
            ToolFailureReason::DaemonExited => "exited right after its start"@,
        }
    }

    /// The reason in words.
    pub fn describe(self) -> (text: &'static str)
        ensures
            text@ == self.text(),
    {
        match self {
            ToolFailureReason::LaunchFailed => "could not be started",
            ToolFailureReason::ExitedWithFailure => "exited with a failure",
            ToolFailureReason::DaemonExited => "exited right after its start",
        }
    }
}

impl FailureView {
    /// The reason in words: for a backend its name, a colon, and why it
    /// failed; for a desktop that is not known, that it is unsupported, with
    /// its identifier, or that none could be detected.
    pub open spec fn text(self) -> Seq<char> {
        match self {
            FailureView::UnknownDesktop(name) => "Unsupported desktop environment: "@ + name,
            FailureView::NoDesktop => "Could not detect desktop environment"@,
            FailureView::Native(error) => "native: "@ + error.text(),
            FailureView::NoToolAvailable => "tools: no backend available"@,
            FailureView::Tool(failure) => failure.name@ + ": "@ + failure.reason.text(),
        }
    }
}

impl BackendFailure {
    /// The reason in words.
    pub fn describe(&self) -> (text: String)
        ensures
            text@ == self@.text(),
    {
        match self {
            BackendFailure::UnknownDesktop(name) => {
                let mut text = "Unsupported desktop environment: ".to_owned();
                text.append(name.as_str());
                text
            },
            BackendFailure::NoDesktop => "Could not detect desktop environment".to_owned(),
            BackendFailure::Native(error) => {
                let mut text = "native: ".to_owned();
                text.append(error.describe());
                text
            },
            BackendFailure::NoToolAvailable => "tools: no backend available".to_owned(),
            BackendFailure::Tool(failure) => {
                let mut text = failure.name.to_owned();
                text.append(": ");
                text.append(failure.reason.describe());
                text
            },
        }
    }
}

/// Each failure in words, each behind a semicolon and a space.
pub open spec fn listed(failures: Seq<FailureView>) -> Seq<char>
    decreases failures.len(),
{
    if failures.len() == 0 {
        Seq::empty()
    } else {
        listed(failures.drop_last()) + "; "@ + failures.last().text()
    }
}

impl ErrorView {
    /// The error in words: its kind, and the text or the attempts that it
    /// carries.
    pub open spec fn message(self) -> Seq<char> {
        match self {
            ErrorView::Io(text) => "IO error: "@ + text,
            ErrorView::Network(text) => "Network error: "@ + text,
            ErrorView::Config(text) => "Configuration error: "@ + text,
            ErrorView::ImageProcessing(text) => "Image processing error: "@ + text,
            ErrorView::UnsupportedEnvironment(failures) => "Unsupported environment"@ + listed(
                failures,
            ),
        }
    }
}

impl WallrusError {
    /// The error in words. An `UnsupportedEnvironment` names every backend
    /// that was attempted, with its reason.
    pub fn message(&self) -> (text: String)
        ensures
            text@ == self@.message(),
    {
        match self {
            WallrusError::Io(detail) => {
                let mut text = "IO error: ".to_owned();
                text.append(detail.as_str());
                text
            },
            WallrusError::Network(detail) => {
                let mut text = "Network error: ".to_owned();
                text.append(detail.as_str());
                text
            },
            WallrusError::Config(detail) => {
                let mut text = "Configuration error: ".to_owned();
                text.append(detail.as_str());
                text
            },
            WallrusError::ImageProcessing(detail) => {
                let mut text = "Image processing error: ".to_owned();
                text.append(detail.as_str());
                text
            },
            WallrusError::UnsupportedEnvironment(failures) => {
                let mut text = "Unsupported environment".to_owned();
                let mut at: usize = 0;
                let ghost views = failure_views(failures@);
                proof {
                    assert(views.take(0) =~= Seq::<FailureView>::empty());
                    assert("Unsupported environment"@ + Seq::<char>::empty()
                        =~= "Unsupported environment"@);
                }
                while at < failures.len()
                    invariant
                        at <= failures.len(),
                        views == failure_views(failures@),
                        text@ == "Unsupported environment"@ + listed(views.take(at as int)),
                    decreases failures.len() - at,
                {
                    let described = failures[at].describe();
                    proof {
                        let before = views.take(at as int);
                        let after = views.take(at + 1);
                        assert(after.drop_last() =~= before);
                        assert(after.last() == failures@[at as int]@);
                        assert(("Unsupported environment"@ + listed(before)) + "; "@
                            + described@ =~= "Unsupported environment"@ + (listed(before) + "; "@
                            + described@));
                    }
                    text.append("; ");
                    text.append(described.as_str());
                    at = at + 1;
                }
                assert(views.take(at as int) =~= views);
                text
            },
        }
    }
}

} // verus!
