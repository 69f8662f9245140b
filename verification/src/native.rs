//! The native compositor client: a protocol state machine that is fed one
//! event at a time and says what to do next.

use vstd::prelude::*;
use crate::buffer::{preferred_format, SharedBuffer};
use crate::errors::{BufferError, ConnectionStage, Global, NativeError};
use crate::scaler::{ImageScaler, PixelFormat};
use crate::surface::{BufferRef, Surface, SurfaceState};

verus! {

/// How many non-blocking polls the client spends on waiting for the first
/// configure event.
pub const MAX_ATTEMPTS: u32 = 10;

/// The pause between two polls once the wallpaper is up, in milliseconds.
pub const KEEP_ALIVE_INTERVAL_MS: u64 = 100;

/// Which of the required globals the registry discovery could bind.
#[derive(Clone, Copy, Debug, PartialEq, Eq, Structural)]
pub struct Globals {
    /// The base surface interface.
    pub compositor: bool,
    /// The shared-memory allocator.
    pub shared_memory: bool,
    /// The background-layer-surface extension.
    pub layer_shell: bool,
    /// The output-enumeration interface.
    pub output: bool,
}

impl Globals {
    /// The first required global that is absent, if any: compositor, shared
    /// memory, layer shell, output, in that order.
    pub open spec fn first_missing(self) -> Option<Global> {
        if !self.compositor {
            Some(Global::Compositor)
        } else if !self.shared_memory {
            Some(Global::SharedMemory)
        } else if !self.layer_shell {
            Some(Global::LayerShell)
        } else if !self.output {
            Some(Global::Output)
        } else {
            None
        }
    }

    /// Checks that every required global was bound.
    pub fn negotiate(self) -> (checked: Result<(), NativeError>)
        ensures
            checked is Ok <==> self.compositor && self.shared_memory && self.layer_shell
                && self.output,
            checked matches Err(error) ==> self.first_missing() matches Some(missing) && error
                == NativeError::ProtocolNegotiation(missing),
    {
        if !self.compositor {
            Err(NativeError::ProtocolNegotiation(Global::Compositor))
        } else if !self.shared_memory {
            Err(NativeError::ProtocolNegotiation(Global::SharedMemory))
        } else if !self.layer_shell {
            Err(NativeError::ProtocolNegotiation(Global::LayerShell))
        } else if !self.output {
            Err(NativeError::ProtocolNegotiation(Global::Output))
        } else {
            Ok(())
        }
    }
}

/// The layer that a layer surface is placed on.
#[derive(Clone, Copy, Debug, PartialEq, Eq, Structural)]
pub enum Layer {
    /// Below every window.
    Background,
}

/// The request for the layer surface of one output.
#[derive(Clone, Copy, Debug, PartialEq, Eq, Structural)]
pub struct LayerSurfaceRequest {
    /// The output to bind the surface to.
    pub output: u32,
    /// The layer to place it on.
    pub layer: Layer,
    /// Anchored to the top edge.
    pub anchor_top: bool,
    /// Anchored to the bottom edge.
    pub anchor_bottom: bool,
    /// Anchored to the left edge.
    pub anchor_left: bool,
    /// Anchored to the right edge.
    pub anchor_right: bool,
    /// The exclusive zone; `-1` reserves no space and ignores that of others.
    pub exclusive_zone: i32,
    /// Whether it may ever take keyboard focus.
    pub keyboard_interactive: bool,
}

impl LayerSurfaceRequest {
    /// A full-screen background surface on `output` that never takes focus
    /// and reserves no space.
    pub open spec fn background(output: u32) -> LayerSurfaceRequest {
        LayerSurfaceRequest {
            output,
            layer: Layer::Background,
            anchor_top: true,
            anchor_bottom: true,
            anchor_left: true,
            anchor_right: true,
            exclusive_zone: -1i32,
            keyboard_interactive: false,
        }
    }

    /// A full-screen background surface on `output` that never takes focus
    /// and reserves no space.
    pub fn for_output(output: u32) -> (request: LayerSurfaceRequest)
        ensures
            request == LayerSurfaceRequest::background(output),
    {
        LayerSurfaceRequest {
            output,
            layer: Layer::Background,
            anchor_top: true,
            anchor_bottom: true,
            anchor_left: true,
            anchor_right: true,
            exclusive_zone: -1,
            keyboard_interactive: false,
        }
    }
}

/// What the client is about to do.
#[derive(Clone, Copy, Debug, PartialEq, Eq, Structural)]
pub enum Phase {
    /// Reach the display socket.
    Connect,
    /// Discover and bind the globals.
    Discover,
    /// Make the round-trip that announces the outputs.
    Enumerate,
    /// Poll for configure events without blocking.
    WaitPoll,
    /// Block for events once, after a poll that configured nothing.
    WaitBlock,
    /// Give a buffer to a surface that waits for one.
    Render,
    /// Make the round-trip that flushes the commits.
    Flush,
    /// Poll for events while the wallpaper is up.
    KeepAlive,
    /// Pause until the next poll.
    Rest,
    /// The native attempt has failed; another backend may be tried.
    Failed(NativeError),
    /// Dispatch failed after the wallpaper was up; the process is to end.
    Terminated,
}

/// What the compositor, or the code that talks to it, reports to the client.
#[derive(Clone, Copy, Debug, PartialEq, Eq, Structural)]
pub enum Event {
    /// The display socket was reached.
    Connected,
    /// The display socket could not be reached.
    ConnectFailed,
    /// The registry discovery has ended; these globals could be bound.
    Discovered(Globals),
    /// The registry discovery round-trip failed.
    DiscoveryFailed,
    /// The dispatch or round-trip that was asked for has returned.
    DispatchDone,
    /// The dispatch or round-trip that was asked for has failed.
    DispatchFailed,
    /// The pause that was asked for has passed.
    Rested,
    /// The compositor announced an output.
    OutputAdded { output: u32 },
    /// The bare surface of an output was committed.
    SurfaceCommitted { output: u32 },
    /// The compositor retracted an output.
    OutputRemoved { output: u32 },
    /// The compositor stated the size of the surface of an output.
    Configure { output: u32, width: u32, height: u32 },
    /// The compositor closed the surface of an output.
    Closed { output: u32 },
    /// The buffer attached to the surface of an output was committed.
    BufferCommitted { output: u32 },
    /// The shared memory for a buffer could not be allocated or written.
    BufferRejected { output: u32 },
}

/// What the code that talks to the compositor is to do next.
#[derive(Clone, Copy, Debug, PartialEq, Eq, Structural)]
pub enum Action {
    /// Connect to the display socket; report `Connected` or `ConnectFailed`.
    Connect,
    /// Run the registry discovery; report `Discovered` or `DiscoveryFailed`.
    Discover,
    /// Make a round-trip; report `DispatchDone` or `DispatchFailed`.
    Roundtrip,
    /// Dispatch pending events without blocking; report likewise.
    Poll,
    /// Dispatch events, blocking until some arrive; report likewise.
    Block,
    /// Ask the client for the next buffer, upload, attach and commit it;
    /// report `BufferCommitted` or `BufferRejected`.
    Render,
    /// Sleep for this many milliseconds; report `Rested`.
    Rest { millis: u64 },
    /// Give the native attempt up with this error.
    Abandon(NativeError),
    /// End the process.
    Terminate,
}

/// Whether every surface has been configured.
pub open spec fn all_configured(surfaces: Seq<Surface>) -> bool {
    forall|i: int| 0 <= i < surfaces.len() ==> (#[trigger] surfaces[i]).output.configured
}

/// Whether no surface has been configured.
pub open spec fn none_configured(surfaces: Seq<Surface>) -> bool {
    forall|i: int| 0 <= i < surfaces.len() ==> !(#[trigger] surfaces[i]).output.configured
}

/// Whether some surface waits for a buffer.
pub open spec fn any_wants_buffer(surfaces: Seq<Surface>) -> bool {
    exists|i: int| 0 <= i < surfaces.len() && (#[trigger] surfaces[i]).wants_buffer()
}

/// Whether a surface is bound to `output`.
pub open spec fn has_output(surfaces: Seq<Surface>, output: u32) -> bool {
    exists|i: int| 0 <= i < surfaces.len() && (#[trigger] surfaces[i]).output.id == output
}

/// Whether `at` is the first surface that waits for a buffer.
pub open spec fn is_first_wanting(surfaces: Seq<Surface>, at: int) -> bool {
    &&& 0 <= at < surfaces.len()
    &&& surfaces[at].wants_buffer()
    &&& forall|i: int| 0 <= i < at ==> !(#[trigger] surfaces[i]).wants_buffer()
}

/// The first surface that waits for a buffer, where one does.
pub open spec fn first_wanting(surfaces: Seq<Surface>) -> int {
    choose|at: int| is_first_wanting(surfaces, at)
}

/// Whether every surface has been given up.
pub open spec fn all_failed(surfaces: Seq<Surface>) -> bool {
    forall|i: int| 0 <= i < surfaces.len() ==> (#[trigger] surfaces[i]).state == SurfaceState::Failed
}

/// Each surface is well formed; each output has one surface; no buffer
/// belongs to two surfaces; every serial in use lies below `next_serial`.
pub open spec fn surfaces_sound(surfaces: Seq<Surface>, next_serial: nat) -> bool {
    &&& forall|i: int| 0 <= i < surfaces.len() ==> (#[trigger] surfaces[i]).wf()
    &&& forall|i: int, j: int|
        0 <= i < surfaces.len() && 0 <= j < surfaces.len() && i != j ==> (#[trigger] surfaces[i]).output.id
            != (#[trigger] surfaces[j]).output.id
    &&& forall|i: int, serial: u64|
        0 <= i < surfaces.len() && #[trigger] surfaces[i].holds(serial) ==> serial < next_serial
    &&& forall|i: int, j: int, serial: u64|
        0 <= i < surfaces.len() && 0 <= j < surfaces.len() && i != j && #[trigger] surfaces[i].holds(
            serial,
        ) ==> !#[trigger] surfaces[j].holds(serial)
}

/// The state of the native client, as contracts see it.
pub struct ClientState {
    /// What the client is about to do.
    pub phase: Phase,
    /// The surfaces, one for each known output, in order of announcement.
    pub surfaces: Seq<Surface>,
    /// The polls spent on waiting for a configure event.
    pub attempts: nat,
    /// Whether the compositor has closed the last surface.
    pub closed: bool,
    /// The serial of the next buffer.
    pub next_serial: nat,
}

impl ClientState {
    /// The state before anything has happened.
    pub open spec fn initial() -> ClientState {
        ClientState {
            phase: Phase::Connect,
            surfaces: Seq::empty(),
            attempts: 0,
            closed: false,
            next_serial: 0,
        }
    }

    /// Whether the client listens to the compositor: the globals are bound
    /// and the client has neither failed nor ended.
    pub open spec fn live(self) -> bool {
        match self.phase {
            Phase::Connect | Phase::Discover | Phase::Failed(_) | Phase::Terminated => false,
            _ => true,
        }
    }

    /// The surfaces are sound; the wait has spent at most its bound, and
    /// less while it goes on; it blocks only after a poll; a failed client
    /// has given every surface up; a client that has not bound the globals
    /// has no surface.
    pub open spec fn wf(self) -> bool {
        &&& surfaces_sound(self.surfaces, self.next_serial)
        &&& self.attempts <= MAX_ATTEMPTS
        &&& self.phase == Phase::WaitPoll || self.phase == Phase::WaitBlock ==> self.attempts
            < MAX_ATTEMPTS
        &&& self.phase == Phase::WaitBlock ==> self.attempts > 0
        &&& self.phase is Failed ==> all_failed(self.surfaces)
        &&& self.phase == Phase::Connect || self.phase == Phase::Discover
            ==> self.surfaces.len() == 0
    }

    /// The client gives up with `error`, and every surface with it.
    pub open spec fn fail(self, error: NativeError) -> ClientState {
        ClientState {
            phase: Phase::Failed(error),
            surfaces: self.surfaces.map_values(|surface: Surface| surface.failed()),
            ..self
        }
    }

    /// The head of the configure wait: poll while some surface is not
    /// configured, the compositor has not closed the last one, and attempts
    /// are left. Otherwise time out if nothing is configured, else go on to
    /// rendering.
    pub open spec fn enter_wait(self) -> ClientState {
        if !all_configured(self.surfaces) && !self.closed && self.attempts < MAX_ATTEMPTS {
            ClientState { phase: Phase::WaitPoll, ..self }
        } else if none_configured(self.surfaces) {
            self.fail(NativeError::ConfigureTimeout)
        } else {
            self.enter_render()
        }
    }

    /// Render while a surface waits for a buffer, then flush.
    pub open spec fn enter_render(self) -> ClientState {
        if any_wants_buffer(self.surfaces) {
            ClientState { phase: Phase::Render, ..self }
        } else {
            ClientState { phase: Phase::Flush, ..self }
        }
    }

    /// The state after `event`. An event that the phase does not expect
    /// changes nothing.
    pub open spec fn next(self, event: Event) -> ClientState {
        match event {
            Event::Connected => if self.phase == Phase::Connect {
                ClientState { phase: Phase::Discover, ..self }
            } else {
                self
            },
            Event::ConnectFailed => if self.phase == Phase::Connect {
                self.fail(NativeError::Connection(ConnectionStage::Connect))
            } else {
                self
            },
            Event::Discovered(globals) => if self.phase == Phase::Discover {
                match globals.first_missing() {
                    Some(missing) => self.fail(NativeError::ProtocolNegotiation(missing)),
                    None => ClientState { phase: Phase::Enumerate, ..self },
                }
            } else {
                self
            },
            Event::DiscoveryFailed => if self.phase == Phase::Discover {
                self.fail(NativeError::Connection(ConnectionStage::Discovery))
            } else {
                self
            },
            Event::DispatchDone => match self.phase {
                Phase::Enumerate => ClientState { attempts: 0, ..self }.enter_wait(),
                Phase::WaitPoll => {
                    let polled = ClientState { attempts: self.attempts + 1, ..self };
                    if none_configured(self.surfaces) && polled.attempts < MAX_ATTEMPTS {
                        ClientState { phase: Phase::WaitBlock, ..polled }
                    } else {
                        polled.enter_wait()
                    }
                },
                Phase::WaitBlock => self.enter_wait(),
                Phase::Flush => ClientState { phase: Phase::KeepAlive, ..self },
                Phase::KeepAlive => if any_wants_buffer(self.surfaces) {
                    ClientState { phase: Phase::Render, ..self }
                } else {
                    ClientState { phase: Phase::Rest, ..self }
                },
                _ => self,
            },
            Event::DispatchFailed => match self.phase {
                Phase::Enumerate => self.fail(NativeError::Connection(ConnectionStage::Enumerate)),
                Phase::WaitPoll | Phase::WaitBlock => self.fail(
                    NativeError::Connection(ConnectionStage::ConfigureWait),
                ),
                Phase::Flush | Phase::KeepAlive => ClientState { phase: Phase::Terminated, ..self },
                _ => self,
            },
            Event::Rested => if self.phase == Phase::Rest {
                ClientState { phase: Phase::KeepAlive, ..self }
            } else {
                self
            },
            Event::OutputAdded { output } => if self.live() && !has_output(self.surfaces, output) {
                ClientState { surfaces: self.surfaces.push(Surface::created(output)), ..self }
            } else {
                self
            },
            Event::SurfaceCommitted { output } => if self.live() {
                ClientState {
                    surfaces: self.surfaces.map_values(
                        |surface: Surface|
                            if surface.output.id == output {
                                surface.bare_committed()
                            } else {
                                surface
                            },
                    ),
                    ..self
                }
            } else {
                self
            },
            Event::OutputRemoved { output } => if self.live() {
                ClientState {
                    surfaces: self.surfaces.filter(|surface: Surface| surface.output.id != output),
                    ..self
                }
            } else {
                self
            },
            Event::Configure { output, width, height } => if self.live() {
                ClientState {
                    surfaces: self.surfaces.map_values(
                        |surface: Surface|
                            if surface.output.id == output {
                                surface.configured(width, height)
                            } else {
                                surface
                            },
                    ),
                    ..self
                }
            } else {
                self
            },
            Event::Closed { output } => if self.live() {
                let left = self.surfaces.filter(|surface: Surface| surface.output.id != output);
                ClientState { surfaces: left, closed: self.closed || left.len() == 0, ..self }
            } else {
                self
            },
            Event::BufferCommitted { output } => if self.phase == Phase::Render {
                ClientState {
                    surfaces: self.surfaces.map_values(
                        |surface: Surface|
                            if surface.output.id == output {
                                surface.buffer_committed()
                            } else {
                                surface
                            },
                    ),
                    ..self
                }.enter_render()
            } else {
                self
            },
            Event::BufferRejected { output } => if self.phase == Phase::Render {
                self.fail(NativeError::Buffer(BufferError::Allocation))
            } else {
                self
            },
        }
    }

    /// The layer surface to request in answer to `event`: one for an output
    /// that is announced to a listening client for the first time.
    pub open spec fn request_for(self, event: Event) -> Option<LayerSurfaceRequest> {
        match event {
            Event::OutputAdded { output } => if self.live() && !has_output(self.surfaces, output) {
                Some(LayerSurfaceRequest::background(output))
            } else {
                None
            },
            _ => None,
        }
    }

    /// What is to be done in this state.
    pub open spec fn action(self) -> Action {
        match self.phase {
            Phase::Connect => Action::Connect,
            Phase::Discover => Action::Discover,
            Phase::Enumerate | Phase::Flush => Action::Roundtrip,
            Phase::WaitPoll | Phase::KeepAlive => Action::Poll,
            Phase::WaitBlock => Action::Block,
            Phase::Render => Action::Render,
            Phase::Rest => Action::Rest { millis: KEEP_ALIVE_INTERVAL_MS },
            Phase::Failed(error) => Action::Abandon(error),
            Phase::Terminated => Action::Terminate,
        }
    }

    /// How the native attempt has ended, if it has: well once the commits
    /// are flushed, with the error once the client has failed.
    pub open spec fn outcome(self) -> Option<Result<(), NativeError>> {
        match self.phase {
            Phase::KeepAlive | Phase::Rest | Phase::Terminated => Some(Ok(())),
            Phase::Failed(error) => Some(Err(error)),
            _ => None,
        }
    }

    /// The first surface that waits for a buffer, where one does.
    pub open spec fn first_wanting(self) -> int {
        first_wanting(self.surfaces)
    }

    /// Whether a buffer is due: the client renders and a surface waits.
    pub open spec fn renders_now(self) -> bool {
        self.phase == Phase::Render && any_wants_buffer(self.surfaces)
    }

    /// Why no buffer can be made for the first surface that waits, if none
    /// can: the compositor advertises no format that the client writes, no
    /// serial is left, or the scaled image cannot be held.
    pub open spec fn render_error(self, scaler: &ImageScaler, formats: Seq<PixelFormat>) -> Option<
        NativeError,
    > {
        let output = self.surfaces[self.first_wanting()].output;
        if preferred_format(formats) is None {
            Some(NativeError::Buffer(BufferError::NoCommonFormat))
        } else if self.next_serial >= u64::MAX {
            Some(NativeError::Buffer(BufferError::Allocation))
        } else if !scaler.can_scale_to(output.width, output.height) {
            Some(NativeError::Buffer(BufferError::TooLarge))
        } else {
            None
        }
    }

    /// What the first surface that waits is to record of its buffer: the
    /// next serial, and the size that its output was configured with.
    pub open spec fn next_buffer(self) -> BufferRef {
        let output = self.surfaces[self.first_wanting()].output;
        BufferRef { serial: self.next_serial as u64, width: output.width, height: output.height }
    }

    /// Whether `buffer` is the one to attach next: it is made for the first
    /// surface that waits, at the size that its output was configured with,
    /// under the next serial, in the preferred advertised format, and holds
    /// the source scaled to that size.
    pub open spec fn renders(
        self,
        scaler: &ImageScaler,
        formats: Seq<PixelFormat>,
        buffer: SharedBuffer,
    ) -> bool {
        let output = self.surfaces[self.first_wanting()].output;
        &&& buffer.reference() == self.next_buffer()
        &&& buffer.spec_output() == output.id
        &&& preferred_format(formats) == Some(buffer.spec_format())
        &&& buffer.contents().len() == 4 * (output.width * output.height)
        &&& scaler.is_scaled(output.width, output.height, buffer.spec_format(), buffer.contents())
    }

    /// The state after the client was asked for the next buffer, and making
    /// it failed with `error` or went well. Outside the `Render` phase
    /// nothing changes; with no surface waiting the client goes on to the
    /// flush; a failure fails the client; else the buffer is attached to the
    /// first surface that waits.
    pub open spec fn prepared(self, error: Option<NativeError>) -> ClientState {
        if self.phase != Phase::Render {
            self
        } else if !any_wants_buffer(self.surfaces) {
            self.enter_render()
        } else if error is Some {
            self.fail(error->0)
        } else if self.next_serial >= u64::MAX {
            self.fail(NativeError::Buffer(BufferError::Allocation))
        } else {
            self.attach(self.first_wanting(), self.next_buffer())
        }
    }

    /// The state after `buffer` has been attached to the surface at `at`.
    pub open spec fn attach(self, at: int, buffer: BufferRef) -> ClientState {
        ClientState {
            surfaces: self.surfaces.update(at, self.surfaces[at].attached(buffer)),
            next_serial: self.next_serial + 1,
            ..self
        }
    }

    /// How much of the configure wait is left: it goes down with every
    /// dispatch that the wait asks for.
    pub open spec fn wait_budget(self) -> int {
        2 * (MAX_ATTEMPTS - self.attempts) + if self.phase == Phase::WaitBlock {
            1int
        } else {
            0int
        }
    }
}

/// Changing surfaces one by one keeps the list sound, where the change
/// keeps each surface well formed, bound to its output, and gives it no
/// buffer that it did not hold.
proof fn lemma_map_sound(surfaces: Seq<Surface>, next_serial: nat, change: spec_fn(Surface) -> Surface)
    requires
        surfaces_sound(surfaces, next_serial),
        forall|surface: Surface|
            surface.wf() ==> {
                &&& (#[trigger] change(surface)).wf()
                &&& change(surface).output.id == surface.output.id
                &&& forall|serial: u64| change(surface).holds(serial) ==> surface.holds(serial)
            },
    ensures
        surfaces_sound(surfaces.map_values(change), next_serial),
{
    let changed = surfaces.map_values(change);
    assert forall|i: int| 0 <= i < changed.len() implies (#[trigger] changed[i]).wf() by {
        assert(surfaces[i].wf());
    }
    assert forall|i: int, j: int|
        0 <= i < changed.len() && 0 <= j < changed.len() && i != j implies (#[trigger] changed[i]).output.id
        != (#[trigger] changed[j]).output.id by {
        assert(surfaces[i].wf() && surfaces[j].wf());
        assert(surfaces[i].output.id != surfaces[j].output.id);
    }
    assert forall|i: int, serial: u64|
        0 <= i < changed.len() && #[trigger] changed[i].holds(serial) implies serial
        < next_serial by {
        assert(surfaces[i].wf());
        assert(surfaces[i].holds(serial));
    }
    assert forall|i: int, j: int, serial: u64|
        0 <= i < changed.len() && 0 <= j < changed.len() && i != j && #[trigger] changed[i].holds(
            serial,
        ) implies !#[trigger] changed[j].holds(serial) by {
        assert(surfaces[i].wf() && surfaces[j].wf());
        assert(surfaces[i].holds(serial));
        assert(!surfaces[j].holds(serial));
    }
}

/// Dropping surfaces keeps the list sound, and what is kept was there.
proof fn lemma_filter_sound(surfaces: Seq<Surface>, next_serial: nat, keep: spec_fn(Surface) -> bool)
    requires
        surfaces_sound(surfaces, next_serial),
    ensures
        surfaces_sound(surfaces.filter(keep), next_serial),
        forall|k: int|
            0 <= k < surfaces.filter(keep).len() ==> surfaces.contains(
                #[trigger] surfaces.filter(keep)[k],
            ),
    decreases surfaces.len(),
{
    if surfaces.len() == 0 {
        surfaces.lemma_filter_len(keep);
    } else {
        let front = surfaces.drop_last();
        let last = surfaces.last();
        assert(surfaces =~= front.push(last));
        front.lemma_filter_push(last, keep);
        assert(surfaces_sound(front, next_serial)) by {
            assert forall|i: int| 0 <= i < front.len() implies front[i] == surfaces[i] by {}
        }
        lemma_filter_sound(front, next_serial, keep);
        let kept_front = front.filter(keep);
        let kept = surfaces.filter(keep);
        assert forall|k: int| 0 <= k < kept.len() implies surfaces.contains(#[trigger] kept[k]) by {
            if k < kept_front.len() {
                assert(front.contains(kept_front[k]));
                let j = choose|j: int| 0 <= j < front.len() && front[j] == kept_front[k];
                assert(surfaces[j] == kept[k]);
            } else {
                assert(kept[k] == last);
                assert(surfaces[surfaces.len() - 1] == last);
            }
        }
        if keep(last) {
            assert(kept == kept_front.push(last));
            let n = surfaces.len() - 1;
            assert forall|i: int| 0 <= i < kept.len() implies (#[trigger] kept[i]).wf() by {
                if i == kept_front.len() {
                    assert(surfaces[n].wf());
                }
            }
            assert forall|i: int, j: int|
                0 <= i < kept.len() && 0 <= j < kept.len() && i != j implies (#[trigger] kept[i]).output.id
                != (#[trigger] kept[j]).output.id by {
                if i == kept_front.len() {
                    assert(front.contains(kept_front[j]));
                    let m = choose|m: int| 0 <= m < front.len() && front[m] == kept_front[j];
                    assert(surfaces[m].output.id != surfaces[n].output.id);
                } else if j == kept_front.len() {
                    assert(front.contains(kept_front[i]));
                    let m = choose|m: int| 0 <= m < front.len() && front[m] == kept_front[i];
                    assert(surfaces[m].output.id != surfaces[n].output.id);
                } else {
                    assert(kept_front[i].output.id != kept_front[j].output.id);
                }
            }
            assert forall|i: int, serial: u64|
                0 <= i < kept.len() && #[trigger] kept[i].holds(serial) implies serial
                < next_serial by {
                if i == kept_front.len() {
                    assert(surfaces[n].holds(serial));
                } else {
                    assert(kept_front[i].holds(serial));
                }
            }
            assert forall|i: int, j: int, serial: u64|
                0 <= i < kept.len() && 0 <= j < kept.len() && i != j && #[trigger] kept[i].holds(
                    serial,
                ) implies !#[trigger] kept[j].holds(serial) by {
                if i == kept_front.len() {
                    assert(front.contains(kept_front[j]));
                    let m = choose|m: int| 0 <= m < front.len() && front[m] == kept_front[j];
                    assert(surfaces[n].holds(serial));
                    assert(!surfaces[m].holds(serial));
                } else if j == kept_front.len() {
                    assert(front.contains(kept_front[i]));
                    let m = choose|m: int| 0 <= m < front.len() && front[m] == kept_front[i];
                    assert(surfaces[m].holds(serial));
                    assert(!surfaces[n].holds(serial));
                } else {
                    assert(kept_front[i].holds(serial));
                    assert(!kept_front[j].holds(serial));
                }
            }
        }
    }
}

/// Attaching a fresh buffer of the right size to a surface that waits for
/// one keeps the state well formed.
proof fn lemma_attach_wf(state: ClientState, at: int, buffer: BufferRef)
    requires
        state.wf(),
        state.phase == Phase::Render,
        0 <= at < state.surfaces.len(),
        state.surfaces[at].wants_buffer(),
        state.surfaces[at].fits(buffer),
        buffer.serial == state.next_serial,
    ensures
        state.attach(at, buffer).wf(),
{
    let after = state.attach(at, buffer);
    assert forall|i: int| 0 <= i < after.surfaces.len() implies (#[trigger] after.surfaces[i]).wf() by {
        assert(state.surfaces[i].wf());
    }
    assert forall|i: int, j: int|
        0 <= i < after.surfaces.len() && 0 <= j < after.surfaces.len() && i != j implies (
    #[trigger] after.surfaces[i]).output.id != (#[trigger] after.surfaces[j]).output.id by {
        assert(state.surfaces[i].output.id != state.surfaces[j].output.id);
    }
    assert forall|i: int, serial: u64|
        0 <= i < after.surfaces.len() && #[trigger] after.surfaces[i].holds(serial) implies serial
        < after.next_serial by {
        if !state.surfaces[i].holds(serial) {
            assert(i == at && serial == buffer.serial);
        }
    }
    assert forall|i: int, j: int, serial: u64|
        0 <= i < after.surfaces.len() && 0 <= j < after.surfaces.len() && i != j
            && #[trigger] after.surfaces[i].holds(serial) implies !#[trigger] after.surfaces[j].holds(
        serial,
    ) by {
        if i == at {
            if state.surfaces[i].holds(serial) {
                assert(!state.surfaces[j].holds(serial));
            } else {
                assert(serial == buffer.serial);
                if state.surfaces[j].holds(serial) {
                    assert(serial < state.next_serial);
                }
            }
        } else if j == at {
            assert(state.surfaces[i].holds(serial));
            assert(!state.surfaces[j].holds(serial));
            assert(serial < state.next_serial);
        } else {
            assert(state.surfaces[i].holds(serial));
            assert(!state.surfaces[j].holds(serial));
        }
    }
}

/// Giving up keeps the list of surfaces sound.
proof fn lemma_fail_wf(state: ClientState, error: NativeError)
    requires
        surfaces_sound(state.surfaces, state.next_serial),
        state.attempts <= MAX_ATTEMPTS,
    ensures
        state.fail(error).wf(),
        state.surfaces.len() == 0 ==> state.fail(error).surfaces.len() == 0,
{
    let change = |surface: Surface| surface.failed();
    lemma_map_sound(state.surfaces, state.next_serial, change);
}

/// Every event leaves a well-formed state well formed.
pub proof fn lemma_next_wf(state: ClientState, event: Event)
    requires
        state.wf(),
    ensures
        state.next(event).wf(),
{
    let after = state.next(event);
    match event {
        Event::Connected => {},
        Event::ConnectFailed => {
            lemma_fail_wf(state, NativeError::Connection(ConnectionStage::Connect));
        },
        Event::Discovered(globals) => {
            if let Some(missing) = globals.first_missing() {
                lemma_fail_wf(state, NativeError::ProtocolNegotiation(missing));
            }
        },
        Event::DiscoveryFailed => {
            lemma_fail_wf(state, NativeError::Connection(ConnectionStage::Discovery));
        },
        Event::DispatchDone => {
            let reset = ClientState { attempts: 0, ..state };
            let polled = ClientState { attempts: state.attempts + 1, ..state };
            if state.phase == Phase::Enumerate {
                lemma_fail_wf(reset, NativeError::ConfigureTimeout);
            } else if state.phase == Phase::WaitPoll {
                lemma_fail_wf(polled, NativeError::ConfigureTimeout);
            } else if state.phase == Phase::WaitBlock {
                lemma_fail_wf(state, NativeError::ConfigureTimeout);
            }
        },
        Event::DispatchFailed => {
            lemma_fail_wf(state, NativeError::Connection(ConnectionStage::Enumerate));
            lemma_fail_wf(state, NativeError::Connection(ConnectionStage::ConfigureWait));
        },
        Event::Rested => {},
        Event::OutputAdded { output } => {
            if state.live() && !has_output(state.surfaces, output) {
                let added = Surface::created(output);
                assert forall|i: int, j: int|
                    0 <= i < after.surfaces.len() && 0 <= j < after.surfaces.len() && i
                        != j implies (#[trigger] after.surfaces[i]).output.id
                    != (#[trigger] after.surfaces[j]).output.id by {
                    if i < state.surfaces.len() && j < state.surfaces.len() {
                        assert(state.surfaces[i].output.id != state.surfaces[j].output.id);
                    } else if i < state.surfaces.len() {
                        assert(state.surfaces[i].output.id != output);
                    } else {
                        assert(state.surfaces[j].output.id != output);
                    }
                }
                assert forall|i: int, serial: u64|
                    0 <= i < after.surfaces.len() && #[trigger] after.surfaces[i].holds(
                        serial,
                    ) implies serial < after.next_serial by {
                    if i < state.surfaces.len() {
                        assert(state.surfaces[i].holds(serial));
                    }
                }
                assert forall|i: int, j: int, serial: u64|
                    0 <= i < after.surfaces.len() && 0 <= j < after.surfaces.len() && i != j
                        && #[trigger] after.surfaces[i].holds(
                        serial,
                    ) implies !#[trigger] after.surfaces[j].holds(serial) by {
                    if i < state.surfaces.len() && j < state.surfaces.len() {
                        assert(state.surfaces[i].holds(serial));
                        assert(!state.surfaces[j].holds(serial));
                    }
                }
                assert forall|i: int| 0 <= i < after.surfaces.len() implies (
                #[trigger] after.surfaces[i]).wf() by {
                    if i < state.surfaces.len() {
                        assert(state.surfaces[i].wf());
                    }
                }
            }
        },
        Event::SurfaceCommitted { output } => {
            let change = |surface: Surface|
                if surface.output.id == output {
                    surface.bare_committed()
                } else {
                    surface
                };
            lemma_map_sound(state.surfaces, state.next_serial, change);
        },
        Event::OutputRemoved { output } => {
            let keep = |surface: Surface| surface.output.id != output;
            lemma_filter_sound(state.surfaces, state.next_serial, keep);
        },
        Event::Configure { output, width, height } => {
            let change = |surface: Surface|
                if surface.output.id == output {
                    surface.configured(width, height)
                } else {
                    surface
                };
            lemma_map_sound(state.surfaces, state.next_serial, change);
        },
        Event::Closed { output } => {
            let keep = |surface: Surface| surface.output.id != output;
            lemma_filter_sound(state.surfaces, state.next_serial, keep);
        },
        Event::BufferCommitted { output } => {
            let change = |surface: Surface|
                if surface.output.id == output {
                    surface.buffer_committed()
                } else {
                    surface
                };
            lemma_map_sound(state.surfaces, state.next_serial, change);
        },
        Event::BufferRejected { output } => {
            lemma_fail_wf(state, NativeError::Buffer(BufferError::Allocation));
        },
    }
}

/// At most one surface is the first that waits for a buffer.
pub proof fn lemma_first_wanting_unique(surfaces: Seq<Surface>, at: int)
    requires
        is_first_wanting(surfaces, at),
    ensures
        any_wants_buffer(surfaces),
        first_wanting(surfaces) == at,
{
    let chosen = first_wanting(surfaces);
    assert(is_first_wanting(surfaces, chosen));
    if chosen < at {
        assert(!surfaces[chosen].wants_buffer());
    } else if at < chosen {
        assert(!surfaces[at].wants_buffer());
    }
}

/// Where a surface waits for a buffer, one of them is the first.
pub proof fn lemma_first_wanting_exists(surfaces: Seq<Surface>)
    requires
        any_wants_buffer(surfaces),
    ensures
        exists|at: int| is_first_wanting(surfaces, at),
    decreases surfaces.len(),
{
    let some = choose|i: int| 0 <= i < surfaces.len() && (#[trigger] surfaces[i]).wants_buffer();
    let front = surfaces.take(some);
    if any_wants_buffer(front) {
        lemma_first_wanting_exists(front);
        let at = choose|at: int| is_first_wanting(front, at);
        assert(front[at] == surfaces[at]);
        assert forall|i: int| 0 <= i < at implies !(#[trigger] surfaces[i]).wants_buffer() by {
            assert(front[i] == surfaces[i]);
        }
        assert(is_first_wanting(surfaces, at));
    } else {
        assert forall|i: int| 0 <= i < some implies !(#[trigger] surfaces[i]).wants_buffer() by {
            assert(front[i] == surfaces[i]);
        }
        assert(is_first_wanting(surfaces, some));
    }
}

/// Asking for the next buffer leaves a well-formed state well formed, and
/// a buffer goes only to a surface that is configured.
pub proof fn lemma_prepared_wf(state: ClientState, error: Option<NativeError>)
    requires
        state.wf(),
    ensures
        state.prepared(error).wf(),
        state.renders_now() ==> is_first_wanting(state.surfaces, state.first_wanting())
            && state.surfaces[state.first_wanting()].output.configured,
{
    if state.renders_now() {
        lemma_first_wanting_exists(state.surfaces);
        let at = state.first_wanting();
        assert(is_first_wanting(state.surfaces, at));
        if let Some(reason) = error {
            lemma_fail_wf(state, reason);
        } else if state.next_serial >= u64::MAX {
            lemma_fail_wf(state, NativeError::Buffer(BufferError::Allocation));
        } else {
            lemma_attach_wf(state, at, state.next_buffer());
        }
    }
}

/// One step in the life of a client: an event that it takes in, or a request
/// for the next buffer, which cannot be made for the given reason or can.
pub enum Step {
    /// An event is dispatched.
    Event(Event),
    /// The next buffer is asked for.
    Prepare(Option<NativeError>),
}

impl ClientState {
    /// The state after one step.
    pub open spec fn step(self, step: Step) -> ClientState {
        match step {
            Step::Event(event) => self.next(event),
            Step::Prepare(error) => self.prepared(error),
        }
    }

    /// The state of a new client after `steps`.
    pub open spec fn run(steps: Seq<Step>) -> ClientState
        decreases steps.len(),
    {
        if steps.len() == 0 {
            ClientState::initial()
        } else {
            ClientState::run(steps.drop_last()).step(steps.last())
        }
    }
}

/// Whatever happens to a client, its state stays well formed.
pub proof fn lemma_run_wf(steps: Seq<Step>)
    ensures
        ClientState::run(steps).wf(),
    decreases steps.len(),
{
    if steps.len() > 0 {
        let before = ClientState::run(steps.drop_last());
        lemma_run_wf(steps.drop_last());
        match steps.last() {
            Step::Event(event) => lemma_next_wf(before, event),
            Step::Prepare(error) => lemma_prepared_wf(before, error),
        }
    }
}

/// No surface ever holds a buffer, attached or committed, while its
/// `configured` flag is false; and no buffer is ever held by two surfaces.
pub proof fn lemma_buffers_only_on_configured(steps: Seq<Step>, at: int)
    requires
        0 <= at < ClientState::run(steps).surfaces.len(),
    ensures
        ({
            let surface = ClientState::run(steps).surfaces[at];
            &&& surface.pending is Some || surface.committed is Some ==> surface.output.configured
            &&& surface.state == SurfaceState::BufferAttached || surface.state
                == SurfaceState::Committed ==> surface.output.configured
            &&& forall|other: int, serial: u64|
                0 <= other < ClientState::run(steps).surfaces.len() && other != at
                    && surface.holds(serial) ==> !(#[trigger] ClientState::run(
                    steps,
                ).surfaces[other].holds(serial))
        }),
{
    lemma_run_wf(steps);
    let state = ClientState::run(steps);
    assert(state.surfaces[at].wf());
    assert forall|other: int, serial: u64|
        0 <= other < state.surfaces.len() && other != at && state.surfaces[at].holds(
            serial,
        ) implies !(#[trigger] state.surfaces[other].holds(serial)) by {}
}

/// The configure wait is bounded: while the client waits, no event adds to
/// what is left of the wait, every dispatch that returns takes from it, and
/// something is left as long as the wait goes on. So the wait asks for at
/// most `MAX_ATTEMPTS` polls and fewer blocking dispatches.
pub proof fn lemma_wait_is_bounded(state: ClientState, event: Event)
    requires
        state.wf(),
        state.phase == Phase::WaitPoll || state.phase == Phase::WaitBlock,
    ensures
        0 < state.wait_budget() <= 2 * MAX_ATTEMPTS,
        state.next(event).phase == Phase::WaitPoll || state.next(event).phase == Phase::WaitBlock
            ==> state.next(event).wait_budget() <= state.wait_budget(),
        event == Event::DispatchDone && (state.next(event).phase == Phase::WaitPoll || state.next(
            event,
        ).phase == Phase::WaitBlock) ==> state.next(event).wait_budget() < state.wait_budget(),
        state.next(event).attempts <= MAX_ATTEMPTS,
{
}

/// The wait ends in `ConfigureTimeout` only when no surface is configured,
/// and leaves for rendering only when one is.
pub proof fn lemma_wait_outcome(state: ClientState)
    requires
        state.wf(),
        state.phase == Phase::WaitPoll || state.phase == Phase::WaitBlock,
    ensures
        ({
            let after = state.next(Event::DispatchDone);
            &&& after.phase is Failed ==> after.phase == Phase::Failed(
                NativeError::ConfigureTimeout,
            ) && none_configured(state.surfaces)
            &&& after.phase == Phase::Render || after.phase == Phase::Flush ==> !none_configured(
                state.surfaces,
            )
            &&& after.phase == Phase::WaitPoll || after.phase == Phase::WaitBlock || after.phase
                == Phase::Render || after.phase == Phase::Flush || after.phase is Failed
        }),
{
}

/// A change of geometry while the wallpaper is up is rendered anew: once
/// the dispatch that brought the configure event returns, the client asks
/// for a buffer again, and the surface waits for one of the new size.
pub proof fn lemma_geometry_change_rerenders(
    state: ClientState,
    at: int,
    width: u32,
    height: u32,
)
    requires
        state.wf(),
        state.phase == Phase::KeepAlive,
        0 <= at < state.surfaces.len(),
        state.surfaces[at].state == SurfaceState::Committed,
        width != state.surfaces[at].output.width || height != state.surfaces[at].output.height,
        width > 0,
        height > 0,
    ensures
        ({
            let output = state.surfaces[at].output.id;
            let configured = state.next(Event::Configure { output, width, height });
            &&& configured.surfaces.len() == state.surfaces.len()
            &&& configured.surfaces[at].wants_buffer()
            &&& configured.surfaces[at].output.width == width
            &&& configured.surfaces[at].output.height == height
            &&& configured.surfaces[at].pending is None
            &&& configured.next(Event::DispatchDone).phase == Phase::Render
        }),
{
    let output = state.surfaces[at].output.id;
    let configured = state.next(Event::Configure { output, width, height });
    assert(state.surfaces[at].wf());
    assert(configured.surfaces[at] == state.surfaces[at].configured(width, height));
    assert(configured.surfaces[at].wants_buffer());
}

} // verus!
