//! The executable native client: the protocol state machine of
//! [`crate::native`], held in plain memory.

use vstd::prelude::*;
use crate::buffer::{negotiate_format, SharedBuffer};
use crate::errors::{BufferError, ConnectionStage, NativeError};
use crate::native::{
    all_configured, any_wants_buffer, has_output, is_first_wanting, lemma_first_wanting_unique,
    lemma_next_wf, lemma_prepared_wf, none_configured, Action, ClientState, Event,
    LayerSurfaceRequest, Phase, KEEP_ALIVE_INTERVAL_MS, MAX_ATTEMPTS,
};
use crate::scaler::{ImageScaler, PixelFormat};
use crate::surface::Surface;

verus! {

/// A change to the surface of one output.
#[derive(Clone, Copy)]
enum Change {
    BareCommit,
    Configure { width: u32, height: u32 },
    BufferCommit,
}

impl Change {
    spec fn applied(self, surface: Surface) -> Surface {
        match self {
            Change::BareCommit => surface.bare_committed(),
            Change::Configure { width, height } => surface.configured(width, height),
            Change::BufferCommit => surface.buffer_committed(),
        }
    }
}

/// The native compositor client.
pub struct NativeCompositorClient {
    phase: Phase,
    surfaces: Vec<Surface>,
    attempts: u32,
    closed: bool,
    next_serial: u64,
}

impl View for NativeCompositorClient {
    type V = ClientState;

    closed spec fn view(&self) -> ClientState {
        ClientState {
            phase: self.phase,
            surfaces: self.surfaces@,
            attempts: self.attempts as nat,
            closed: self.closed,
            next_serial: self.next_serial as nat,
        }
    }
}

impl NativeCompositorClient {
    /// The state of the client is well formed.
    pub closed spec fn wf(&self) -> bool {
        self@.wf()
    }

    /// A client is well formed exactly when its state, as contracts see it,
    /// is.
    pub proof fn lemma_wf(&self)
        ensures
            self.wf() == self@.wf(),
    {
    }

    /// A client that has yet to connect.
    pub fn new() -> (client: NativeCompositorClient)
        ensures
            client.wf(),
            client@ == ClientState::initial(),
    {
        NativeCompositorClient {
            phase: Phase::Connect,
            surfaces: Vec::new(),
            attempts: 0,
            closed: false,
            next_serial: 0,
        }
    }

    /// What the client is about to do.
    pub fn phase(&self) -> (phase: Phase)
        ensures
            phase == self@.phase,
    {
        self.phase
    }

    /// The polls spent on waiting for a configure event.
    pub fn attempts(&self) -> (attempts: u32)
        ensures
            attempts == self@.attempts,
    {
        self.attempts
    }

    /// Whether the compositor has closed the last surface.
    pub fn is_closed(&self) -> (closed: bool)
        ensures
            closed == self@.closed,
    {
        self.closed
    }

    /// The surfaces, one for each known output, in order of announcement.
    pub fn surfaces(&self) -> (surfaces: &Vec<Surface>)
        ensures
            surfaces@ == self@.surfaces,
    {
        &self.surfaces
    }

    /// What is to be done next.
    pub fn next_action(&self) -> (action: Action)
        ensures
            action == self@.action(),
    {
        match self.phase {
            Phase::Connect => Action::Connect,
            Phase::Discover => Action::Discover,
            Phase::Enumerate | Phase::Flush => Action::Roundtrip,
            Phase::WaitPoll | Phase::KeepAlive => Action::Poll,
            Phase::WaitBlock => Action::Block,
            Phase::Render => Action::Render,
            Phase::Rest => Action::Rest { millis: KEEP_ALIVE_INTERVAL_MS },
            Phase::Failed(error) => Action::Abandon(error),
            Phase::Terminated => Action::Terminate,
        }
    }

    /// How the native attempt has ended, if it has: `Ok` once the commits
    /// are flushed and the wallpaper is up, the error once the client has
    /// failed.
    pub fn outcome(&self) -> (outcome: Option<Result<(), NativeError>>)
        ensures
            outcome == self@.outcome(),
    {
        match self.phase {
            Phase::KeepAlive | Phase::Rest | Phase::Terminated => Some(Ok(())),
            Phase::Failed(error) => Some(Err(error)),
            _ => None,
        }
    }

    fn every_configured(&self) -> (every: bool)
        ensures
            every == all_configured(self@.surfaces),
    {
        let mut at: usize = 0;
        while at < self.surfaces.len()
            invariant
                at <= self.surfaces.len(),
                forall|i: int| 0 <= i < at ==> (#[trigger] self.surfaces[i]).output.configured,
            decreases self.surfaces.len() - at,
        {
            if !self.surfaces[at].output.configured {
                return false;
            }
            at = at + 1;
        }
        true
    }

    fn no_configured(&self) -> (no: bool)
        ensures
            no == none_configured(self@.surfaces),
    {
        let mut at: usize = 0;
        while at < self.surfaces.len()
            invariant
                at <= self.surfaces.len(),
                forall|i: int| 0 <= i < at ==> !(#[trigger] self.surfaces[i]).output.configured,
            decreases self.surfaces.len() - at,
        {
            if self.surfaces[at].output.configured {
                return false;
            }
            at = at + 1;
        }
        true
    }

    fn knows_output(&self, output: u32) -> (known: bool)
        ensures
            known == has_output(self@.surfaces, output),
    {
        let mut at: usize = 0;
        while at < self.surfaces.len()
            invariant
                at <= self.surfaces.len(),
                forall|i: int| 0 <= i < at ==> (#[trigger] self.surfaces[i]).output.id != output,
            decreases self.surfaces.len() - at,
        {
            if self.surfaces[at].output.id == output {
                return true;
            }
            at = at + 1;
        }
        false
    }

    /// The first surface that waits for a buffer.
    fn first_wanting(&self) -> (found: Option<usize>)
        ensures
            found is Some <==> any_wants_buffer(self@.surfaces),
            found matches Some(at) ==> is_first_wanting(self@.surfaces, at as int),
    {
        let mut at: usize = 0;
        while at < self.surfaces.len()
            invariant
                at <= self.surfaces.len(),
                forall|i: int| 0 <= i < at ==> !(#[trigger] self.surfaces[i]).wants_buffer(),
            decreases self.surfaces.len() - at,
        {
            if self.surfaces[at].needs_buffer() {
                return Some(at);
            }
            at = at + 1;
        }
        None
    }

    fn is_live(&self) -> (live: bool)
        ensures
            live == self@.live(),
    {
        match self.phase {
            Phase::Connect | Phase::Discover | Phase::Failed(_) | Phase::Terminated => false,
            _ => true,
        }
    }

    fn give_up(&mut self, error: NativeError)
        requires
            forall|i: int| 0 <= i < old(self)@.surfaces.len() ==> (#[trigger] old(self)@.surfaces[i]).wf(),
        ensures
            final(self)@ == old(self)@.fail(error),
    {
        let mut at: usize = 0;
        while at < self.surfaces.len()
            invariant
                at <= self.surfaces.len(),
                self.surfaces.len() == old(self).surfaces.len(),
                self.phase == old(self).phase,
                self.attempts == old(self).attempts,
                self.closed == old(self).closed,
                self.next_serial == old(self).next_serial,
                forall|i: int|
                    0 <= i < old(self).surfaces.len() ==> (#[trigger] old(self).surfaces[i]).wf(),
                forall|i: int| 0 <= i < at ==> self.surfaces[i] == old(self).surfaces[i].failed(),
                forall|i: int| at <= i < self.surfaces.len() ==> self.surfaces[i] == old(self).surfaces[i],
            decreases self.surfaces.len() - at,
        {
            let mut surface = self.surfaces[at];
            assert(old(self).surfaces[at as int].wf());
            surface.fail();
            self.surfaces.set(at, surface);
            at = at + 1;
        }
        self.phase = Phase::Failed(error);
        assert(self@.surfaces =~= old(self)@.fail(error).surfaces);
    }

    fn change_output(&mut self, output: u32, change: Change)
        requires
            old(self)@.wf(),
        ensures
            final(self)@ == (ClientState {
                surfaces: old(self)@.surfaces.map_values(
                    |surface: Surface|
                        if surface.output.id == output {
                            change.applied(surface)
                        } else {
                            surface
                        },
                ),
                ..old(self)@
            }),
    {
        let ghost changed = old(self)@.surfaces.map_values(
            |surface: Surface|
                if surface.output.id == output {
                    change.applied(surface)
                } else {
                    surface
                },
        );
        let mut at: usize = 0;
        while at < self.surfaces.len()
            invariant
                at <= self.surfaces.len(),
                self.surfaces.len() == old(self).surfaces.len(),
                self.phase == old(self).phase,
                self.attempts == old(self).attempts,
                self.closed == old(self).closed,
                self.next_serial == old(self).next_serial,
                changed.len() == self.surfaces.len(),
                forall|i: int| 0 <= i < changed.len() ==> changed[i] == if old(self).surfaces[i].output.id == output {
                    change.applied(old(self).surfaces[i])
                } else {
                    old(self).surfaces[i]
                },
                forall|i: int| 0 <= i < old(self).surfaces.len() ==> (#[trigger] old(self).surfaces[i]).wf(),
                forall|i: int| 0 <= i < at ==> self.surfaces[i] == changed[i],
                forall|i: int| at <= i < self.surfaces.len() ==> self.surfaces[i] == old(self).surfaces[i],
            decreases self.surfaces.len() - at,
        {
            if self.surfaces[at].output.id == output {
                let mut surface = self.surfaces[at];
                assert(surface.wf());
                match change {
                    Change::BareCommit => surface.commit_bare(),
                    Change::Configure { width, height } => surface.configure(width, height),
                    Change::BufferCommit => surface.commit_buffer(),
                }
                self.surfaces.set(at, surface);
            }
            at = at + 1;
        }
        assert(self@.surfaces =~= changed);
    }

    fn drop_output(&mut self, output: u32)
        ensures
            final(self)@ == (ClientState {
                surfaces: old(self)@.surfaces.filter(|surface: Surface| surface.output.id != output),
                ..old(self)@
            }),
    {
        let ghost keep = |surface: Surface| surface.output.id != output;
        let mut kept: Vec<Surface> = Vec::new();
        let mut at: usize = 0;
        proof {
            assert(self.surfaces@.take(0) =~= Seq::<Surface>::empty());
            Seq::<Surface>::empty().lemma_filter_len(keep);
        }
        while at < self.surfaces.len()
            invariant
                at <= self.surfaces.len(),
                *self == *old(self),
                keep == |surface: Surface| surface.output.id != output,
                kept@ == self.surfaces@.take(at as int).filter(keep),
            decreases self.surfaces.len() - at,
        {
            proof {
                self.surfaces@.lemma_take_succ_push(at as int);
                self.surfaces@.take(at as int).lemma_filter_push(self.surfaces@[at as int], keep);
            }
            if self.surfaces[at].output.id != output {
                kept.push(self.surfaces[at]);
            }
            at = at + 1;
        }
        proof {
            self.surfaces@.lemma_take_len();
        }
        self.surfaces = kept;
    }

    /// Goes to rendering while a surface waits for a buffer, else to the
    /// flush.
    fn begin_render(&mut self)
        ensures
            final(self)@ == old(self)@.enter_render(),
    {
        if self.first_wanting().is_some() {
            self.phase = Phase::Render;
        } else {
            self.phase = Phase::Flush;
        }
    }

    /// The head of the configure wait.
    fn begin_wait(&mut self)
        requires
            forall|i: int| 0 <= i < old(self)@.surfaces.len() ==> (#[trigger] old(self)@.surfaces[i]).wf(),
        ensures
            final(self)@ == old(self)@.enter_wait(),
    {
        if !self.every_configured() && !self.closed && self.attempts < MAX_ATTEMPTS {
            self.phase = Phase::WaitPoll;
        } else if self.no_configured() {
            self.give_up(NativeError::ConfigureTimeout);
        } else {
            self.begin_render();
        }
    }

    /// Takes one event in, and answers with the layer surface to request
    /// where the event announces a new output.
    pub fn dispatch(&mut self, event: Event) -> (request: Option<LayerSurfaceRequest>)
        requires
            old(self).wf(),
        ensures
            final(self).wf(),
            final(self)@ == old(self)@.next(event),
            request == old(self)@.request_for(event),
    {
        proof {
            lemma_next_wf(self@, event);
        }
        let mut request: Option<LayerSurfaceRequest> = None;
        match event {
            Event::Connected => {
                if self.phase == Phase::Connect {
                    self.phase = Phase::Discover;
                }
            },
            Event::ConnectFailed => {
                if self.phase == Phase::Connect {
                    self.give_up(NativeError::Connection(ConnectionStage::Connect));
                }
            },
            Event::Discovered(globals) => {
                if self.phase == Phase::Discover {
                    match globals.negotiate() {
                        Ok(()) => {
                            self.phase = Phase::Enumerate;
                        },
                        Err(error) => {
                            self.give_up(error);
                        },
                    }
                }
            },
            Event::DiscoveryFailed => {
                if self.phase == Phase::Discover {
                    self.give_up(NativeError::Connection(ConnectionStage::Discovery));
                }
            },
            Event::DispatchDone => {
                match self.phase {
                    Phase::Enumerate => {
                        self.attempts = 0;
                        self.begin_wait();
                    },
                    Phase::WaitPoll => {
                        self.attempts = self.attempts + 1;
                        if self.no_configured() && self.attempts < MAX_ATTEMPTS {
                            self.phase = Phase::WaitBlock;
                        } else {
                            self.begin_wait();
                        }
                    },
                    Phase::WaitBlock => {
                        self.begin_wait();
                    },
                    Phase::Flush => {
                        self.phase = Phase::KeepAlive;
                    },
                    Phase::KeepAlive => {
                        if self.first_wanting().is_some() {
                            self.phase = Phase::Render;
                        } else {
                            self.phase = Phase::Rest;
                        }
                    },
                    _ => {},
                }
            },
            Event::DispatchFailed => {
                match self.phase {
                    Phase::Enumerate => {
                        self.give_up(NativeError::Connection(ConnectionStage::Enumerate));
                    },
                    Phase::WaitPoll | Phase::WaitBlock => {
                        self.give_up(NativeError::Connection(ConnectionStage::ConfigureWait));
                    },
                    Phase::Flush | Phase::KeepAlive => {
                        self.phase = Phase::Terminated;
                    },
                    _ => {},
                }
            },
            Event::Rested => {
                if self.phase == Phase::Rest {
                    self.phase = Phase::KeepAlive;
                }
            },
            Event::OutputAdded { output } => {
                if self.is_live() && !self.knows_output(output) {
                    self.surfaces.push(Surface::new(output));
                    request = Some(LayerSurfaceRequest::for_output(output));
                }
            },
            Event::SurfaceCommitted { output } => {
                if self.is_live() {
                    self.change_output(output, Change::BareCommit);
                    assert(self@.surfaces =~= old(self)@.next(event).surfaces);
                }
            },
            Event::OutputRemoved { output } => {
                if self.is_live() {
                    self.drop_output(output);
                }
            },
            Event::Configure { output, width, height } => {
                if self.is_live() {
                    self.change_output(output, Change::Configure { width, height });
                    assert(self@.surfaces =~= old(self)@.next(event).surfaces);
                }
            },
            Event::Closed { output } => {
                if self.is_live() {
                    self.drop_output(output);
                    if self.surfaces.len() == 0 {
                        self.closed = true;
                    }
                }
            },
            Event::BufferCommitted { output } => {
                if self.phase == Phase::Render {
                    self.change_output(output, Change::BufferCommit);
                    proof {
                        let changed = ClientState {
                            surfaces: old(self)@.surfaces.map_values(
                                |surface: Surface|
                                    if surface.output.id == output {
                                        surface.buffer_committed()
                                    } else {
                                        surface
                                    },
                            ),
                            ..old(self)@
                        };
                        assert(self@.surfaces =~= changed.surfaces);
                    }
                    self.begin_render();
                }
            },
            Event::BufferRejected { output } => {
                if self.phase == Phase::Render {
                    self.give_up(NativeError::Buffer(BufferError::Allocation));
                }
            },
        }
        request
    }

    /// Makes the buffer for the first surface that waits for one: the source
    /// scaled to the size that the output was configured with, in the first
    /// format of the client's preference that the compositor advertises, and
    /// records it as attached to that surface. Answers `Ok(None)`, and goes
    /// on to the flush, when no surface waits; changes nothing outside the
    /// `Render` phase. A buffer that cannot be made fails the client.
    pub fn prepare_buffer(&mut self, scaler: &ImageScaler, formats: &Vec<PixelFormat>) -> (prepared:
        Result<Option<SharedBuffer>, NativeError>)
        requires
            old(self).wf(),
        ensures
            final(self).wf(),
            final(self)@ == old(self)@.prepared(old(self)@.render_error(scaler, formats@)),
            match prepared {
                Ok(None) => !old(self)@.renders_now(),
                Ok(Some(buffer)) => {
                    &&& old(self)@.renders_now()
                    &&& old(self)@.render_error(scaler, formats@) is None
                    &&& buffer.wf()
                    &&& old(self)@.renders(scaler, formats@, buffer)
                },
                Err(error) => {
                    &&& old(self)@.renders_now()
                    &&& old(self)@.render_error(scaler, formats@) == Some(error)
                },
            },
    {
        proof {
            lemma_prepared_wf(self@, self@.render_error(scaler, formats@));
        }
        if self.phase != Phase::Render {
            return Ok(None);
        }
        let at = match self.first_wanting() {
            Some(at) => at,
            None => {
                self.phase = Phase::Flush;
                return Ok(None);
            },
        };
        let output = self.surfaces[at].output;
        proof {
            lemma_first_wanting_unique(self@.surfaces, at as int);
        }
        let format = match negotiate_format(formats) {
            Some(format) => format,
            None => {
                let error = NativeError::Buffer(BufferError::NoCommonFormat);
                self.give_up(error);
                return Err(error);
            },
        };
        if self.next_serial == u64::MAX {
            let error = NativeError::Buffer(BufferError::Allocation);
            self.give_up(error);
            return Err(error);
        }
        match SharedBuffer::render(
            self.next_serial,
            output.id,
            scaler,
            output.width,
            output.height,
            format,
        ) {
            Ok(buffer) => {
                let reference = buffer.to_ref();
                let mut surface = self.surfaces[at];
                assert(surface.wf());
                surface.attach(reference);
                self.surfaces.set(at, surface);
                self.next_serial = self.next_serial + 1;
                assert(self@.surfaces =~= old(self)@.attach(at as int, reference).surfaces);
                Ok(Some(buffer))
            },
            Err(_) => {
                let error = NativeError::Buffer(BufferError::TooLarge);
                self.give_up(error);
                Err(error)
            },
        }
    }
}

} // verus!
