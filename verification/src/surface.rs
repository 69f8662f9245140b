//! Outputs and the background surfaces bound to them.

use vstd::prelude::*;

verus! {

/// The protocol state of one background surface.
#[derive(Clone, Copy, Debug, PartialEq, Eq, Structural)]
pub enum SurfaceState {
    /// The layer surface has been requested.
    Created,
    /// The bare surface has been committed; the compositor has yet to answer.
    AwaitingConfigure,
    /// The compositor has stated the size to render at.
    Configured,
    /// A buffer of that size is attached and waits for its commit.
    BufferAttached,
    /// The attached buffer has been committed.
    Committed,
    /// The surface was given up after a protocol error or a timeout.
    Failed,
}

/// One physical display known to the compositor.
#[derive(Clone, Copy, Debug, PartialEq, Eq, Structural)]
pub struct Output {
    /// The compositor's name for the display.
    pub id: u32,
    /// Width in pixels, zero until negotiated.
    pub width: u32,
    /// Height in pixels, zero until negotiated.
    pub height: u32,
    /// Whether the compositor has configured the surface of this output.
    pub configured: bool,
}

/// What a surface remembers of a shared buffer: its serial and its geometry.
#[derive(Clone, Copy, Debug, PartialEq, Eq, Structural)]
pub struct BufferRef {
    /// The serial under which the client made the buffer.
    pub serial: u64,
    /// Width of the buffer in pixels.
    pub width: u32,
    /// Height of the buffer in pixels.
    pub height: u32,
}

/// The rendering target bound to one output.
#[derive(Clone, Copy, Debug, PartialEq, Eq)]
pub struct Surface {
    /// The output that the surface covers.
    pub output: Output,
    /// Where the surface stands in the protocol.
    pub state: SurfaceState,
    /// The buffer that is attached and not yet committed.
    pub pending: Option<BufferRef>,
    /// The buffer that was committed last.
    pub committed: Option<BufferRef>,
}

impl Surface {
    /// A surface holds a pending buffer exactly while one is attached, holds
    /// buffers only once configured, and only buffers of its output's size
    /// while they are current.
    pub open spec fn wf(self) -> bool {
        &&& self.pending is Some <==> self.state == SurfaceState::BufferAttached
        &&& self.state == SurfaceState::Created || self.state == SurfaceState::AwaitingConfigure
            ==> !self.output.configured && self.committed is None && self.output.width == 0
            && self.output.height == 0
        &&& self.state == SurfaceState::Configured || self.state == SurfaceState::BufferAttached
            || self.state == SurfaceState::Committed ==> self.output.configured
        &&& self.committed is Some ==> self.output.configured
        &&& self.pending matches Some(buffer) ==> self.fits(buffer)
        &&& self.state == SurfaceState::Committed ==> (self.committed matches Some(buffer)
            && self.fits(buffer))
    }

    /// Whether `buffer` has the size that the output was configured with, and
    /// that size is not empty.
    pub open spec fn fits(self, buffer: BufferRef) -> bool {
        &&& buffer.width == self.output.width
        &&& buffer.height == self.output.height
        &&& self.output.width > 0
        &&& self.output.height > 0
    }

    /// Whether the surface is configured with a non-empty size and has no
    /// buffer of that size yet.
    pub open spec fn wants_buffer(self) -> bool {
        &&& self.state == SurfaceState::Configured
        &&& self.output.configured
        &&& self.output.width > 0
        &&& self.output.height > 0
    }

    /// Whether the surface refers to the buffer with this serial.
    pub open spec fn holds(self, serial: u64) -> bool {
        ||| self.pending matches Some(buffer) && buffer.serial == serial
        ||| self.committed matches Some(buffer) && buffer.serial == serial
    }

    /// The surface of a newly announced output.
    pub open spec fn created(output: u32) -> Surface {
        Surface {
            output: Output { id: output, width: 0, height: 0, configured: false },
            state: SurfaceState::Created,
            pending: None,
            committed: None,
        }
    }

    /// After the commit of the bare surface.
    pub open spec fn bare_committed(self) -> Surface {
        if self.state == SurfaceState::Created {
            Surface { state: SurfaceState::AwaitingConfigure, ..self }
        } else {
            self
        }
    }

    /// After a configure event that states `width` by `height`. A surface
    /// whose buffer has another size goes back to `Configured` and drops the
    /// buffer that was pending; a surface that was never committed bare, or
    /// has failed, ignores the event.
    pub open spec fn configured(self, width: u32, height: u32) -> Surface {
        let output = Output { width, height, configured: true, ..self.output };
        match self.state {
            SurfaceState::Created | SurfaceState::Failed => self,
            SurfaceState::AwaitingConfigure | SurfaceState::Configured => Surface {
                output,
                state: SurfaceState::Configured,
                ..self
            },
            SurfaceState::BufferAttached | SurfaceState::Committed => {
                if width == self.output.width && height == self.output.height {
                    self
                } else {
                    Surface { output, state: SurfaceState::Configured, pending: None, ..self }
                }
            },
        }
    }

    /// After `buffer` has been attached.
    pub open spec fn attached(self, buffer: BufferRef) -> Surface {
        Surface { state: SurfaceState::BufferAttached, pending: Some(buffer), ..self }
    }

    /// After the commit of the attached buffer.
    pub open spec fn buffer_committed(self) -> Surface {
        if self.state == SurfaceState::BufferAttached {
            Surface { state: SurfaceState::Committed, pending: None, committed: self.pending, ..self }
        } else {
            self
        }
    }

    /// After the surface has been given up.
    pub open spec fn failed(self) -> Surface {
        Surface { state: SurfaceState::Failed, pending: None, ..self }
    }

    /// The surface of a newly announced output: nothing negotiated, no buffer.
    pub fn new(output: u32) -> (surface: Surface)
        ensures
            surface == Surface::created(output),
            surface.wf(),
    {
        Surface {
            output: Output { id: output, width: 0, height: 0, configured: false },
            state: SurfaceState::Created,
            pending: None,
            committed: None,
        }
    }

    /// Records the commit of the bare surface.
    pub fn commit_bare(&mut self)
        requires
            old(self).wf(),
        ensures
            *final(self) == old(self).bare_committed(),
            final(self).wf(),
    {
        if self.state == SurfaceState::Created {
            self.state = SurfaceState::AwaitingConfigure;
        }
    }

    /// Records a configure event.
    pub fn configure(&mut self, width: u32, height: u32)
        requires
            old(self).wf(),
        ensures
            *final(self) == old(self).configured(width, height),
            final(self).wf(),
    {
        match self.state {
            SurfaceState::Created | SurfaceState::Failed => {},
            SurfaceState::AwaitingConfigure | SurfaceState::Configured => {
                self.output.width = width;
                self.output.height = height;
                self.output.configured = true;
                self.state = SurfaceState::Configured;
            },
            SurfaceState::BufferAttached | SurfaceState::Committed => {
                if width != self.output.width || height != self.output.height {
                    self.output.width = width;
                    self.output.height = height;
                    self.output.configured = true;
                    self.state = SurfaceState::Configured;
                    self.pending = None;
                }
            },
        }
    }

    /// Whether the surface is configured with a non-empty size and has no
    /// buffer of that size yet.
    pub fn needs_buffer(&self) -> (needs: bool)
        ensures
            needs == self.wants_buffer(),
    {
        self.state == SurfaceState::Configured && self.output.configured && self.output.width > 0
            && self.output.height > 0
    }

    /// Records that `buffer` has been attached. The surface must be waiting
    /// for a buffer, and the buffer must have the size of its output.
    pub fn attach(&mut self, buffer: BufferRef)
        requires
            old(self).wf(),
            old(self).wants_buffer(),
            old(self).fits(buffer),
        ensures
            *final(self) == old(self).attached(buffer),
            final(self).wf(),
    {
        self.state = SurfaceState::BufferAttached;
        self.pending = Some(buffer);
    }

    /// Records the commit of the attached buffer.
    pub fn commit_buffer(&mut self)
        requires
            old(self).wf(),
        ensures
            *final(self) == old(self).buffer_committed(),
            final(self).wf(),
    {
        if self.state == SurfaceState::BufferAttached {
            self.state = SurfaceState::Committed;
            self.committed = self.pending;
            self.pending = None;
        }
    }

    /// Gives the surface up.
    pub fn fail(&mut self)
        requires
            old(self).wf(),
        ensures
            *final(self) == old(self).failed(),
            final(self).wf(),
    {
        self.state = SurfaceState::Failed;
        self.pending = None;
    }
}

/// A buffer is attached only to a configured surface: whatever a surface has
/// gone through, while it holds a buffer, pending or committed, its
/// `configured` flag is set.
pub proof fn lemma_buffer_only_when_configured(surface: Surface)
    requires
        surface.wf(),
    ensures
        surface.pending is Some || surface.committed is Some ==> surface.output.configured,
        surface.state == SurfaceState::BufferAttached || surface.state == SurfaceState::Committed
            ==> surface.output.configured,
{
}

/// A change of geometry after a commit calls for a new buffer: the surface
/// goes back to waiting for one, no buffer of the old size stays pending, and
/// only a buffer of the new size can be attached next.
pub proof fn lemma_geometry_change_reallocates(surface: Surface, width: u32, height: u32)
    requires
        surface.wf(),
        surface.state == SurfaceState::BufferAttached || surface.state == SurfaceState::Committed,
        width != surface.output.width || height != surface.output.height,
    ensures
        surface.configured(width, height).wf(),
        surface.configured(width, height).state == SurfaceState::Configured,
        surface.configured(width, height).pending is None,
        width > 0 && height > 0 ==> surface.configured(width, height).wants_buffer(),
        forall|buffer: BufferRef| #[trigger]
            surface.configured(width, height).fits(buffer) ==> buffer.width == width
                && buffer.height == height && !surface.fits(buffer),
{
}

} // verus!
