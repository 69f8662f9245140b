//! Shared pixel buffers and the choice of their wire format.

use vstd::prelude::*;
use crate::errors::BufferError;
use crate::scaler::{ImageScaler, PixelFormat, MAX_BUFFER_BYTES};
use crate::surface::BufferRef;

verus! {

/// Whether the compositor advertises `format`.
pub fn advertises(advertised: &Vec<PixelFormat>, format: PixelFormat) -> (found: bool)
    ensures
        found == advertised@.contains(format),
{
    let mut at: usize = 0;
    while at < advertised.len()
        invariant
            at <= advertised.len(),
            forall|k: int| 0 <= k < at ==> advertised[k] != format,
        decreases advertised.len() - at,
    {
        if advertised[at] == format {
            return true;
        }
        at = at + 1;
    }
    false
}

/// The format that the client writes, given what the compositor advertises:
/// the first advertised one of `Argb8888`, `Xrgb8888`, `Abgr8888`, `Xbgr8888`.
pub open spec fn preferred_format(advertised: Seq<PixelFormat>) -> Option<PixelFormat> {
    if advertised.contains(PixelFormat::Argb8888) {
        Some(PixelFormat::Argb8888)
    } else if advertised.contains(PixelFormat::Xrgb8888) {
        Some(PixelFormat::Xrgb8888)
    } else if advertised.contains(PixelFormat::Abgr8888) {
        Some(PixelFormat::Abgr8888)
    } else if advertised.contains(PixelFormat::Xbgr8888) {
        Some(PixelFormat::Xbgr8888)
    } else {
        None
    }
}

/// Chooses the wire format among those that the compositor advertises.
pub fn negotiate_format(advertised: &Vec<PixelFormat>) -> (chosen: Option<PixelFormat>)
    ensures
        chosen == preferred_format(advertised@),
        chosen is None <==> advertised.len() == 0,
{
    proof {
        if advertised.len() > 0 {
            let first = advertised[0];
            assert(advertised@.contains(first));
        }
    }
    if advertises(advertised, PixelFormat::Argb8888) {
        Some(PixelFormat::Argb8888)
    } else if advertises(advertised, PixelFormat::Xrgb8888) {
        Some(PixelFormat::Xrgb8888)
    } else if advertises(advertised, PixelFormat::Abgr8888) {
        Some(PixelFormat::Abgr8888)
    } else if advertises(advertised, PixelFormat::Xbgr8888) {
        Some(PixelFormat::Xbgr8888)
    } else {
        None
    }
}

/// How a buffer is announced to the compositor: where it starts in its
/// pool, its geometry in the signed counts of the wire protocol, where on
/// the surface it is attached, and the region of the surface that it
/// changes, which is all of it.
#[derive(Clone, Copy, Debug, PartialEq, Eq, Structural)]
pub struct BufferLayout {
    /// Where the buffer starts in its pool.
    pub offset: i32,
    /// Width in pixels.
    pub width: i32,
    /// Height in pixels.
    pub height: i32,
    /// Bytes per row.
    pub stride: i32,
    /// Where the buffer's left edge is attached on the surface.
    pub attach_x: i32,
    /// Where the buffer's top edge is attached on the surface.
    pub attach_y: i32,
    /// Left edge of the damaged region.
    pub damage_x: i32,
    /// Top edge of the damaged region.
    pub damage_y: i32,
    /// Width of the damaged region.
    pub damage_width: i32,
    /// Height of the damaged region.
    pub damage_height: i32,
}

/// The pixels of one surface, as they are written into the memory shared
/// with the compositor: four bytes per pixel, rows of `4 * width` bytes.
pub struct SharedBuffer {
    serial: u64,
    output: u32,
    width: u32,
    height: u32,
    format: PixelFormat,
    bytes: Vec<u8>,
}

impl SharedBuffer {
    /// The buffer is not empty, holds exactly `width * height * 4` bytes, and
    /// its length fits a pool of the wire protocol.
    #[verifier::type_invariant]
    pub closed spec fn wf(&self) -> bool {
        &&& self.width > 0
        &&& self.height > 0
        &&& self.bytes.len() == 4 * (self.width * self.height)
        &&& self.bytes.len() <= MAX_BUFFER_BYTES
    }

    /// The serial under which the buffer was made.
    pub closed spec fn spec_serial(&self) -> u64 {
        self.serial
    }

    /// The output whose surface the buffer is for.
    pub closed spec fn spec_output(&self) -> u32 {
        self.output
    }

    /// Width in pixels.
    pub closed spec fn spec_width(&self) -> u32 {
        self.width
    }

    /// Height in pixels.
    pub closed spec fn spec_height(&self) -> u32 {
        self.height
    }

    /// The layout of its pixels.
    pub closed spec fn spec_format(&self) -> PixelFormat {
        self.format
    }

    /// The bytes, row by row.
    pub closed spec fn contents(&self) -> Seq<u8> {
        self.bytes@
    }

    /// What a surface records of this buffer.
    pub open spec fn reference(&self) -> BufferRef {
        BufferRef { serial: self.spec_serial(), width: self.spec_width(), height: self.spec_height() }
    }

    /// The length of a well-formed buffer is `width * height * 4`, and each
    /// of its rows, and the whole, fits a signed 32-bit count.
    pub proof fn lemma_length(&self)
        requires
            self.wf(),
        ensures
            self.contents().len() == self.spec_width() * self.spec_height() * 4,
            self.contents().len() == 4 * (self.spec_width() * self.spec_height()),
            4 * self.spec_width() <= self.contents().len() <= MAX_BUFFER_BYTES,
            self.spec_height() <= self.contents().len(),
            self.spec_width() > 0,
            self.spec_height() > 0,
    {
        let width = self.width as int;
        let height = self.height as int;
        assert(width * height >= width && width * height >= height) by (nonlinear_arith)
            requires
                width > 0,
                height > 0,
        ;
    }

    /// Makes the buffer for an output of `width` by `height`: the source
    /// scaled to exactly that size, in the layout of `format`. Fails, as
    /// [`ImageScaler::scale`] does, with `EmptyGeometry` or `TooLarge`.
    pub fn render(
        serial: u64,
        output: u32,
        scaler: &ImageScaler,
        width: u32,
        height: u32,
        format: PixelFormat,
    ) -> (made: Result<SharedBuffer, BufferError>)
        ensures
            match made {
                Ok(buffer) => {
                    &&& scaler.can_scale_to(width, height)
                    &&& buffer.wf()
                    &&& buffer.spec_serial() == serial
                    &&& buffer.spec_output() == output
                    &&& buffer.spec_width() == width
                    &&& buffer.spec_height() == height
                    &&& buffer.spec_format() == format
                    &&& buffer.contents().len() == 4 * (width * height)
                    &&& scaler.is_scaled(width, height, format, buffer.contents())
                },
                Err(error) => {
                    &&& !scaler.can_scale_to(width, height)
                    &&& error == if width == 0 || height == 0 {
                        BufferError::EmptyGeometry
                    } else {
                        BufferError::TooLarge
                    }
                },
            },
    {
        match scaler.scale(width, height, format) {
            Ok(bytes) => Ok(SharedBuffer { serial, output, width, height, format, bytes }),
            Err(error) => Err(error),
        }
    }

    /// The serial under which the buffer was made.
    pub fn serial(&self) -> (serial: u64)
        ensures
            serial == self.spec_serial(),
    {
        self.serial
    }

    /// The output whose surface the buffer is for.
    pub fn output(&self) -> (output: u32)
        ensures
            output == self.spec_output(),
    {
        self.output
    }

    /// Width in pixels.
    pub fn width(&self) -> (width: u32)
        ensures
            width == self.spec_width(),
    {
        self.width
    }

    /// Height in pixels.
    pub fn height(&self) -> (height: u32)
        ensures
            height == self.spec_height(),
    {
        self.height
    }

    /// Bytes per row.
    pub fn stride(&self) -> (stride: u32)
        ensures
            stride == 4 * self.spec_width(),
            stride <= MAX_BUFFER_BYTES,
    {
        proof {
            use_type_invariant(self);
            self.lemma_length();
        }
        4 * self.width
    }

    /// How the buffer is announced to the compositor: at the start of a
    /// pool of its own, with rows of `4 * width` bytes, attached at the
    /// surface's upper left corner, damaging the full surface.
    pub fn layout(&self) -> (layout: BufferLayout)
        ensures
            layout.offset == 0,
            layout.width == self.spec_width(),
            layout.height == self.spec_height(),
            layout.stride == 4 * self.spec_width(),
            layout.stride * layout.height == self.contents().len(),
            layout.attach_x == 0,
            layout.attach_y == 0,
            layout.damage_x == 0,
            layout.damage_y == 0,
            layout.damage_width == self.spec_width(),
            layout.damage_height == self.spec_height(),
    {
        proof {
            use_type_invariant(self);
            self.lemma_length();
            assert((4 * self.width) * self.height == 4 * (self.width * self.height))
                by (nonlinear_arith);
        }
        let width = self.width as i32;
        let height = self.height as i32;
        BufferLayout {
            offset: 0,
            width,
            height,
            stride: 4 * width,
            attach_x: 0,
            attach_y: 0,
            damage_x: 0,
            damage_y: 0,
            damage_width: width,
            damage_height: height,
        }
    }

    /// The layout of its pixels.
    pub fn format(&self) -> (format: PixelFormat)
        ensures
            format == self.spec_format(),
    {
        self.format
    }

    /// Length in bytes: always `width * height * 4`.
    pub fn len(&self) -> (len: usize)
        ensures
            len == self.contents().len(),
            len == self.spec_width() * self.spec_height() * 4,
            self.wf(),
    {
        proof {
            use_type_invariant(self);
            self.lemma_length();
        }
        self.bytes.len()
    }

    /// The bytes, row by row.
    pub fn bytes(&self) -> (bytes: &Vec<u8>)
        ensures
            bytes@ == self.contents(),
    {
        &self.bytes
    }

    /// What a surface records of this buffer.
    pub fn to_ref(&self) -> (reference: BufferRef)
        ensures
            reference == self.reference(),
    {
        BufferRef { serial: self.serial, width: self.width, height: self.height }
    }
}

} // verus!
