//! Resampling a decoded image to an output's geometry and wire pixel format.

use vstd::prelude::*;
use crate::errors::BufferError;

verus! {

/// Bytes per pixel, in the source and on the wire.
pub const BYTES_PER_PIXEL: usize = 4;

/// The largest width or height, in pixels, of an image that is scaled or
/// scaled to. The resampling computes pixel positions in single-precision
/// floating point; up to this size every position and every half position
/// is exact there.
pub const MAX_DIMENSION: u32 = 65_535;

/// The largest byte length that the wire protocol can express for a pool.
pub const MAX_BUFFER_BYTES: usize = 0x7fff_ffff;

/// How the four bytes of a pixel are laid out in a shared buffer.
#[derive(Clone, Copy, Debug, PartialEq, Eq, Structural)]
pub enum PixelFormat {
    /// Blue, green, red, alpha.
    Argb8888,
    /// Blue, green, red, one unused byte.
    Xrgb8888,
    /// Red, green, blue, alpha.
    Abgr8888,
    /// Red, green, blue, one unused byte.
    Xbgr8888,
}

impl PixelFormat {
    /// The channel of a red-green-blue-alpha pixel that is written at byte
    /// `position` of a wire pixel.
    pub open spec fn source_channel(self, position: int) -> int {
        match self {
            PixelFormat::Argb8888 | PixelFormat::Xrgb8888 => {
                if position == 0 {
                    2
                } else if position == 2 {
                    0
                } else {
                    position
                }
            },
            PixelFormat::Abgr8888 | PixelFormat::Xbgr8888 => position,
        }
    }

    /// Whether blue comes first on the wire.
    pub fn swaps_red_and_blue(self) -> (swaps: bool)
        ensures
            swaps == (self.source_channel(0) == 2),
            swaps == (self.source_channel(2) == 0),
            !swaps ==> forall|p: int| self.source_channel(p) == p,
            self.source_channel(1) == 1,
            self.source_channel(3) == 3,
    {
        match self {
            PixelFormat::Argb8888 | PixelFormat::Xrgb8888 => true,
            PixelFormat::Abgr8888 | PixelFormat::Xbgr8888 => false,
        }
    }
}

/// The wire bytes of red-green-blue-alpha pixel data: every whole pixel, in
/// order, with its channels laid out as the format asks. Bytes after the
/// last whole pixel are dropped.
pub open spec fn to_wire(format: PixelFormat, rgba: Seq<u8>) -> Seq<u8> {
    Seq::new(
        (rgba.len() - rgba.len() % 4) as nat,
        |k: int| rgba[(k / 4) * 4 + format.source_channel(k % 4)],
    )
}

/// Lays red-green-blue-alpha pixel data out in the wire format.
pub fn reorder_channels(rgba: &Vec<u8>, format: PixelFormat) -> (wire: Vec<u8>)
    ensures
        wire@ == to_wire(format, rgba@),
{
    let whole: usize = rgba.len() - rgba.len() % 4;
    let swaps = format.swaps_red_and_blue();
    let mut wire: Vec<u8> = Vec::with_capacity(whole);
    let mut at: usize = 0;
    while at < whole
        invariant
            whole == rgba.len() - rgba.len() % 4,
            at <= whole,
            at % 4 == 0,
            wire.len() == at,
            swaps == (format.source_channel(0) == 2),
            swaps == (format.source_channel(2) == 0),
            !swaps ==> forall|p: int| format.source_channel(p) == p,
            format.source_channel(1) == 1,
            format.source_channel(3) == 3,
            forall|k: int| 0 <= k < at ==> wire[k] == to_wire(format, rgba@)[k],
        decreases whole - at,
    {
        let (first, third) = if swaps {
            (rgba[at + 2], rgba[at])
        } else {
            (rgba[at], rgba[at + 2])
        };
        wire.push(first);
        wire.push(rgba[at + 1]);
        wire.push(third);
        wire.push(rgba[at + 3]);
        at = at + 4;
    }
    assert(wire@ =~= to_wire(format, rgba@));
    wire
}

/// Resamples red-green-blue-alpha pixel data to a new geometry.
///
/// Trusted: calls `image::imageops::resize` with the `Lanczos3` filter on an
/// `image::ImageBuffer` laid over `pixels`. The contract claims only the
/// length of what comes back, and that an image asked for at its own size
/// comes back as a copy. The preconditions keep the source non-empty, keep
/// every dimension so small that the pixel positions which `resize`
/// computes in `f32` are exact (with inexact positions a row of weights can
/// sum to zero, and `resize` then panics), and keep the buffers that
/// `resize` allocates (one of `f32` samples, `width` by `new_height`, and
/// the result) within what an allocation can hold.
#[verifier::external_body]
fn resample_lanczos3(
    pixels: &Vec<u8>,
    width: u32,
    height: u32,
    new_width: u32,
    new_height: u32,
) -> (resampled: Vec<u8>)
    requires
        width > 0,
        height > 0,
        new_width > 0,
        new_height > 0,
        width <= MAX_DIMENSION,
        height <= MAX_DIMENSION,
        new_width <= MAX_DIMENSION,
        new_height <= MAX_DIMENSION,
        pixels.len() == 4 * (width * height),
        16 * (width * new_height) <= isize::MAX,
        4 * (new_width * new_height) <= isize::MAX,
    ensures
        resampled.len() == 4 * (new_width * new_height),
        new_width == width && new_height == height ==> resampled@ == pixels@,
{
    let source: image::ImageBuffer<image::Rgba<u8>, &[u8]> =
        image::ImageBuffer::from_raw(width, height, pixels.as_slice()).unwrap();
    image::imageops::resize(
        &source,
        new_width,
        new_height,
        image::imageops::FilterType::Lanczos3,
    ).into_raw()
}

/// A decoded source image, held once and scaled for every output.
pub struct ImageScaler {
    width: u32,
    height: u32,
    pixels: Vec<u8>,
}

impl ImageScaler {
    /// The source is non-empty, no larger than `MAX_DIMENSION` either way,
    /// and holds four bytes for each of its pixels.
    #[verifier::type_invariant]
    pub closed spec fn wf(&self) -> bool {
        &&& 0 < self.width <= MAX_DIMENSION
        &&& 0 < self.height <= MAX_DIMENSION
        &&& self.pixels.len() == 4 * (self.width * self.height)
    }

    /// Width of the source, in pixels.
    pub closed spec fn source_width(&self) -> u32 {
        self.width
    }

    /// Height of the source, in pixels.
    pub closed spec fn source_height(&self) -> u32 {
        self.height
    }

    /// The source pixels: red, green, blue, alpha, row by row.
    pub closed spec fn source_pixels(&self) -> Seq<u8> {
        self.pixels@
    }

    /// Whether `pixels` is a red-green-blue-alpha image of the given size,
    /// and that size is neither empty nor above `MAX_DIMENSION` either way.
    pub open spec fn is_image(width: u32, height: u32, pixels: Seq<u8>) -> bool {
        &&& 0 < width <= MAX_DIMENSION
        &&& 0 < height <= MAX_DIMENSION
        &&& pixels.len() == 4 * (width * height)
    }

    /// Why an image of the given size cannot be taken, if it cannot: a
    /// dimension is zero, else one is above `MAX_DIMENSION`, else `length`
    /// is not four bytes per pixel.
    pub open spec fn source_fault(width: u32, height: u32, length: nat) -> Option<BufferError> {
        if width == 0 || height == 0 {
            Some(BufferError::EmptyGeometry)
        } else if width > MAX_DIMENSION || height > MAX_DIMENSION {
            Some(BufferError::TooLarge)
        } else if length != 4 * (width * height) {
            Some(BufferError::SourceMismatch)
        } else {
            None
        }
    }

    /// Whether the source can be scaled to `width` by `height`: the target is
    /// non-empty and no larger than `MAX_DIMENSION` either way, its bytes
    /// fit a pool of the wire protocol, and the samples of the intermediate
    /// image fit an allocation.
    pub open spec fn can_scale_to(&self, width: u32, height: u32) -> bool {
        &&& 0 < width <= MAX_DIMENSION
        &&& 0 < height <= MAX_DIMENSION
        &&& 4 * (width * height) <= MAX_BUFFER_BYTES
        &&& 16 * (self.source_width() * height) <= isize::MAX
    }

    /// Whether `bytes` is the source scaled to `width` by `height` in the
    /// given format: the wire layout of some resampling of that size, and of
    /// the source itself where the size does not change.
    pub open spec fn is_scaled(
        &self,
        width: u32,
        height: u32,
        format: PixelFormat,
        bytes: Seq<u8>,
    ) -> bool {
        exists|resampled: Seq<u8>|
            {
                &&& resampled.len() == 4 * (width * height)
                &&& width == self.source_width() && height == self.source_height()
                    ==> resampled == self.source_pixels()
                &&& #[trigger] to_wire(format, resampled) == bytes
            }
    }

    /// Takes a decoded image. Fails with `EmptyGeometry` when a dimension is
    /// zero, else with `TooLarge` when one is above `MAX_DIMENSION`, else
    /// with `SourceMismatch` when `pixels` is not four bytes per pixel.
    pub fn new(width: u32, height: u32, pixels: Vec<u8>) -> (made: Result<ImageScaler, BufferError>)
        ensures
            match made {
                Ok(scaler) => {
                    &&& Self::is_image(width, height, pixels@)
                    &&& scaler.wf()
                    &&& scaler.source_width() == width
                    &&& scaler.source_height() == height
                    &&& scaler.source_pixels() == pixels@
                },
                Err(error) => {
                    &&& !Self::is_image(width, height, pixels@)
                    &&& Self::source_fault(width, height, pixels@.len()) == Some(error)
                },
            },
            made is Ok <==> Self::source_fault(width, height, pixels@.len()) is None,
    {
        if width == 0 || height == 0 {
            return Err(BufferError::EmptyGeometry);
        }
        if width > MAX_DIMENSION || height > MAX_DIMENSION {
            return Err(BufferError::TooLarge);
        }
        assert(width * height <= 0xffff_ffff * 0xffff_ffff) by (nonlinear_arith)
            requires
                width <= 0xffff_ffff,
                height <= 0xffff_ffff,
        ;
        let needed: u128 = 4 * (width as u128 * height as u128);
        if pixels.len() as u128 != needed {
            return Err(BufferError::SourceMismatch);
        }
        Ok(ImageScaler { width, height, pixels })
    }

    /// Width of the source, in pixels.
    pub fn width(&self) -> (width: u32)
        ensures
            width == self.source_width(),
    {
        self.width
    }

    /// Height of the source, in pixels.
    pub fn height(&self) -> (height: u32)
        ensures
            height == self.source_height(),
    {
        self.height
    }

    /// The bytes of the source scaled to `width` by `height`, in the wire
    /// layout of `format`. Fails with `EmptyGeometry` when a dimension is
    /// zero, else with `TooLarge` when a dimension is above `MAX_DIMENSION`
    /// or the target cannot be held.
    pub fn scale(&self, width: u32, height: u32, format: PixelFormat) -> (scaled: Result<
        Vec<u8>,
        BufferError,
    >)
        ensures
            match scaled {
                Ok(bytes) => {
                    &&& self.can_scale_to(width, height)
                    &&& bytes.len() == 4 * (width * height)
                    &&& self.is_scaled(width, height, format, bytes@)
                },
                Err(error) => {
                    &&& !self.can_scale_to(width, height)
                    &&& error == if width == 0 || height == 0 {
                        BufferError::EmptyGeometry
                    } else {
                        BufferError::TooLarge
                    }
                },
            },
    {
        if width == 0 || height == 0 {
            return Err(BufferError::EmptyGeometry);
        }
        if width > MAX_DIMENSION || height > MAX_DIMENSION {
            return Err(BufferError::TooLarge);
        }
        assert(width * height <= 0xffff_ffff * 0xffff_ffff) by (nonlinear_arith)
            requires
                width <= 0xffff_ffff,
                height <= 0xffff_ffff,
        ;
        assert(self.width * height <= 0xffff_ffff * 0xffff_ffff) by (nonlinear_arith)
            requires
                self.width <= 0xffff_ffff,
                height <= 0xffff_ffff,
        ;
        let target: u128 = 4 * (width as u128 * height as u128);
        let samples: u128 = 16 * (self.width as u128 * height as u128);
        if target > MAX_BUFFER_BYTES as u128 || samples > isize::MAX as u128 {
            return Err(BufferError::TooLarge);
        }
        proof {
            use_type_invariant(self);
        }
        let resampled = resample_lanczos3(&self.pixels, self.width, self.height, width, height);
        let bytes = reorder_channels(&resampled, format);
        assert(self.is_scaled(width, height, format, bytes@)) by {
            assert(to_wire(format, resampled@) == bytes@);
        }
        Ok(bytes)
    }
}

} // verus!
