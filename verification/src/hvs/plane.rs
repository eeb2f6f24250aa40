//! A plane: one image the scaler composes onto the display.

use vstd::prelude::*;

verus! {

/// The format of the pixels stored in a plane's framebuffer.
#[derive(Debug, Clone, Copy, PartialEq, Eq, Structural)]
pub enum PixelFormat {
    /// 8 bits per pixel.
    Rgb332,
    /// 16 bits per pixel.
    Rgba4444,
    Rgb555,
    Rgba5551,
    Rgb565,
    /// 24 bits per pixel.
    Rgb888,
    Rgba6666,
    /// 32 bits per pixel.
    Rgba8888,
}

impl PixelFormat {
    /// The format's code in a plane descriptor's control word.
    pub open spec fn spec_code(&self) -> u32 {
        match self {
            PixelFormat::Rgb332 => 0u32,
            PixelFormat::Rgba4444 => 1u32,
            PixelFormat::Rgb555 => 2u32,
            PixelFormat::Rgba5551 => 3u32,
            PixelFormat::Rgb565 => 4u32,
            PixelFormat::Rgb888 => 5u32,
            PixelFormat::Rgba6666 => 6u32,
            PixelFormat::Rgba8888 => 7u32,
        }
    }

    /// The format's code as a value.
    pub fn code(&self) -> (r: u32)
        ensures
            r == self.spec_code(),
    {
        match self {
            PixelFormat::Rgb332 => 0,
            PixelFormat::Rgba4444 => 1,
            PixelFormat::Rgb555 => 2,
            PixelFormat::Rgba5551 => 3,
            PixelFormat::Rgb565 => 4,
            PixelFormat::Rgb888 => 5,
            PixelFormat::Rgba6666 => 6,
            PixelFormat::Rgba8888 => 7,
        }
    }

    /// Bits per pixel of this format.
    pub fn depth(&self) -> (r: u16)
        ensures
            *self is Rgb332 ==> r == 8,
            (*self is Rgba4444 || *self is Rgb555 || *self is Rgba5551 || *self is Rgb565) ==> r
                == 16,
            (*self is Rgb888 || *self is Rgba6666) ==> r == 24,
            *self is Rgba8888 ==> r == 32,
    {
        match self {
            PixelFormat::Rgb332 => 8,
            PixelFormat::Rgba4444 | PixelFormat::Rgb555 | PixelFormat::Rgba5551
            | PixelFormat::Rgb565 => 16,
            PixelFormat::Rgb888 | PixelFormat::Rgba6666 => 24,
            PixelFormat::Rgba8888 => 32,
        }
    }
}

impl Default for PixelFormat {
    /// 32-bit RGBA is the default format.
    fn default() -> (r: Self)
        ensures
            r is Rgba8888,
    {
        PixelFormat::Rgba8888
    }
}

/// The component order of the pixels in a plane's framebuffer.  The
/// scaler wants the alpha component first: ARGB or ABGR.
#[derive(Debug, Clone, Copy, PartialEq, Eq, Structural)]
pub enum PixelOrder {
    Rgba,
    Bgra,
    Argb,
    Abgr,
}

impl PixelOrder {
    /// The order's code in a plane descriptor's control word.
    pub open spec fn spec_code(&self) -> u32 {
        match self {
            PixelOrder::Rgba => 0u32,
            PixelOrder::Bgra => 1u32,
            PixelOrder::Argb => 2u32,
            PixelOrder::Abgr => 3u32,
        }
    }

    /// The order's code as a value.
    pub fn code(&self) -> (r: u32)
        ensures
            r == self.spec_code(),
    {
        match self {
            PixelOrder::Rgba => 0,
            PixelOrder::Bgra => 1,
            PixelOrder::Argb => 2,
            PixelOrder::Abgr => 3,
        }
    }
}

impl Default for PixelOrder {
    /// Alpha-first RGB is the default order.
    fn default() -> (r: Self)
        ensures
            r is Argb,
    {
        PixelOrder::Argb
    }
}

/// One plane: its pixel format and order, its position and size on the
/// display, its pitch, and its pixel data.
#[derive(Clone)]
pub struct Plane {
    pub format: PixelFormat,
    pub order: PixelOrder,
    pub start_x: u16,
    pub start_y: u16,
    pub width: u16,
    pub height: u16,
    pub pitch: u16,
    pub framebuffer: Vec<u32>,
}

impl Plane {
    /// A full-screen opaque white plane.
    pub fn white() -> (r: Plane)
        ensures
            r.format is Rgba8888,
            r.order is Argb,
            r.start_x == 0 && r.start_y == 0,
            r.width == 480 && r.height == 480,
            r.pitch == 32,
            r.framebuffer@.len() == 480 * 480,
            forall|i: int| 0 <= i < r.framebuffer@.len() ==> r.framebuffer@[i] == 0xFFFF_FFFFu32,
    {
        Plane {
            format: PixelFormat::Rgba8888,
            order: PixelOrder::Argb,
            start_x: 0,
            start_y: 0,
            width: 480,
            height: 480,
            pitch: 32,
            framebuffer: filled_framebuffer(0xFFFF_FFFF),
        }
    }

    /// A full-screen green plane at roughly one-fifth alpha.
    pub fn green_half_alpha() -> (r: Plane)
        ensures
            r.format is Rgba8888,
            r.order is Argb,
            r.start_x == 0 && r.start_y == 0,
            r.width == 480 && r.height == 480,
            r.pitch == 32,
            r.framebuffer@.len() == 480 * 480,
            forall|i: int| 0 <= i < r.framebuffer@.len() ==> r.framebuffer@[i] == 0x3300_FF00u32,
    {
        Plane {
            format: PixelFormat::Rgba8888,
            order: PixelOrder::Argb,
            start_x: 0,
            start_y: 0,
            width: 480,
            height: 480,
            pitch: 32,
            framebuffer: filled_framebuffer(0x3300_FF00),
        }
    }

    /// The plane with another pixel format.
    pub fn set_pixel_format(self, format: PixelFormat) -> (r: Plane)
        ensures
            r == (Plane { format, ..self }),
    {
        let mut plane = self;
        plane.format = format;
        plane
    }

    /// The plane with another pixel order.
    pub fn set_pixel_order(self, order: PixelOrder) -> (r: Plane)
        ensures
            r == (Plane { order, ..self }),
    {
        let mut plane = self;
        plane.order = order;
        plane
    }

    /// The plane moved to another display column.
    pub fn set_start_x(self, start_x: u16) -> (r: Plane)
        ensures
            r == (Plane { start_x, ..self }),
    {
        let mut plane = self;
        plane.start_x = start_x;
        plane
    }

    /// The plane moved to another display row.
    pub fn set_start_y(self, start_y: u16) -> (r: Plane)
        ensures
            r == (Plane { start_y, ..self }),
    {
        let mut plane = self;
        plane.start_y = start_y;
        plane
    }

    /// The plane with another width.
    pub fn set_width(self, width: u16) -> (r: Plane)
        ensures
            r == (Plane { width, ..self }),
    {
        let mut plane = self;
        plane.width = width;
        plane
    }

    /// The plane with another height.
    pub fn set_height(self, height: u16) -> (r: Plane)
        ensures
            r == (Plane { height, ..self }),
    {
        let mut plane = self;
        plane.height = height;
        plane
    }

    /// The plane with another pitch.
    pub fn set_pitch(self, pitch: u16) -> (r: Plane)
        ensures
            r == (Plane { pitch, ..self }),
    {
        let mut plane = self;
        plane.pitch = pitch;
        plane
    }

    /// The plane with another framebuffer.
    pub fn set_framebuffer(self, framebuffer: Vec<u32>) -> (r: Plane)
        ensures
            r == (Plane { framebuffer, ..self }),
    {
        let mut plane = self;
        plane.framebuffer = framebuffer;
        plane
    }
}

/// A full-screen framebuffer with every pixel set to `pixel`.
fn filled_framebuffer(pixel: u32) -> (r: Vec<u32>)
    ensures
        r@.len() == 480 * 480,
        forall|i: int| 0 <= i < r@.len() ==> r@[i] == pixel,
{
    let mut fb: Vec<u32> = Vec::new();
    let mut i: usize = 0;
    while i < 230400
        invariant
            i <= 230400,
            fb@.len() == i,
            forall|j: int| 0 <= j < i ==> fb@[j] == pixel,
        decreases 230400 - i,
    {
        fb.push(pixel);
        i = i + 1;
    }
    fb
}

} // verus!
