use vstd::prelude::*;

verus! {

/// The layout of the pixels of a raw video frame.
#[derive(Debug, Clone, Copy, PartialEq, Eq, Structural)]
pub enum PixelFormat {
    RGB8,
    V210,
}

impl PixelFormat {
    /// Bytes taken by one pixel; V210 packs pixels in groups and has no per-pixel size.
    pub open spec fn pixel_bytes(self) -> nat {
        match self {
            PixelFormat::RGB8 => 3,
            PixelFormat::V210 => 0,
        }
    }

    pub fn pixel_size_bytes(self) -> (size: usize)
        ensures
            size == self.pixel_bytes(),
    {
        match self {
            PixelFormat::RGB8 => 3,
            PixelFormat::V210 => 0,
        }
    }
}

/// Pixel format and dimensions of the frames of a raw video stream.
#[derive(Debug, Clone, Copy)]
pub struct VideoFrameFormat {
    pub pixel_format: PixelFormat,
    pub width: u16,
    pub height: u16,
}

impl VideoFrameFormat {
    /// Number of bytes of one frame: three bytes per pixel for RGB8; for V210, every
    /// started group of six pixels of a row takes sixteen bytes.
    pub open spec fn frame_bytes(self) -> int {
        match self.pixel_format {
            PixelFormat::RGB8 => self.width * self.height * 3,
            PixelFormat::V210 => ((self.width + 5) / 6) * 16 * self.height,
        }
    }

    pub fn frame_size(self) -> (size: usize)
        requires
            self.frame_bytes() <= usize::MAX,
        ensures
            size == self.frame_bytes(),
    {
        match self.pixel_format {
            PixelFormat::RGB8 => {
                let w = self.width as usize;
                let h = self.height as usize;
                let px = self.pixel_format.pixel_size_bytes();
                assert(w * h <= w * h * 3) by (nonlinear_arith);
                assert(w * h * px == w * h * 3);
                (w * h) * px
            },
            PixelFormat::V210 => {
                let width = self.width as usize;
                let height = self.height as usize;
                let groups = (width + 5) / 6;
                assert(groups * 16 * height == ((self.width + 5) / 6) * 16 * self.height);
                groups * 16 * height
            },
        }
    }
}

impl VideoFrameFormat {
    /// Whether the frame size can be counted in a `usize` on this machine.
    pub fn frame_size_fits(self) -> (fits: bool)
        ensures
            fits == (self.frame_bytes() <= usize::MAX),
    {
        let w = self.width as u64;
        let h = self.height as u64;
        let bytes: u64 = match self.pixel_format {
            PixelFormat::RGB8 => {
                assert(w * h * 3 <= 0xffff * 0xffff * 3) by (nonlinear_arith)
                    requires
                        w <= 0xffff,
                        h <= 0xffff,
                ;
                w * h * 3
            },
            PixelFormat::V210 => {
                let groups = (w + 5) / 6;
                assert(groups * 16 * h <= 0x3000 * 16 * 0xffff) by (nonlinear_arith)
                    requires
                        groups <= 0x3000,
                        h <= 0xffff,
                ;
                groups * 16 * h
            },
        };
        bytes <= usize::MAX as u64
    }
}

/// An RGB8 frame takes three bytes per pixel; a V210 frame takes sixteen bytes for every
/// started group of six pixels in a row, that is for the number `groups` of groups with
/// `6 * (groups - 1) < width <= 6 * groups`, in every row.
pub proof fn lemma_frame_bytes(format: VideoFrameFormat, groups: int)
    ensures
        format.pixel_format == PixelFormat::RGB8 ==> format.frame_bytes() == format.width
            * format.height * 3,
        format.pixel_format == PixelFormat::V210 && 6 * (groups - 1) < format.width <= 6 * groups
            ==> format.frame_bytes() == groups * 16 * format.height,
{
    let w = format.width as int;
    if format.pixel_format == PixelFormat::V210 && 6 * (groups - 1) < w <= 6 * groups {
        vstd::arithmetic::div_mod::lemma_fundamental_div_mod_converse(
            w + 5,
            6,
            groups,
            w + 5 - 6 * groups,
        );
    }
}

/// The format of the frames that the viewer is told to expect.
pub fn build_frame_format(pixel_format: PixelFormat, width: u16, height: u16) -> (format:
    VideoFrameFormat)
    ensures
        format.pixel_format == pixel_format,
        format.width == width,
        format.height == height,
{
    VideoFrameFormat { pixel_format, width, height }
}

} // verus!
