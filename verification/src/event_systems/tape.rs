use vstd::prelude::*;

use image::DynamicImage;

use crate::error::{Error, Result};
use crate::file_loader::FileBuffer;
use crate::rgb_image::{rgb8_image, rgb8_image_from_raw};
use crate::video::{PixelFormat, VideoFrameFormat};

verus! {

pub const THUMBNAIL_WIDTH: u32 = 1280;

pub const THUMBNAIL_HEIGHT: u32 = 720;

pub const INTERNAL_PIXEL_FORMAT: PixelFormat = PixelFormat::RGB8;

/// Requests that the controller sends to the tape.
#[derive(Debug, Clone, Copy, PartialEq, Eq, Structural)]
pub enum TapeEvent {
    NextFrame,
    PreviousFrame,
}

/// What the tape sends back for a frame.
pub enum FrameReceiverEvent {
    Frame(DynamicImage),
    Error(Error),
}

/// Source row sampled for thumbnail row `y`: nearest neighbour, clamped to the last row.
pub open spec fn source_row(y: int, src_height: int, dst_height: int) -> int {
    let v = y * src_height / dst_height;
    if v < src_height - 1 {
        v
    } else {
        src_height - 1
    }
}

/// Source column sampled for thumbnail column `x`, clamped to the last column.
pub open spec fn source_column(x: int, src_width: int, dst_width: int) -> int {
    let v = x * src_width / dst_width;
    if v < src_width - 1 {
        v
    } else {
        src_width - 1
    }
}

/// Byte offset in the source of the row sampled for thumbnail row `y`.
pub open spec fn row_offset(y: int, src_width: int, src_height: int, dst_height: int) -> int {
    source_row(y, src_height, dst_height) * src_width * 3
}

/// Byte offset within a source row of the pixel sampled for thumbnail column `x`.
pub open spec fn column_offset(x: int, src_width: int, dst_width: int) -> int {
    source_column(x, src_width, dst_width) * 3
}

/// Index in the source of the first byte of the pixel sampled for thumbnail pixel (x, y).
pub open spec fn source_index(
    x: int,
    y: int,
    src_width: int,
    src_height: int,
    dst_width: int,
    dst_height: int,
) -> int {
    row_offset(y, src_width, src_height, dst_height) + column_offset(x, src_width, dst_width)
}

/// The `u32` arithmetic that picks the source row of thumbnail row `y` does not overflow.
pub open spec fn row_in_range(y: int, src_width: int, src_height: int, dst_height: int) -> bool {
    &&& y * src_height <= u32::MAX
    &&& row_offset(y, src_width, src_height, dst_height) <= u32::MAX
}

/// The `u32` arithmetic that picks the source column of thumbnail column `x` does not overflow.
pub open spec fn column_in_range(x: int, src_width: int, dst_width: int) -> bool {
    &&& x * src_width <= u32::MAX
    &&& column_offset(x, src_width, dst_width) <= u32::MAX
}

/// The inputs on which thumbnailing runs without overflow of its `u32` arithmetic and
/// without reading outside the source.
pub open spec fn thumbnail_in_bounds(
    src_len: nat,
    src_width: u32,
    src_height: u32,
    dst_width: u32,
    dst_height: u32,
) -> bool {
    &&& dst_width * dst_height * 3 <= u32::MAX
    &&& dst_height > 0 ==> {
        &&& src_height >= 1
        &&& forall|y: int|
            0 <= y < dst_height ==> #[trigger] row_in_range(
                y,
                src_width as int,
                src_height as int,
                dst_height as int,
            )
        &&& dst_width > 0 ==> {
            &&& src_width >= 1
            &&& forall|x: int|
                0 <= x < dst_width ==> #[trigger] column_in_range(
                    x,
                    src_width as int,
                    dst_width as int,
                )
            &&& forall|x: int, y: int|
                0 <= x < dst_width && 0 <= y < dst_height ==> #[trigger] source_index(
                    x,
                    y,
                    src_width as int,
                    src_height as int,
                    dst_width as int,
                    dst_height as int,
                ) + 2 < src_len
        }
    }
}

/// The RGB8 bytes of the thumbnail: pixel (x, y) copies the source pixel at the sampled
/// row and column.
pub open spec fn thumbnail_pixels(
    src: Seq<u8>,
    src_width: u32,
    src_height: u32,
    dst_width: u32,
    dst_height: u32,
) -> Seq<u8> {
    let row_len = dst_width * 3;
    Seq::new(
        (dst_width * dst_height * 3) as nat,
        |i: int|
            src[source_index(
                (i % row_len) / 3,
                i / row_len,
                src_width as int,
                src_height as int,
                dst_width as int,
                dst_height as int,
            ) + (i % row_len) % 3],
    )
}

proof fn lemma_index_split(y: int, x: int, c: int, dst_width: int)
    requires
        0 <= y,
        0 <= x < dst_width,
        0 <= c < 3,
    ensures
        ({
            let i = y * (dst_width * 3) + x * 3 + c;
            &&& i / (dst_width * 3) == y
            &&& (i % (dst_width * 3)) / 3 == x
            &&& (i % (dst_width * 3)) % 3 == c
        }),
{
    let m = dst_width * 3;
    let i = y * m + x * 3 + c;
    vstd::arithmetic::div_mod::lemma_fundamental_div_mod_converse(i, m, y, x * 3 + c);
    vstd::arithmetic::div_mod::lemma_fundamental_div_mod_converse(x * 3 + c, 3, x, c);
}

/// Nearest-neighbour downscaling of an RGB8 frame to `dst_width` by `dst_height`.
pub fn thumbnail_rgb8_pixels(
    src: &[u8],
    src_width: u32,
    src_height: u32,
    dst_width: u32,
    dst_height: u32,
) -> (dst: Vec<u8>)
    requires
        thumbnail_in_bounds(src@.len(), src_width, src_height, dst_width, dst_height),
    ensures
        dst@ == thumbnail_pixels(src@, src_width, src_height, dst_width, dst_height),
{
    let ghost spec_dst = thumbnail_pixels(src@, src_width, src_height, dst_width, dst_height);
    let ghost row_len: int = dst_width * 3;
    assert(dst_width * dst_height <= dst_width * dst_height * 3) by (nonlinear_arith);
    let dst_size = (dst_width * dst_height * 3) as usize;
    let src_len = src.len();
    assert(dst_width * dst_height * 3 == dst_height * row_len) by (nonlinear_arith)
        requires
            row_len == dst_width * 3,
    ;
    let mut dst = vec![0u8; dst_size];
    let mut y: u32 = 0;
    while y < dst_height
        invariant
            thumbnail_in_bounds(src@.len(), src_width, src_height, dst_width, dst_height),
            spec_dst == thumbnail_pixels(src@, src_width, src_height, dst_width, dst_height),
            row_len == dst_width * 3,
            dst_size == dst_width * dst_height * 3,
            dst_size == dst_height * row_len,
            src_len == src@.len(),
            dst@.len() == dst_size,
            y <= dst_height,
            forall|i: int| 0 <= i < y * row_len ==> dst@[i] == spec_dst[i],
        decreases dst_height - y,
    {
        assert(row_in_range(y as int, src_width as int, src_height as int, dst_height as int));
        assert((y + 1) * row_len <= dst_height * row_len) by (nonlinear_arith)
            requires
                y + 1 <= dst_height,
                row_len >= 0,
        ;
        assert(dst_width * dst_height * 3 == dst_height * row_len) by (nonlinear_arith)
            requires
                row_len == dst_width * 3,
        ;
        assert((y + 1) * row_len == y * row_len + row_len) by (nonlinear_arith);
        let sy = y * src_height / dst_height;
        let src_y = if sy < src_height - 1 {
            sy
        } else {
            src_height - 1
        };
        assert(src_y == source_row(y as int, src_height as int, dst_height as int));
        let src_row = (src_y * src_width * 3) as usize;
        assert(y * dst_width * 3 == y * row_len) by (nonlinear_arith)
            requires
                row_len == dst_width * 3,
        ;
        let dst_row = (y * dst_width * 3) as usize;
        let mut x: u32 = 0;
        while x < dst_width
            invariant
                thumbnail_in_bounds(src@.len(), src_width, src_height, dst_width, dst_height),
                spec_dst == thumbnail_pixels(src@, src_width, src_height, dst_width, dst_height),
                row_len == dst_width * 3,
                dst_size == dst_width * dst_height * 3,
                dst_size == dst_height * row_len,
                src_len == src@.len(),
                dst@.len() == dst_size,
                y < dst_height,
                (y + 1) * row_len <= dst_size,
                (y + 1) * row_len == y * row_len + row_len,
                dst_row == y * row_len,
                src_y == source_row(y as int, src_height as int, dst_height as int),
                src_row == src_y * src_width * 3,
                x <= dst_width,
                forall|i: int| 0 <= i < y * row_len + x * 3 ==> dst@[i] == spec_dst[i],
            decreases dst_width - x,
        {
            assert(column_in_range(x as int, src_width as int, dst_width as int));
            assert(source_index(
                x as int,
                y as int,
                src_width as int,
                src_height as int,
                dst_width as int,
                dst_height as int,
            ) + 2 < src@.len());
            let sx = x * src_width / dst_width;
            let src_x = if sx < src_width - 1 {
                sx
            } else {
                src_width - 1
            };
            assert(src_x == source_column(x as int, src_width as int, dst_width as int));
            let si = src_row + (src_x * 3) as usize;
            let di = dst_row + (x * 3) as usize;
            proof {
                lemma_index_split(y as int, x as int, 0, dst_width as int);
                lemma_index_split(y as int, x as int, 1, dst_width as int);
                lemma_index_split(y as int, x as int, 2, dst_width as int);
            }
            dst[di] = src[si];
            dst[di + 1] = src[si + 1];
            dst[di + 2] = src[si + 2];
            assert(forall|i: int|
                0 <= i < y * row_len + (x + 1) * 3 ==> dst@[i] == spec_dst[i]) by {
                assert forall|i: int| 0 <= i < y * row_len + (x + 1) * 3 implies dst@[i]
                    == spec_dst[i] by {
                    if i >= y * row_len + x * 3 {
                        let c = i - (y * row_len + x * 3);
                        assert(i == y * (dst_width * 3) + x * 3 + c);
                    }
                }
            }
            x = x + 1;
        }
        y = y + 1;
    }
    assert(dst@ =~= spec_dst);
    dst
}

/// Whether thumbnailing a source of `src_len` bytes stays within bounds, so that a
/// caller can test the condition before it asks for a thumbnail.
pub fn thumbnail_fits(
    src_len: usize,
    src_width: u32,
    src_height: u32,
    dst_width: u32,
    dst_height: u32,
) -> (fits: bool)
    ensures
        fits == thumbnail_in_bounds(src_len as nat, src_width, src_height, dst_width, dst_height),
{
    let p = match dst_width.checked_mul(dst_height) {
        None => {
            assert(dst_width as int * dst_height as int <= dst_width as int * dst_height as int * 3) by (nonlinear_arith)
                requires
                    dst_width as int >= 0,
                    dst_height as int >= 0,
            ;
            return false;
        },
        Some(p) => p,
    };
    if p.checked_mul(3).is_none() {
        return false;
    }
    if dst_height == 0 {
        return true;
    }
    if src_height < 1 {
        return false;
    }
    let mut max_row: u32 = 0;
    let mut y: u32 = 0;
    while y < dst_height
        invariant
            y <= dst_height,
            dst_height as int > 0,
            src_height as int >= 1,
            dst_width as int * dst_height as int * 3 <= u32::MAX,
            forall|y2: int|
                0 <= y2 < y ==> #[trigger] row_in_range(y2, src_width as int, src_height as int, dst_height as int) && row_offset(
                    y2,
                    src_width as int,
                    src_height as int,
                    dst_height as int,
                ) <= max_row,
            y > 0 ==> exists|y2: int|
                0 <= y2 < y && #[trigger] row_offset(y2, src_width as int, src_height as int, dst_height as int) == max_row,
        decreases dst_height - y,
    {
        let a = match y.checked_mul(src_height) {
            None => {
                assert(!row_in_range(y as int, src_width as int, src_height as int, dst_height as int));
                return false;
            },
            Some(a) => a,
        };
        let sy = a / dst_height;
        let src_y = if sy < src_height - 1 {
            sy
        } else {
            src_height - 1
        };
        assert(src_y == source_row(y as int, src_height as int, dst_height as int));
        let r = match src_y.checked_mul(src_width) {
            None => {
                assert(src_y * src_width as int <= src_y * src_width as int * 3) by (nonlinear_arith)
                    requires
                        src_y >= 0,
                        src_width as int >= 0,
                ;
                assert(!row_in_range(y as int, src_width as int, src_height as int, dst_height as int));
                return false;
            },
            Some(b) => match b.checked_mul(3) {
                None => {
                    assert(!row_in_range(y as int, src_width as int, src_height as int, dst_height as int));
                    return false;
                },
                Some(r) => r,
            },
        };
        assert(row_in_range(y as int, src_width as int, src_height as int, dst_height as int));
        assert(row_offset(y as int, src_width as int, src_height as int, dst_height as int) == r);
        let ghost old_max = max_row;
        if r > max_row || y == 0 {
            max_row = r;
        }
        assert forall|y2: int| 0 <= y2 < y + 1 implies #[trigger] row_in_range(
            y2,
            src_width as int,
            src_height as int,
            dst_height as int,
        ) && row_offset(y2, src_width as int, src_height as int, dst_height as int)
            <= max_row by {
            if y2 < y {
                assert(row_in_range(y2, src_width as int, src_height as int, dst_height as int));
                assert(row_offset(y2, src_width as int, src_height as int, dst_height as int)
                    <= old_max);
            }
        }
        y = y + 1;
    }
    if dst_width == 0 {
        return true;
    }
    if src_width < 1 {
        return false;
    }
    let mut max_col: u32 = 0;
    let mut x: u32 = 0;
    while x < dst_width
        invariant
            x <= dst_width,
            dst_height > 0,
            src_height >= 1,
            dst_width as int * dst_height as int * 3 <= u32::MAX,
            forall|y2: int|
                0 <= y2 < dst_height ==> #[trigger] row_in_range(
                    y2,
                    src_width as int,
                    src_height as int,
                    dst_height as int,
                ) && row_offset(y2, src_width as int, src_height as int, dst_height as int)
                    <= max_row,
            exists|y2: int|
                0 <= y2 < dst_height && #[trigger] row_offset(
                    y2,
                    src_width as int,
                    src_height as int,
                    dst_height as int,
                ) == max_row,
            dst_width as int > 0,
            src_width as int >= 1,
            forall|x2: int|
                0 <= x2 < x ==> #[trigger] column_in_range(x2, src_width as int, dst_width as int) && column_offset(x2, src_width as int, dst_width as int)
                    <= max_col,
            x > 0 ==> exists|x2: int|
                0 <= x2 < x && #[trigger] column_offset(x2, src_width as int, dst_width as int) == max_col,
        decreases dst_width - x,
    {
        let a = match x.checked_mul(src_width) {
            None => {
                assert(!column_in_range(x as int, src_width as int, dst_width as int));
                return false;
            },
            Some(a) => a,
        };
        let sx = a / dst_width;
        let src_x = if sx < src_width - 1 {
            sx
        } else {
            src_width - 1
        };
        assert(src_x == source_column(x as int, src_width as int, dst_width as int));
        let c = match src_x.checked_mul(3) {
            None => {
                assert(!column_in_range(x as int, src_width as int, dst_width as int));
                return false;
            },
            Some(c) => c,
        };
        assert(column_in_range(x as int, src_width as int, dst_width as int));
        assert(column_offset(x as int, src_width as int, dst_width as int) == c);
        let ghost old_max = max_col;
        if c > max_col || x == 0 {
            max_col = c;
        }
        assert forall|x2: int| 0 <= x2 < x + 1 implies #[trigger] column_in_range(
            x2,
            src_width as int,
            dst_width as int,
        ) && column_offset(x2, src_width as int, dst_width as int) <= max_col by {
            if x2 < x {
                assert(column_in_range(x2, src_width as int, dst_width as int));
                assert(column_offset(x2, src_width as int, dst_width as int) <= old_max);
            }
        }
        x = x + 1;
    }
    let fits = (max_row as u64) + (max_col as u64) + 2 < (src_len as u64);
    proof {
        let yw = choose|y2: int| 0 <= y2 < dst_height as int && #[trigger] row_offset(y2, src_width as int, src_height as int, dst_height as int) == max_row;
        let xw = choose|x2: int| 0 <= x2 < dst_width as int && #[trigger] column_offset(x2, src_width as int, dst_width as int) == max_col;
        assert(source_index(xw, yw, src_width as int, src_height as int, dst_width as int, dst_height as int) == max_row + max_col);
        if fits {
            assert forall|x2: int, y2: int| 0 <= x2 < dst_width as int && 0 <= y2 < dst_height as int implies #[trigger] source_index(
                x2,
                y2,
                src_width as int,
                src_height as int,
                dst_width as int,
                dst_height as int,
            ) + 2 < src_len by {
                assert(row_in_range(y2, src_width as int, src_height as int, dst_height as int));
                assert(column_in_range(x2, src_width as int, dst_width as int));
            }
        }
    }
    fits
}

/// A thumbnail of the frame's own size is the frame itself.
pub proof fn lemma_same_size_thumbnail_is_frame(src: Seq<u8>, width: u32, height: u32)
    requires
        src.len() == width * height * 3,
    ensures
        thumbnail_pixels(src, width, height, width, height) == src,
{
    let m = width * 3;
    let t = thumbnail_pixels(src, width, height, width, height);
    assert forall|i: int| 0 <= i < src.len() implies t[i] == src[i] by {
        assert(width > 0 && height > 0) by (nonlinear_arith)
            requires
                0 <= i < width * height * 3,
        ;
        let y = i / m;
        let r = i % m;
        vstd::arithmetic::div_mod::lemma_fundamental_div_mod(i, m);
        vstd::arithmetic::div_mod::lemma_fundamental_div_mod(r, 3);
        assert(i == y * m + (r / 3) * 3 + r % 3) by (nonlinear_arith)
            requires
                i == m * y + r,
                r == 3 * (r / 3) + r % 3,
        ;
        assert(y < height) by (nonlinear_arith)
            requires
                i == m * y + r,
                0 <= r,
                i < width * height * 3,
                m == width * 3,
        ;
        assert(y * height / (height as int) == y) by {
            vstd::arithmetic::div_mod::lemma_div_multiples_vanish(y, height as int);
            assert(y * height == height * y) by (nonlinear_arith);
        }
        assert(r / 3 < width) by (nonlinear_arith)
            requires
                r < m,
                m == width * 3,
                r == 3 * (r / 3) + r % 3,
                0 <= r % 3,
        ;
        assert((r / 3) * width / (width as int) == r / 3) by {
            vstd::arithmetic::div_mod::lemma_div_multiples_vanish(r / 3, width as int);
            assert((r / 3) * width == width * (r / 3)) by (nonlinear_arith);
        }
        assert(source_index(r / 3, y, width as int, height as int, width as int, height as int)
            == y * width * 3 + (r / 3) * 3);
        assert(y * width * 3 == y * m) by (nonlinear_arith)
            requires
                m == width * 3,
        ;
    }
    assert(t =~= src);
}

/// The thumbnail of an RGB8 frame as a picture.
pub fn thumbnail_rgb8(
    src: &[u8],
    src_width: u32,
    src_height: u32,
    dst_width: u32,
    dst_height: u32,
) -> (thumbnail: Option<DynamicImage>)
    requires
        thumbnail_in_bounds(src@.len(), src_width, src_height, dst_width, dst_height),
    ensures
        thumbnail == Some(
            rgb8_image(
                dst_width,
                dst_height,
                thumbnail_pixels(src@, src_width, src_height, dst_width, dst_height),
            ),
        ),
{
    let dst = thumbnail_rgb8_pixels(src, src_width, src_height, dst_width, dst_height);
    assert(3 * dst_width * dst_height == dst_width * dst_height * 3) by (nonlinear_arith);
    rgb8_image_from_raw(dst_width, dst_height, dst)
}


/// The picture shown for a frame: a thumbnail of `THUMBNAIL_WIDTH` by
/// `THUMBNAIL_HEIGHT`. Only frames in the internal RGB8 format are covered: other
/// formats would first go through a colour conversion, and V210 to RGB8 is not written.
pub fn create_dynamic_image(frame_format: VideoFrameFormat, input_buffer: &[u8]) -> (image: Result<
    DynamicImage,
>)
    requires
        frame_format.pixel_format == INTERNAL_PIXEL_FORMAT,
        thumbnail_in_bounds(
            input_buffer@.len(),
            frame_format.width as u32,
            frame_format.height as u32,
            THUMBNAIL_WIDTH,
            THUMBNAIL_HEIGHT,
        ),
    ensures
        image == Ok::<DynamicImage, Error>(
            rgb8_image(
                THUMBNAIL_WIDTH,
                THUMBNAIL_HEIGHT,
                thumbnail_pixels(
                    input_buffer@,
                    frame_format.width as u32,
                    frame_format.height as u32,
                    THUMBNAIL_WIDTH,
                    THUMBNAIL_HEIGHT,
                ),
            ),
        ),
{
    let w = frame_format.width as u32;
    let h = frame_format.height as u32;
    match thumbnail_rgb8(input_buffer, w, h, THUMBNAIL_WIDTH, THUMBNAIL_HEIGHT) {
        Some(thumbnail) => Ok(thumbnail),
        None => Err(Error::NoDynamicImage),
    }
}

/// The tape's answer to a frame that the file loader handed out: a picture for a
/// block that was read, nothing for a failed read or the end of the file.
pub fn frame_event<E>(frame_format: VideoFrameFormat, frame: Option<
    std::result::Result<FileBuffer, E>,
>) -> (event: Option<FrameReceiverEvent>)
    requires
        frame matches Some(Ok(f)) ==> frame_format.pixel_format == INTERNAL_PIXEL_FORMAT
            && thumbnail_in_bounds(
            f@.len(),
            frame_format.width as u32,
            frame_format.height as u32,
            THUMBNAIL_WIDTH,
            THUMBNAIL_HEIGHT,
        ),
    ensures
        event == match frame {
            Some(Ok(f)) => Some(
                FrameReceiverEvent::Frame(
                    rgb8_image(
                        THUMBNAIL_WIDTH,
                        THUMBNAIL_HEIGHT,
                        thumbnail_pixels(
                            f@,
                            frame_format.width as u32,
                            frame_format.height as u32,
                            THUMBNAIL_WIDTH,
                            THUMBNAIL_HEIGHT,
                        ),
                    ),
                ),
            ),
            _ => None,
        },
{
    match frame {
        Some(Ok(f)) => match create_dynamic_image(frame_format, f.data()) {
            Ok(img) => Some(FrameReceiverEvent::Frame(img)),
            Err(err) => Some(FrameReceiverEvent::Error(err)),
        },
        _ => None,
    }
}

} // verus!
