use image::DynamicImage;
use tapeview::error::Error;
use tapeview::event_systems::tape::{
    create_dynamic_image, frame_event, thumbnail_fits, thumbnail_rgb8, thumbnail_rgb8_pixels,
    FrameReceiverEvent, THUMBNAIL_HEIGHT, THUMBNAIL_WIDTH,
};
use tapeview::file_loader::FileBuffer;
use tapeview::tape::frame_event_full_hd;
use tapeview::video::{PixelFormat, VideoFrameFormat};

fn pixel(x: u8, y: u8) -> [u8; 3] {
    [x, y, x ^ y]
}

fn source(width: u8, height: u8) -> Vec<u8> {
    let mut src = Vec::new();
    for y in 0..height {
        for x in 0..width {
            src.extend_from_slice(&pixel(x, y));
        }
    }
    src
}

#[test]
fn halving_takes_every_other_pixel() {
    let src = source(4, 4);
    let dst = thumbnail_rgb8_pixels(&src, 4, 4, 2, 2);
    let mut expected = Vec::new();
    for (x, y) in [(0, 0), (2, 0), (0, 2), (2, 2)] {
        expected.extend_from_slice(&pixel(x, y));
    }
    assert_eq!(dst, expected);
}

#[test]
fn enlarging_repeats_pixels() {
    let src = source(2, 1);
    let dst = thumbnail_rgb8_pixels(&src, 2, 1, 4, 2);
    let mut expected = Vec::new();
    for _ in 0..2 {
        for x in [0, 0, 1, 1] {
            expected.extend_from_slice(&pixel(x, 0));
        }
    }
    assert_eq!(dst, expected);
}

#[test]
fn odd_ratio_uses_floor_of_scaled_position() {
    let src = source(5, 1);
    let dst = thumbnail_rgb8_pixels(&src, 5, 1, 3, 1);
    let mut expected = Vec::new();
    for x in [0, 1, 3] {
        expected.extend_from_slice(&pixel(x, 0));
    }
    assert_eq!(dst, expected);
}

#[test]
fn empty_thumbnail() {
    let dst = thumbnail_rgb8_pixels(&[], 0, 0, 0, 0);
    assert!(dst.is_empty());
}

#[test]
fn fits_checks_source_length() {
    assert!(thumbnail_fits(48, 4, 4, 2, 2));
    assert!(!thumbnail_fits(47, 4, 4, 4, 4));
    assert!(thumbnail_fits(48, 4, 4, 4, 4));
    assert!(thumbnail_fits(0, 0, 0, 0, 0));
    assert!(!thumbnail_fits(100, 4, 0, 2, 2));
    assert!(!thumbnail_fits(100, 0, 4, 2, 2));
    assert!(thumbnail_fits(100, 0, 4, 0, 2));
    assert!(!thumbnail_fits(usize::MAX, 1, 1, 65536, 65536));
    assert!(thumbnail_fits(1920 * 1080 * 3, 1920, 1080, 1280, 720));
    assert!(thumbnail_fits(6_215_037, 1920, 1080, 1280, 720));
    assert!(!thumbnail_fits(6_215_036, 1920, 1080, 1280, 720));
}

#[test]
fn fits_rejects_row_overflow() {
    assert!(!thumbnail_fits(usize::MAX, 70_000, 70_000, 1, 2));
}

#[test]
fn thumbnail_image_holds_the_pixels() {
    let src = source(4, 4);
    let image = thumbnail_rgb8(&src, 4, 4, 2, 2).unwrap();
    let rgb = image.as_rgb8().unwrap();
    assert_eq!(rgb.width(), 2);
    assert_eq!(rgb.height(), 2);
    assert_eq!(rgb.as_raw(), &thumbnail_rgb8_pixels(&src, 4, 4, 2, 2));
}

#[test]
fn dynamic_image_is_a_thumbnail() {
    let format = VideoFrameFormat { pixel_format: PixelFormat::RGB8, width: 4, height: 2 };
    let src = source(4, 2);
    let image = create_dynamic_image(format, &src).unwrap();
    let rgb = image.as_rgb8().unwrap();
    assert_eq!(rgb.width(), THUMBNAIL_WIDTH);
    assert_eq!(rgb.height(), THUMBNAIL_HEIGHT);
    assert_eq!(rgb.get_pixel(0, 0).0, pixel(0, 0));
    assert_eq!(rgb.get_pixel(1279, 719).0, pixel(3, 1));
    assert_eq!(rgb.get_pixel(640, 0).0, pixel(2, 0));
}

#[test]
fn frame_event_for_block_failure_and_end() {
    let format = VideoFrameFormat { pixel_format: PixelFormat::RGB8, width: 2, height: 2 };
    let block = FileBuffer::new(&source(2, 2));
    match frame_event::<()>(format, Some(Ok(block))) {
        Some(FrameReceiverEvent::Frame(image)) => assert_eq!(image.width(), THUMBNAIL_WIDTH),
        _ => panic!("a block should give a frame"),
    }
    assert!(frame_event::<()>(format, Some(Err(()))).is_none());
    assert!(frame_event::<()>(format, None).is_none());
}

#[test]
fn full_hd_frame_event() {
    let too_small = FileBuffer::new(&[0u8; 10]);
    assert!(matches!(
        frame_event_full_hd(&too_small),
        FrameReceiverEvent::Error(Error::InvalidBufferSize)
    ));
    let data = vec![7u8; 1920 * 1080 * 3];
    let whole = FileBuffer::new(&data);
    match frame_event_full_hd(&whole) {
        FrameReceiverEvent::Frame(DynamicImage::ImageRgb8(rgb)) => {
            assert_eq!(rgb.dimensions(), (1920, 1080));
            assert_eq!(rgb.get_pixel(5, 5).0, [7, 7, 7]);
        }
        _ => panic!("a whole frame should give a picture"),
    }
}

#[test]
fn same_size_thumbnail_is_the_frame() {
    let src = source(5, 3);
    assert_eq!(thumbnail_rgb8_pixels(&src, 5, 3, 5, 3), src);
}
