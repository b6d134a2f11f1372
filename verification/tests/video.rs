use tapeview::video::caps::build_frame_format;
use tapeview::video::{convert_frame, PixelFormat, VideoFrameFormat};

#[test]
fn pixel_sizes() {
    assert_eq!(PixelFormat::RGB8.pixel_size_bytes(), 3);
    assert_eq!(PixelFormat::V210.pixel_size_bytes(), 0);
}

#[test]
fn rgb8_frame_size() {
    let format = VideoFrameFormat { pixel_format: PixelFormat::RGB8, width: 1920, height: 1080 };
    assert!(format.frame_size_fits());
    assert_eq!(format.frame_size(), 1920 * 1080 * 3);
}

#[test]
fn v210_frame_size_rounds_groups_up() {
    let format = VideoFrameFormat { pixel_format: PixelFormat::V210, width: 1920, height: 1080 };
    assert_eq!(format.frame_size(), 320 * 16 * 1080);
    let odd = VideoFrameFormat { pixel_format: PixelFormat::V210, width: 7, height: 2 };
    assert_eq!(odd.frame_size(), 2 * 16 * 2);
    let empty = VideoFrameFormat { pixel_format: PixelFormat::V210, width: 0, height: 5 };
    assert_eq!(empty.frame_size(), 0);
}

#[test]
fn largest_frame_fits_on_this_machine() {
    let format = VideoFrameFormat { pixel_format: PixelFormat::RGB8, width: u16::MAX, height: u16::MAX };
    assert_eq!(format.frame_size_fits(), usize::BITS >= 64);
}

#[test]
fn build_frame_format_keeps_fields() {
    let format = build_frame_format(PixelFormat::V210, 640, 480);
    assert_eq!(format.pixel_format, PixelFormat::V210);
    assert_eq!(format.width, 640);
    assert_eq!(format.height, 480);
}

#[test]
fn convert_same_format_copies() {
    let format = VideoFrameFormat { pixel_format: PixelFormat::RGB8, width: 2, height: 1 };
    let input = [1u8, 2, 3, 4, 5, 6];
    let mut output = [0u8; 6];
    convert_frame(format, &input, format, &mut output);
    assert_eq!(output, input);
}
