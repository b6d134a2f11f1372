use vstd::prelude::*;

pub use crate::event_systems::tape::{FrameReceiverEvent, TapeEvent};

use crate::error::Error;
use crate::file_loader::FileBuffer;
use crate::rgb_image::{rgb8_image, rgb8_image_from_raw};

verus! {

pub const FULL_HD_WIDTH: u32 = 1920;

pub const FULL_HD_HEIGHT: u32 = 1080;

/// The first tape's answer to a block: the block taken as a 1920 by 1080 RGB8 picture,
/// or `InvalidBufferSize` when the block is too small for one.
pub fn frame_event_full_hd(frame: &FileBuffer) -> (event: FrameReceiverEvent)
    ensures
        3 * FULL_HD_WIDTH * FULL_HD_HEIGHT <= frame@.len() ==> event == FrameReceiverEvent::Frame(
            rgb8_image(FULL_HD_WIDTH, FULL_HD_HEIGHT, frame@),
        ),
        3 * FULL_HD_WIDTH * FULL_HD_HEIGHT > frame@.len() ==> event == FrameReceiverEvent::Error(
            Error::InvalidBufferSize,
        ),
{
    let data = vstd::slice::slice_to_vec(frame.data());
    match rgb8_image_from_raw(FULL_HD_WIDTH, FULL_HD_HEIGHT, data) {
        Some(img) => FrameReceiverEvent::Frame(img),
        None => FrameReceiverEvent::Error(Error::InvalidBufferSize),
    }
}

} // verus!
