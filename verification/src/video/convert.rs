use vstd::prelude::*;

use super::caps::{PixelFormat, VideoFrameFormat};

verus! {

/// Converts a frame from one pixel format to another. Frames whose formats agree
/// are copied unchanged; V210 to RGB8 is not written yet and RGB8 to V210 is not
/// supported, so those pairs are outside the contract.
pub fn convert_frame(
    input_frame_format: VideoFrameFormat,
    input_buffer: &[u8],
    output_frame_format: VideoFrameFormat,
    output_buffer: &mut [u8],
)
    requires
        !(input_frame_format.pixel_format == PixelFormat::V210
            && output_frame_format.pixel_format == PixelFormat::RGB8),
        !(input_frame_format.pixel_format == PixelFormat::RGB8
            && output_frame_format.pixel_format == PixelFormat::V210),
        input_buffer@.len() == old(output_buffer)@.len(),
    ensures
        final(output_buffer)@ == input_buffer@,
{
    identity(input_buffer, output_buffer)
}

fn identity(input_buffer: &[u8], output_buffer: &mut [u8])
    requires
        input_buffer@.len() == old(output_buffer)@.len(),
    ensures
        final(output_buffer)@ == input_buffer@,
{
    let n = input_buffer.len();
    let mut i: usize = 0;
    while i < n
        invariant
            n == input_buffer@.len(),
            output_buffer@.len() == n,
            i <= n,
            forall|j: int| 0 <= j < i ==> output_buffer@[j] == input_buffer@[j],
        decreases n - i,
    {
        output_buffer[i] = input_buffer[i];
        i = i + 1;
    }
    assert(output_buffer@ =~= input_buffer@);
}

/// Placeholder of the V210 to RGB8 conversion: it leaves the output as it is.
#[allow(dead_code)]
fn v210_to_rgb8(input_buffer: &[u8], output_buffer: &mut [u8])
    ensures
        final(output_buffer)@ == old(output_buffer)@,
{
}

} // verus!
