pub mod caps;
pub mod convert;

pub use caps::{PixelFormat, VideoFrameFormat};
pub use convert::convert_frame;
