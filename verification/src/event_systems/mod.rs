pub mod tape;

pub use tape::{FrameReceiverEvent, TapeEvent};
