use vstd::prelude::*;

verus! {

/// Failures that the library's own logic reports.
#[derive(Debug, Clone, Copy, PartialEq, Eq, Structural)]
pub enum Error {
    /// The event queue has no more events.
    NoEvents,
    /// A frame buffer is too small for the picture it should hold.
    InvalidBufferSize,
    /// No picture could be made of a frame.
    NoDynamicImage,
}

pub type Result<T> = std::result::Result<T, Error>;

} // verus!
