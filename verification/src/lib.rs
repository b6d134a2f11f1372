//! Core logic of a terminal viewer for raw video files: frame geometry, the
//! block-by-block file cursor, the thumbnailing of RGB8 frames, the tape that
//! turns file blocks into pictures, the application's event handling and the
//! pop-up state of the user interface.

pub mod app;
pub mod error;
pub mod event;
pub mod event_systems;
pub mod file_loader;
pub mod rgb_image;
pub mod tape;
pub mod ui;
pub mod video;
