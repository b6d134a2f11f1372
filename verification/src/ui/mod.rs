pub mod layout;
pub mod popups;
pub mod video_player;

pub use layout::Area;
pub use popups::{PopUp, PopUpState};
pub use video_player::VideoPlayer;
