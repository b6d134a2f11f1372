use tapeview::ui::layout::Area;
use tapeview::ui::popups::{popup_area, CurrentPopUp, PopUp, PopUpState, VisiblePopUp};
use tapeview::video::{PixelFormat, VideoFrameFormat};

#[test]
fn initially_none() {
    let state = PopUpState::default();
    assert_eq!(state.current_pop_up(), CurrentPopUp::NoPopUp);
}

#[test]
fn show_help_does_not_show_info() {
    let mut state = PopUpState::default();
    state.show_help();
    assert_eq!(state.current_pop_up(), CurrentPopUp::Help);
}

#[test]
fn show_info_does_not_show_help() {
    let mut state = PopUpState::default();
    state.show_info();
    assert_eq!(state.current_pop_up(), CurrentPopUp::Info);
}

#[test]
fn show_help_shows_only_help() {
    let mut state = PopUpState::default();
    state.show_info();
    state.show_help();
    assert_eq!(state.current_pop_up(), CurrentPopUp::Help);
}

#[test]
fn show_info_shows_only_info() {
    let mut state = PopUpState::default();
    state.show_help();
    state.show_info();
    assert_eq!(state.current_pop_up(), CurrentPopUp::Info);
}

#[test]
fn exit_clears_both() {
    let mut state = PopUpState::default();
    state.show_help();
    state.show_info();
    state.exit();
    assert_eq!(state.current_pop_up(), CurrentPopUp::NoPopUp);
}

fn full_hd() -> VideoFrameFormat {
    VideoFrameFormat { pixel_format: PixelFormat::RGB8, width: 1920, height: 1080 }
}

#[test]
fn with_frame_format_starts_closed_and_keeps_format() {
    let mut state = PopUpState::with_frame_format(full_hd());
    assert_eq!(state.current_pop_up(), CurrentPopUp::NoPopUp);
    state.show_info();
    state.exit();
    let format = state.frame_format().unwrap();
    assert_eq!(format.width, 1920);
    assert_eq!(format.height, 1080);
    assert_eq!(format.pixel_format, PixelFormat::RGB8);
}

#[test]
fn visible_pop_up_follows_state() {
    let popup = PopUp::new();
    let mut state = PopUpState::with_frame_format(full_hd());
    assert!(matches!(popup.visible(&state), VisiblePopUp::Hidden));
    state.show_help();
    assert!(matches!(popup.visible(&state), VisiblePopUp::Help(_)));
    state.show_info();
    match popup.visible(&state) {
        VisiblePopUp::Info(info) => assert_eq!(info.video_frame_format().width, 1920),
        _ => panic!("the information pop-up should be visible"),
    }
}

#[test]
fn info_without_format_shows_nothing() {
    let popup = PopUp::new();
    let mut state = PopUpState::default();
    state.show_info();
    assert!(matches!(popup.visible(&state), VisiblePopUp::Hidden));
}

#[test]
fn popup_area_sits_at_right_edge() {
    let area = Area { x: 5, y: 7, width: 100, height: 40 };
    assert_eq!(popup_area(area), Area { x: 68, y: 1, width: 32, height: 38 });
    let small = Area { x: 0, y: 0, width: 10, height: 1 };
    assert_eq!(popup_area(small), Area { x: 0, y: 1, width: 32, height: 0 });
}
