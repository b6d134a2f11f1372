use tapeview::app::{App, AppAction};
use tapeview::event::{AppEvent, KeyCode, KeyEvent, KeyEventKind};
use tapeview::event_systems::tape::TapeEvent;
use tapeview::ui::layout::Area;
use tapeview::ui::video_player::VideoPlayer;

fn press(code: KeyCode) -> KeyEvent {
    KeyEvent { code, kind: KeyEventKind::Press }
}

#[test]
fn keys_map_to_events() {
    let app = App::new();
    assert!(matches!(app.handle_terminal_key(&press(KeyCode::Esc)), Some(AppEvent::Quit)));
    assert!(matches!(app.handle_terminal_key(&press(KeyCode::Char('q'))), Some(AppEvent::Quit)));
    assert!(matches!(app.handle_terminal_key(&press(KeyCode::Right)), Some(AppEvent::NextFrame)));
    assert!(matches!(app.handle_terminal_key(&press(KeyCode::Left)), Some(AppEvent::PreviousFrame)));
    assert!(app.handle_terminal_key(&press(KeyCode::Char('h'))).is_none());
    assert!(app.handle_terminal_key(&press(KeyCode::Other)).is_none());
}

#[test]
fn releases_are_ignored() {
    let app = App::new();
    let release = KeyEvent { code: KeyCode::Esc, kind: KeyEventKind::Release };
    assert!(app.handle_terminal_key(&release).is_none());
    assert!(matches!(app.handle_key_event(&release), Some(AppEvent::Quit)));
}

#[test]
fn quit_stops() {
    let mut app = App::new();
    assert!(app.is_running());
    assert!(matches!(app.handle_app_event(AppEvent::Quit), AppAction::Nothing));
    assert!(!app.is_running());
    app.handle_app_event(AppEvent::NextFrame);
    assert!(!app.is_running());
}

#[test]
fn one_frame_request_at_a_time() {
    let mut app = App::new();
    assert!(matches!(
        app.handle_app_event(AppEvent::NextFrame),
        AppAction::SendTapeEvent(TapeEvent::NextFrame)
    ));
    assert!(matches!(app.handle_app_event(AppEvent::NextFrame), AppAction::Nothing));
    let image = image::DynamicImage::new_rgb8(1, 1);
    assert!(matches!(
        app.handle_app_event(AppEvent::FrameReady(image)),
        AppAction::PresentFrame(_)
    ));
    assert!(matches!(
        app.handle_app_event(AppEvent::NextFrame),
        AppAction::SendTapeEvent(TapeEvent::NextFrame)
    ));
}

#[test]
fn previous_frame_does_nothing() {
    let mut app = App::new();
    assert!(matches!(app.handle_app_event(AppEvent::PreviousFrame), AppAction::Nothing));
    assert!(app.request_next_frame());
    assert!(!app.request_next_frame());
    app.present_next_frame();
    assert!(app.request_next_frame());
}

#[test]
fn image_is_centred() {
    let player = VideoPlayer::new();
    let area = Area { x: 2, y: 3, width: 100, height: 50 };
    assert_eq!(player.image_area(area, 40, 20), Area { x: 32, y: 18, width: 40, height: 20 });
    assert_eq!(player.image_area(area, 120, 60), Area { x: 2, y: 3, width: 120, height: 60 });
}

#[test]
fn area_is_clipped_to_coordinate_range() {
    assert_eq!(Area::new(65_530, 10, 20, 5), Area { x: 65_530, y: 10, width: 5, height: 5 });
}
