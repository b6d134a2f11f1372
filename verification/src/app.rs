use vstd::prelude::*;

use image::DynamicImage;

use crate::event::{AppEvent, KeyCode, KeyEvent, KeyEventKind};
use crate::event_systems::tape::TapeEvent;

verus! {

/// The decisions of the viewer: whether it still runs, and whether a frame it asked
/// the tape for has not come back yet.
pub struct App {
    running: bool,
    frame_request_in_flight: bool,
}

/// What the viewer does after an event.
pub enum AppAction {
    Nothing,
    SendTapeEvent(TapeEvent),
    PresentFrame(DynamicImage),
}

/// The event that a key stands for: Esc and `q` quit, the right arrow asks for the next
/// frame and the left arrow for the previous one.
pub open spec fn key_meaning(code: KeyCode) -> Option<AppEvent> {
    match code {
        KeyCode::Esc => Some(AppEvent::Quit),
        KeyCode::Char(c) => if c == 'q' {
            Some(AppEvent::Quit)
        } else {
            None
        },
        KeyCode::Right => Some(AppEvent::NextFrame),
        KeyCode::Left => Some(AppEvent::PreviousFrame),
        _ => None,
    }
}

impl App {
    pub closed spec fn running(self) -> bool {
        self.running
    }

    pub closed spec fn request_in_flight(self) -> bool {
        self.frame_request_in_flight
    }

    /// The viewer after an event, and what it does.
    pub closed spec fn after(self, event: AppEvent) -> (App, AppAction) {
        match event {
            AppEvent::Quit => (App { running: false, ..self }, AppAction::Nothing),
            AppEvent::NextFrame => if self.frame_request_in_flight {
                (self, AppAction::Nothing)
            } else {
                (
                    App { frame_request_in_flight: true, ..self },
                    AppAction::SendTapeEvent(TapeEvent::NextFrame),
                )
            },
            AppEvent::PreviousFrame => (self, AppAction::Nothing),
            AppEvent::FrameReady(image) => (
                App { frame_request_in_flight: false, ..self },
                AppAction::PresentFrame(image),
            ),
            AppEvent::InternalError(_) => (self, AppAction::Nothing),
        }
    }

    /// A running viewer with no frame asked for.
    pub fn new() -> (app: Self)
        ensures
            app.running(),
            !app.request_in_flight(),
    {
        App { running: true, frame_request_in_flight: false }
    }

    pub fn is_running(&self) -> (running: bool)
        ensures
            running == self.running(),
    {
        self.running
    }

    /// The event that a key stands for, whatever the kind of the key event.
    pub fn handle_key_event(&self, key_event: &KeyEvent) -> (event: Option<AppEvent>)
        ensures
            event == key_meaning(key_event.code),
    {
        match key_event.code {
            KeyCode::Esc => Some(AppEvent::Quit),
            KeyCode::Char(c) => {
                if c == 'q' {
                    Some(AppEvent::Quit)
                } else {
                    None
                }
            },
            KeyCode::Right => Some(AppEvent::NextFrame),
            KeyCode::Left => Some(AppEvent::PreviousFrame),
            _ => None,
        }
    }

    /// The event that a terminal key event stands for: only key presses count.
    pub fn handle_terminal_key(&self, key_event: &KeyEvent) -> (event: Option<AppEvent>)
        ensures
            event == if key_event.kind == KeyEventKind::Press {
                key_meaning(key_event.code)
            } else {
                None
            },
    {
        if key_event.kind == KeyEventKind::Press {
            self.handle_key_event(key_event)
        } else {
            None
        }
    }

    /// Asks for the next frame unless a request is still in flight; says whether the
    /// request is to be sent to the tape.
    pub fn request_next_frame(&mut self) -> (send: bool)
        ensures
            send == !old(self).request_in_flight(),
            final(self).request_in_flight(),
            final(self).running() == old(self).running(),
    {
        if self.frame_request_in_flight {
            return false;
        }
        self.frame_request_in_flight = true;
        true
    }

    /// A frame came back: a new one may be asked for.
    pub fn present_next_frame(&mut self)
        ensures
            !final(self).request_in_flight(),
            final(self).running() == old(self).running(),
    {
        self.frame_request_in_flight = false;
    }

    /// Handles an application event. An internal error is not handled here: the viewer
    /// stops on it.
    pub fn handle_app_event(&mut self, event: AppEvent) -> (action: AppAction)
        requires
            !(event is InternalError),
        ensures
            (*final(self), action) == old(self).after(event),
            event is Quit ==> !final(self).running(),
            !(event is Quit) ==> final(self).running() == old(self).running(),
    {
        match event {
            AppEvent::Quit => {
                self.running = false;
                AppAction::Nothing
            },
            AppEvent::NextFrame => {
                if self.request_next_frame() {
                    AppAction::SendTapeEvent(TapeEvent::NextFrame)
                } else {
                    AppAction::Nothing
                }
            },
            AppEvent::PreviousFrame => AppAction::Nothing,
            AppEvent::FrameReady(image) => {
                self.present_next_frame();
                AppAction::PresentFrame(image)
            },
            AppEvent::InternalError(_) => AppAction::Nothing,
        }
    }
}

/// Only quitting stops the viewer: every other event leaves it running as it was,
/// and quitting leaves it stopped.
pub proof fn lemma_only_quit_stops(app: App, event: AppEvent)
    ensures
        !(event is Quit) ==> app.after(event).0.running() == app.running(),
        event is Quit ==> !app.after(event).0.running(),
{
}

/// Asking for the next frame while running keeps the viewer running, sends exactly one
/// request when none is in flight, and leaves a request in flight; a frame that comes
/// back keeps the viewer running and clears the request.
pub proof fn lemma_frames_keep_viewer_running(app: App, image: DynamicImage)
    ensures
        app.after(AppEvent::NextFrame).0.running() == app.running(),
        app.after(AppEvent::NextFrame).0.request_in_flight(),
        !app.request_in_flight() ==> app.after(AppEvent::NextFrame).1
            == AppAction::SendTapeEvent(TapeEvent::NextFrame),
        app.after(AppEvent::FrameReady(image)).0.running() == app.running(),
        !app.after(AppEvent::FrameReady(image)).0.request_in_flight(),
        app.after(AppEvent::NextFrame).0.after(AppEvent::FrameReady(image)).0.running()
            == app.running(),
{
}

/// Esc and `q` are the keys that quit, the right arrow alone asks for the next frame,
/// the left arrow alone for the previous one, and every other character means nothing.
pub proof fn lemma_key_meanings(code: KeyCode)
    ensures
        key_meaning(code) == Some(AppEvent::Quit) <==> (code == KeyCode::Esc || code
            == KeyCode::Char('q')),
        key_meaning(code) == Some(AppEvent::NextFrame) <==> code == KeyCode::Right,
        key_meaning(code) == Some(AppEvent::PreviousFrame) <==> code == KeyCode::Left,
        key_meaning(code) is None <==> !(code == KeyCode::Esc || code == KeyCode::Char('q')
            || code == KeyCode::Right || code == KeyCode::Left),
        forall|c: char| c != 'q' ==> #[trigger] key_meaning(KeyCode::Char(c)) is None,
{
}

/// Once the viewer stops running it never runs again, whatever events follow; and
/// quitting stops it.
pub proof fn lemma_quit_is_final(app: App, event: AppEvent)
    ensures
        !app.running() ==> !app.after(event).0.running(),
        !app.after(AppEvent::Quit).0.running(),
{
}

/// At most one frame request is in flight: a second request for the next frame before
/// the first frame came back sends nothing and changes nothing.
pub proof fn lemma_one_request_in_flight(app: App)
    ensures
        app.after(AppEvent::NextFrame).1 is SendTapeEvent <==> !app.request_in_flight(),
        app.after(AppEvent::NextFrame).0.request_in_flight(),
        app.after(AppEvent::NextFrame).0.after(AppEvent::NextFrame).1 is Nothing,
        app.after(AppEvent::NextFrame).0.after(AppEvent::NextFrame).0 == app.after(
            AppEvent::NextFrame,
        ).0,
{
}

/// A frame that comes back is presented and lets the next request through.
pub proof fn lemma_frame_reopens_requests(app: App, image: DynamicImage)
    ensures
        app.after(AppEvent::FrameReady(image)).1 == AppAction::PresentFrame(image),
        app.after(AppEvent::FrameReady(image)).0.after(AppEvent::NextFrame).1
            == AppAction::SendTapeEvent(TapeEvent::NextFrame),
{
}

/// The previous-frame request is accepted and does nothing.
pub proof fn lemma_previous_frame_ignored(app: App)
    ensures
        app.after(AppEvent::PreviousFrame) == (app, AppAction::Nothing),
{
}

} // verus!
