use vstd::prelude::*;

use super::layout::Area;
use crate::video::VideoFrameFormat;

verus! {

/// Width of a pop-up in cells.
pub const POPUP_WIDTH: u16 = 32;

/// The pop-up that is on screen.
#[derive(Debug, Clone, Copy, PartialEq, Eq, Structural)]
pub enum CurrentPopUp {
    Help,
    Info,
    NoPopUp,
}

/// Which pop-ups the user asked for, and the frame format that the information
/// pop-up describes.
#[derive(Debug, Clone, Copy)]
pub struct PopUpState {
    show_help_popup: bool,
    show_info_popup: bool,
    frame_format: Option<VideoFrameFormat>,
}

impl PopUpState {
    pub closed spec fn help_shown(self) -> bool {
        self.show_help_popup
    }

    pub closed spec fn info_shown(self) -> bool {
        self.show_info_popup
    }

    pub closed spec fn format(self) -> Option<VideoFrameFormat> {
        self.frame_format
    }

    /// The pop-up on screen: help takes precedence over information.
    pub open spec fn current(self) -> CurrentPopUp {
        if self.help_shown() {
            CurrentPopUp::Help
        } else if self.info_shown() {
            CurrentPopUp::Info
        } else {
            CurrentPopUp::NoPopUp
        }
    }

    /// Help and information are never both asked for.
    pub open spec fn at_most_one_shown(self) -> bool {
        !(self.help_shown() && self.info_shown())
    }

    /// The state after a request for help.
    pub closed spec fn shown_help(self) -> Self {
        PopUpState { show_help_popup: true, show_info_popup: false, ..self }
    }

    /// The state after a request for information.
    pub closed spec fn shown_info(self) -> Self {
        PopUpState { show_help_popup: false, show_info_popup: true, ..self }
    }

    /// The state after the pop-ups are closed.
    pub closed spec fn exited(self) -> Self {
        PopUpState { show_help_popup: false, show_info_popup: false, ..self }
    }

    /// The state with nothing shown and the given frame format.
    pub closed spec fn initial(frame_format: Option<VideoFrameFormat>) -> Self {
        PopUpState { show_help_popup: false, show_info_popup: false, frame_format }
    }

    pub fn show_help(&mut self)
        ensures
            *final(self) == old(self).shown_help(),
            final(self).help_shown(),
            !final(self).info_shown(),
            final(self).format() == old(self).format(),
    {
        self.show_help_popup = true;
        self.show_info_popup = false;
    }

    pub fn show_info(&mut self)
        ensures
            *final(self) == old(self).shown_info(),
            !final(self).help_shown(),
            final(self).info_shown(),
            final(self).format() == old(self).format(),
    {
        self.show_info_popup = true;
        self.show_help_popup = false;
    }

    pub fn exit(&mut self)
        ensures
            *final(self) == old(self).exited(),
            !final(self).help_shown(),
            !final(self).info_shown(),
            final(self).format() == old(self).format(),
    {
        self.show_help_popup = false;
        self.show_info_popup = false;
    }

    pub fn with_frame_format(frame_format: VideoFrameFormat) -> (state: Self)
        ensures
            state == Self::initial(Some(frame_format)),
            !state.help_shown(),
            !state.info_shown(),
            state.format() == Some(frame_format),
    {
        PopUpState { show_help_popup: false, show_info_popup: false, frame_format: Some(frame_format) }
    }

    pub fn current_pop_up(&self) -> (current: CurrentPopUp)
        ensures
            current == self.current(),
    {
        if self.show_help_popup {
            CurrentPopUp::Help
        } else if self.show_info_popup {
            CurrentPopUp::Info
        } else {
            CurrentPopUp::NoPopUp
        }
    }

    /// The frame format that the information pop-up describes.
    pub fn frame_format(&self) -> (format: Option<VideoFrameFormat>)
        ensures
            format == self.format(),
    {
        self.frame_format
    }
}

impl Default for PopUpState {
    fn default() -> (state: Self)
        ensures
            state == Self::initial(None),
            state.current() == CurrentPopUp::NoPopUp,
            state.format() == None::<VideoFrameFormat>,
    {
        PopUpState { show_help_popup: false, show_info_popup: false, frame_format: None }
    }
}

/// Whatever request came last decides the pop-up: help after information shows help,
/// information after help shows information, and closing shows none; the frame format
/// is kept throughout.
pub proof fn lemma_last_request_wins(state: PopUpState)
    ensures
        state.shown_info().shown_help().current() == CurrentPopUp::Help,
        state.shown_help().shown_info().current() == CurrentPopUp::Info,
        state.shown_help().current() == CurrentPopUp::Help,
        state.shown_info().current() == CurrentPopUp::Info,
        state.exited().current() == CurrentPopUp::NoPopUp,
        state.shown_help().format() == state.format(),
        state.shown_info().format() == state.format(),
        state.exited().format() == state.format(),
{
}

/// Help and information are never asked for together: every way of making a state
/// gives one with at most one of them, whatever state it starts from.
pub proof fn lemma_one_pop_up_at_a_time(state: PopUpState, format: Option<VideoFrameFormat>)
    ensures
        PopUpState::initial(format).at_most_one_shown(),
        state.shown_help().at_most_one_shown(),
        state.shown_info().at_most_one_shown(),
        state.exited().at_most_one_shown(),
{
}

/// The pop-up widget.
pub struct PopUp;

/// What the pop-up widget draws.
pub enum VisiblePopUp {
    Help(HelpPopUp),
    Info(InfoPopUp),
    Hidden,
}

impl PopUp {
    pub fn new() -> Self {
        PopUp
    }

    /// Chooses what to draw: help, or information about the frame format when one is
    /// known, or nothing.
    pub fn visible(&self, state: &PopUpState) -> (visible: VisiblePopUp)
        ensures
            match state.current() {
                CurrentPopUp::Help => visible is Help,
                CurrentPopUp::Info => match state.format() {
                    Some(f) => visible matches VisiblePopUp::Info(info) && info.format() == f,
                    None => visible is Hidden,
                },
                CurrentPopUp::NoPopUp => visible is Hidden,
            },
    {
        match state.current_pop_up() {
            CurrentPopUp::Help => VisiblePopUp::Help(HelpPopUp::new()),
            CurrentPopUp::Info => match state.frame_format() {
                Some(frame_format) => VisiblePopUp::Info(InfoPopUp::new(frame_format)),
                None => VisiblePopUp::Hidden,
            },
            CurrentPopUp::NoPopUp => VisiblePopUp::Hidden,
        }
    }
}

/// Where a pop-up goes in `area`: a column `POPUP_WIDTH` cells wide at the right edge,
/// from the second row down to the row above the last.
pub fn popup_area(area: Area) -> (popup: Area)
    ensures
        popup.x == if area.width >= POPUP_WIDTH {
            area.width - POPUP_WIDTH
        } else {
            0
        },
        popup.y == 1,
        popup.width == POPUP_WIDTH,
        popup.height == if area.height >= 2 {
            area.height - 2
        } else {
            0
        },
{
    Area {
        x: area.width.saturating_sub(POPUP_WIDTH),
        y: 1,
        width: POPUP_WIDTH,
        height: area.height.saturating_sub(2),
    }
}

/// The pop-up that lists the keys.
pub struct HelpPopUp;

impl HelpPopUp {
    pub fn new() -> Self {
        HelpPopUp
    }
}

/// The pop-up that describes the frame format.
pub struct InfoPopUp {
    video_frame_format: VideoFrameFormat,
}

impl InfoPopUp {
    pub closed spec fn format(self) -> VideoFrameFormat {
        self.video_frame_format
    }

    pub fn new(video_frame_format: VideoFrameFormat) -> (popup: Self)
        ensures
            popup.format() == video_frame_format,
    {
        InfoPopUp { video_frame_format }
    }

    pub fn video_frame_format(&self) -> (format: VideoFrameFormat)
        ensures
            format == self.format(),
    {
        self.video_frame_format
    }
}

} // verus!
