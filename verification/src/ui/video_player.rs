use vstd::prelude::*;

use super::layout::Area;

verus! {

/// The widget that shows the current frame.
#[derive(Debug)]
pub struct VideoPlayer;

/// Horizontal offset that centres a picture `fitting` cells wide in `available` cells.
pub open spec fn centring_offset(available: u16, fitting: u16) -> int {
    (if available >= fitting {
        available - fitting
    } else {
        0
    }) / 2
}

impl VideoPlayer {
    pub fn new() -> Self {
        VideoPlayer
    }

    /// Whether centring a picture of `fitting_width` by `fitting_height` cells in `area`
    /// stays inside the `u16` coordinate range.
    pub fn image_area_in_range(&self, area: Area, fitting_width: u16, fitting_height: u16) -> (in_range: bool)
        ensures
            in_range == (area.x + centring_offset(area.width, fitting_width) <= u16::MAX
                && area.y + centring_offset(area.height, fitting_height) <= u16::MAX),
    {
        let x_off = (area.width.saturating_sub(fitting_width)) / 2;
        let y_off = (area.height.saturating_sub(fitting_height)) / 2;
        area.x.checked_add(x_off).is_some() && area.y.checked_add(y_off).is_some()
    }

    /// Where a picture of `fitting_width` by `fitting_height` cells is drawn: centred in
    /// `area`.
    pub fn image_area(&self, area: Area, fitting_width: u16, fitting_height: u16) -> (image: Area)
        requires
            area.x + centring_offset(area.width, fitting_width) <= u16::MAX,
            area.y + centring_offset(area.height, fitting_height) <= u16::MAX,
        ensures
            image == Area::spec_new(
                (area.x + centring_offset(area.width, fitting_width)) as u16,
                (area.y + centring_offset(area.height, fitting_height)) as u16,
                fitting_width,
                fitting_height,
            ),
    {
        let x_off = (area.width.saturating_sub(fitting_width)) / 2;
        let y_off = (area.height.saturating_sub(fitting_height)) / 2;
        Area::new(area.x + x_off, area.y + y_off, fitting_width, fitting_height)
    }
}

/// A picture no larger than the area is drawn inside it, with the spare cells split
/// evenly on both sides (the odd one, if any, on the right or bottom).
pub proof fn lemma_centred_picture_inside(available: u16, fitting: u16)
    requires
        fitting <= available,
    ensures
        0 <= centring_offset(available, fitting),
        centring_offset(available, fitting) + fitting <= available,
        available - fitting - centring_offset(available, fitting) == centring_offset(available, fitting)
            || available - fitting - centring_offset(available, fitting) == centring_offset(available, fitting) + 1,
{
}

} // verus!
