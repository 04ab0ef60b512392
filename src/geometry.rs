use vstd::prelude::*;

verus! {

pub const WINDOW_WIDTH: i64 = 600;

pub const WINDOW_HEIGHT: i64 = 400;

pub const WINDOW_PADDING: i64 = 5;

pub const TITLE_BAR_HEIGHT: i64 = 24;

pub const TOOLBAR_HEIGHT: i64 = 26;

pub const ADDRESS_BAR_HEIGHT: i64 = 20;

pub const CONTENT_AREA_WIDTH: i64 = WINDOW_WIDTH - WINDOW_PADDING * 2;

pub const CONTENT_AREA_HEIGHT: i64 = WINDOW_HEIGHT - TITLE_BAR_HEIGHT - TOOLBAR_HEIGHT
    - WINDOW_PADDING * 2;

pub const WHITE: u32 = 0xffffff;

pub const LIGHTGRAY: u32 = 0xd3d3d3;

pub const GRAY: u32 = 0x808080;

pub const DARKGRAY: u32 = 0x5a5a5a;

pub const BLACK: u32 = 0x000000;

/// Where a pointer position falls, relative to the window.
#[derive(Clone, Copy, Debug, PartialEq, Eq, Structural)]
pub enum Region {
    OutsideWindow,
    Toolbar,
    /// A point in the content area's own coordinates, which exclude the chrome.
    ContentArea(i64, i64),
}

/// Whether a point relative to the window origin lies inside `[0, W) × [0, H)`.
pub open spec fn inside_window(rx: int, ry: int) -> bool {
    0 <= rx < WINDOW_WIDTH && 0 <= ry < WINDOW_HEIGHT
}

/// Whether a height relative to the window origin lies in the toolbar band.
pub open spec fn in_toolbar_band(ry: int) -> bool {
    TITLE_BAR_HEIGHT <= ry < TITLE_BAR_HEIGHT + TOOLBAR_HEIGHT
}

/// The region of the absolute point `(px, py)` for a window whose origin is `origin`.
pub open spec fn region_of(origin: (i64, i64), px: i64, py: i64) -> Region {
    let rx = px - origin.0;
    let ry = py - origin.1;
    if !inside_window(rx, ry) {
        Region::OutsideWindow
    } else if in_toolbar_band(ry) {
        Region::Toolbar
    } else {
        Region::ContentArea(rx as i64, (ry - TITLE_BAR_HEIGHT - TOOLBAR_HEIGHT) as i64)
    }
}

/// Classifies the absolute point `(px, py)` for a window whose origin is `origin`.
pub fn classify(origin: (i64, i64), px: i64, py: i64) -> (r: Region)
    ensures
        r == region_of(origin, px, py),
{
    let rx: i128 = px as i128 - origin.0 as i128;
    let ry: i128 = py as i128 - origin.1 as i128;
    if rx < 0 || rx >= WINDOW_WIDTH as i128 || ry < 0 || ry >= WINDOW_HEIGHT as i128 {
        Region::OutsideWindow
    } else if TITLE_BAR_HEIGHT as i128 <= ry && ry < (TITLE_BAR_HEIGHT + TOOLBAR_HEIGHT) as i128 {
        Region::Toolbar
    } else {
        Region::ContentArea(rx as i64, (ry - TITLE_BAR_HEIGHT as i128 - TOOLBAR_HEIGHT as i128) as i64)
    }
}

} // verus!
