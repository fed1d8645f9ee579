use vstd::prelude::*;

verus! {

/// The smallest window the game opens.
pub const MIN_RES_X: u32 = 640;

pub const MIN_RES_Y: u32 = 480;

/// Whether the configured resolution asks for the desktop's own: either side is 0.
pub open spec fn spec_needs_desktop(res_x: i32, res_y: i32) -> bool {
    res_x as u32 == 0 || res_y as u32 == 0
}

/// The window resolution for the configured sides (read as unsigned) and the desktop's
/// mode: the desktop's where a side is 0, then at least 640 by 480.
pub open spec fn spec_window_resolution(res_x: i32, res_y: i32, desktop: (i32, i32)) -> (u32, u32) {
    let (x, y) = if spec_needs_desktop(res_x, res_y) {
        (desktop.0 as u32, desktop.1 as u32)
    } else {
        (res_x as u32, res_y as u32)
    };
    (
        if x >= MIN_RES_X {
            x
        } else {
            MIN_RES_X
        },
        if y >= MIN_RES_Y {
            y
        } else {
            MIN_RES_Y
        },
    )
}

/// Whether the configured resolution asks for the desktop's own mode.
pub fn needs_desktop_resolution(res_x: i32, res_y: i32) -> (r: bool)
    ensures
        r == spec_needs_desktop(res_x, res_y),
{
    res_x as u32 == 0 || res_y as u32 == 0
}

/// The window settings of the game.
#[derive(Clone, Copy, Debug, PartialEq, Eq, Structural)]
pub struct WindowContext {
    pub is_windowed: bool,
    pub is_borderless: bool,
    pub res_x: u32,
    pub res_y: u32,
}

impl WindowContext {
    /// The settings from the configuration; `desktop` is the desktop's mode, which is
    /// needed only where `needs_desktop_resolution` says so.
    pub fn init(
        is_windowed: bool,
        is_borderless: bool,
        res_x: i32,
        res_y: i32,
        desktop: Option<(i32, i32)>,
    ) -> (r: Self)
        requires
            spec_needs_desktop(res_x, res_y) ==> desktop is Some,
        ensures
            r.is_windowed == is_windowed,
            r.is_borderless == is_borderless,
            (r.res_x, r.res_y) == spec_window_resolution(
                res_x,
                res_y,
                match desktop {
                    Some(d) => d,
                    None => (0i32, 0i32),
                },
            ),
    {
        let mut x = res_x as u32;
        let mut y = res_y as u32;
        if needs_desktop_resolution(res_x, res_y) {
            let (w, h) = match desktop {
                Some(d) => d,
                None => (0, 0),
            };
            x = w as u32;
            y = h as u32;
        }
        if x < MIN_RES_X {
            x = MIN_RES_X;
        }
        if y < MIN_RES_Y {
            y = MIN_RES_Y;
        }
        WindowContext { is_windowed, is_borderless, res_x: x, res_y: y }
    }
}


/// How the game window is opened: fullscreen unless windowed, and without borders only
/// when windowed and asked for.
#[derive(Clone, Copy, Debug, PartialEq, Eq, Structural)]
pub struct WindowStyle {
    pub fullscreen: bool,
    pub borderless: bool,
}

impl WindowContext {
    /// The style of the window to create.
    pub fn window_style(&self) -> (r: WindowStyle)
        ensures
            r == (WindowStyle {
                fullscreen: !self.is_windowed,
                borderless: self.is_borderless && self.is_windowed,
            }),
    {
        WindowStyle {
            fullscreen: !self.is_windowed,
            borderless: self.is_borderless && self.is_windowed,
        }
    }

    /// Whether the game runs in a window.
    pub fn is_window(&self) -> (r: bool)
        ensures
            r == self.is_windowed,
    {
        self.is_windowed
    }
}

/// The title of the game window for the mod's `version`.
pub fn window_title(version: &str) -> (r: String)
    ensures
        r@ == "THPS3 - PARTYMOD "@ + version@,
{
    let mut s = String::from_str("THPS3 - PARTYMOD ");
    s.append(version);
    s
}

} // verus!
