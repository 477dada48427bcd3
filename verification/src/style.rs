//! Wallpaper positioning styles and their Win32 `DESKTOP_WALLPAPER_POSITION` codes.
use vstd::prelude::*;

verus! {

/// Win32 `DWPOS_CENTER`.
pub const DWPOS_CENTER: i32 = 0;

/// Win32 `DWPOS_TILE`.
pub const DWPOS_TILE: i32 = 1;

/// Win32 `DWPOS_STRETCH`.
pub const DWPOS_STRETCH: i32 = 2;

/// Win32 `DWPOS_FIT`.
pub const DWPOS_FIT: i32 = 3;

/// Win32 `DWPOS_FILL`.
pub const DWPOS_FILL: i32 = 4;

/// Win32 `DWPOS_SPAN`.
pub const DWPOS_SPAN: i32 = 5;

/// How the wallpaper should be displayed on the desktop.
#[derive(Debug, Clone, Copy, PartialEq, Eq, Structural, Hash)]
pub enum WallpaperStyle {
    /// Center the image without scaling.
    Center,
    /// Tile the image repeatedly.
    Tile,
    /// Stretch the image to fill the screen.
    Stretch,
    /// Fit the image to the screen, adding letterboxing.
    Fit,
    /// Fill the screen, cropping if necessary.
    Fill,
    /// Span the image across multiple monitors (Windows 8+).
    Span,
}

/// The `DESKTOP_WALLPAPER_POSITION` code of each style.
pub open spec fn position_code(style: WallpaperStyle) -> i32 {
    match style {
        WallpaperStyle::Center => DWPOS_CENTER,
        WallpaperStyle::Tile => DWPOS_TILE,
        WallpaperStyle::Stretch => DWPOS_STRETCH,
        WallpaperStyle::Fit => DWPOS_FIT,
        WallpaperStyle::Fill => DWPOS_FILL,
        WallpaperStyle::Span => DWPOS_SPAN,
    }
}

/// The style that a `DESKTOP_WALLPAPER_POSITION` code stands for, if any.
pub open spec fn style_of_code(code: i32) -> Option<WallpaperStyle> {
    if code == DWPOS_CENTER {
        Some(WallpaperStyle::Center)
    } else if code == DWPOS_TILE {
        Some(WallpaperStyle::Tile)
    } else if code == DWPOS_STRETCH {
        Some(WallpaperStyle::Stretch)
    } else if code == DWPOS_FIT {
        Some(WallpaperStyle::Fit)
    } else if code == DWPOS_FILL {
        Some(WallpaperStyle::Fill)
    } else if code == DWPOS_SPAN {
        Some(WallpaperStyle::Span)
    } else {
        None
    }
}

impl WallpaperStyle {
    /// Convert to the Win32 `DESKTOP_WALLPAPER_POSITION` code.
    pub fn to_windows(self) -> (code: i32)
        ensures
            code == position_code(self),
    {
        match self {
            WallpaperStyle::Center => DWPOS_CENTER,
            WallpaperStyle::Tile => DWPOS_TILE,
            WallpaperStyle::Stretch => DWPOS_STRETCH,
            WallpaperStyle::Fit => DWPOS_FIT,
            WallpaperStyle::Fill => DWPOS_FILL,
            WallpaperStyle::Span => DWPOS_SPAN,
        }
    }

    /// Create a `WallpaperStyle` from a Win32 `DESKTOP_WALLPAPER_POSITION` code;
    /// `None` for a code that names no style.
    pub fn from_windows(pos: i32) -> (style: Option<Self>)
        ensures
            style == style_of_code(pos),
            style is None <==> !(DWPOS_CENTER <= pos <= DWPOS_SPAN),
    {
        if pos == DWPOS_CENTER {
            Some(WallpaperStyle::Center)
        } else if pos == DWPOS_TILE {
            Some(WallpaperStyle::Tile)
        } else if pos == DWPOS_STRETCH {
            Some(WallpaperStyle::Stretch)
        } else if pos == DWPOS_FIT {
            Some(WallpaperStyle::Fit)
        } else if pos == DWPOS_FILL {
            Some(WallpaperStyle::Fill)
        } else if pos == DWPOS_SPAN {
            Some(WallpaperStyle::Span)
        } else {
            None
        }
    }
}

/// The Win32 codes of the styles: `DWPOS_CENTER` 0, `DWPOS_TILE` 1,
/// `DWPOS_STRETCH` 2, `DWPOS_FIT` 3, `DWPOS_FILL` 4, `DWPOS_SPAN` 5; no other
/// code names a style.
pub proof fn lemma_win32_position_codes(code: i32)
    ensures
        position_code(WallpaperStyle::Center) == 0,
        position_code(WallpaperStyle::Tile) == 1,
        position_code(WallpaperStyle::Stretch) == 2,
        position_code(WallpaperStyle::Fit) == 3,
        position_code(WallpaperStyle::Fill) == 4,
        position_code(WallpaperStyle::Span) == 5,
        (code < 0 || code > 5) ==> style_of_code(code) is None,
{
}

/// Reading back the code of a style gives the style again.
pub proof fn lemma_from_windows_inverts_to_windows(style: WallpaperStyle)
    ensures
        style_of_code(position_code(style)) == Some(style),
{
}

/// A code that names a style is that style's code: no two codes name one style,
/// and no two styles share a code.
pub proof fn lemma_to_windows_inverts_from_windows(code: i32, style: WallpaperStyle)
    requires
        style_of_code(code) == Some(style),
    ensures
        position_code(style) == code,
{
}

/// Distinct styles have distinct codes.
pub proof fn lemma_position_codes_distinct(a: WallpaperStyle, b: WallpaperStyle)
    requires
        a != b,
    ensures
        position_code(a) != position_code(b),
{
}

} // verus!
