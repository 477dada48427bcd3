//! The platform back ends behind [`crate::Wallpaper`].
use vstd::prelude::*;

use crate::error::WallpaperError;
use crate::style::WallpaperStyle;

pub mod linux;
pub mod windows;

verus! {

/// A change of the desktop that a caller asks a wallpaper manager to make.
pub enum DesktopChange {
    /// Set the image `path` in `style` on `monitor` (`None`: every monitor).
    Wallpaper { path: Seq<char>, style: WallpaperStyle, monitor: Option<Seq<char>> },
    /// Change only the positioning style, to `style`.
    Style { style: WallpaperStyle },
}

/// The text of an optional monitor identifier.
pub open spec fn monitor_text(monitor: Option<&str>) -> Option<Seq<char>> {
    match monitor {
        Some(id) => Some(id@),
        None => None,
    }
}

/// A trait for managing the wallpaper on the system.
///
/// This trait is implemented by platform-specific wallpaper managers; the one
/// a program uses is the type argument of [`crate::Wallpaper`]. Paths and
/// monitor identifiers are passed as text.
///
/// A manager changes the desktop only on request: each operation that changes
/// it requires that its caller asked for exactly that change
/// (`change_requested`), so code that was asked for a reading, or for another
/// change, cannot make it.
pub trait WallpaperManager: Sized {
    /// The caller of this manager has asked for `change`.
    spec fn change_requested(&self, change: DesktopChange) -> bool;

    fn new() -> Result<Self, WallpaperError>;

    fn set(&self, path: &str, style: WallpaperStyle, monitor: Option<&str>) -> Result<
        (),
        WallpaperError,
    >
        requires
            self.change_requested(
                DesktopChange::Wallpaper { path: path@, style, monitor: monitor_text(monitor) },
            ),
    ;

    fn get(&self, monitor: Option<&str>) -> Result<Option<String>, WallpaperError>;

    fn set_style(&self, style: WallpaperStyle) -> Result<(), WallpaperError>
        requires
            self.change_requested(DesktopChange::Style { style }),
    ;

    fn get_style(&self) -> Result<WallpaperStyle, WallpaperError>;

    fn list_monitors(&self) -> Result<Vec<String>, WallpaperError>;
}

} // verus!
