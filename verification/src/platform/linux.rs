//! Linux back end: not implemented yet, every operation reports `Unsupported`.
use vstd::prelude::*;

use super::{DesktopChange, WallpaperManager};
use crate::error::WallpaperError;
use crate::style::WallpaperStyle;

verus! {

/// The Linux wallpaper manager; every operation fails with
/// [`WallpaperError::Unsupported`].
pub struct LinuxWallpaperManager;

impl WallpaperManager for LinuxWallpaperManager {
    /// Every change may be asked of the Linux manager; it makes none.
    open spec fn change_requested(&self, change: DesktopChange) -> bool {
        true
    }

    fn new() -> (r: Result<Self, WallpaperError>)
        ensures
            r matches Err(WallpaperError::Unsupported),
    {
        Err(WallpaperError::Unsupported)
    }

    fn set(&self, _path: &str, _style: WallpaperStyle, _monitor: Option<&str>) -> (r: Result<
        (),
        WallpaperError,
    >)
        ensures
            r matches Err(WallpaperError::Unsupported),
    {
        Err(WallpaperError::Unsupported)
    }

    fn get(&self, _monitor: Option<&str>) -> (r: Result<Option<String>, WallpaperError>)
        ensures
            r matches Err(WallpaperError::Unsupported),
    {
        Err(WallpaperError::Unsupported)
    }

    fn set_style(&self, _style: WallpaperStyle) -> (r: Result<(), WallpaperError>)
        ensures
            r matches Err(WallpaperError::Unsupported),
    {
        Err(WallpaperError::Unsupported)
    }

    fn get_style(&self) -> (r: Result<WallpaperStyle, WallpaperError>)
        ensures
            r matches Err(WallpaperError::Unsupported),
    {
        Err(WallpaperError::Unsupported)
    }

    fn list_monitors(&self) -> (r: Result<Vec<String>, WallpaperError>)
        ensures
            r matches Err(WallpaperError::Unsupported),
    {
        Err(WallpaperError::Unsupported)
    }
}

} // verus!
