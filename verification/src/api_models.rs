//! Request and response types of the daemon's HTTP API.
//!
//! Paths and monitor identifiers are carried as text.
use vstd::prelude::*;

verus! {

/// Information about a single monitor.
#[derive(Debug, Clone, PartialEq, Eq)]
pub struct Monitor {
    /// The system's identifier for the monitor (e.g. `\\.\DISPLAY1`).
    pub id: String,
    /// A human-readable name (if available, otherwise the same as `id`).
    pub name: String,
}

/// Positioning style for a wallpaper image.
///
/// This enum deliberately mirrors the library's own `WallpaperStyle`
/// so that conversion is a simple one-to-one mapping.
#[derive(Debug, Clone, Copy, PartialEq, Eq, Structural)]
pub enum WallpaperStyle {
    Center,
    Tile,
    Stretch,
    Fit,
    Fill,
    Span,
}

/// Request body for `POST /api/wallpaper/set`.
#[derive(Debug, Clone, PartialEq, Eq)]
pub struct SetWallpaperRequest {
    /// Absolute path to the image file.
    pub path: String,
    /// How the image should be positioned.
    pub style: WallpaperStyle,
    /// Apply to a specific monitor (by its `id`).
    /// `None` applies to **all** monitors.
    pub monitor: Option<String>,
}

/// Response for `GET /api/wallpaper?monitor=…`.
#[derive(Debug, Clone, PartialEq, Eq)]
pub struct CurrentWallpaper {
    /// The monitor this information applies to.
    pub monitor: String,
    /// Absolute path of the current image, or `None` if no wallpaper set.
    pub path: Option<String>,
}

/// Response for `GET /api/monitors`.
#[derive(Debug, Clone, PartialEq, Eq)]
pub struct MonitorList {
    pub monitors: Vec<Monitor>,
}

/// Request body for `PUT /api/style`.
#[derive(Debug, Clone, Copy, PartialEq, Eq, Structural)]
pub struct SetStyleRequest {
    pub style: WallpaperStyle,
}

/// Response body for `GET /api/style`.
#[derive(Debug, Clone, Copy, PartialEq, Eq, Structural)]
pub struct StyleResponse {
    pub style: WallpaperStyle,
}

} // verus!
