//! Desktop wallpaper management: positioning styles, the error type, the
//! platform back end, the HTTP API models and the decisions of the daemon.
use vstd::prelude::*;

pub mod api_models;
pub mod commands;
pub mod config;
pub mod error;
pub mod platform;
pub mod server;
pub mod style;
pub mod tray;

use crate::platform::{monitor_text, DesktopChange, WallpaperManager};

pub use error::WallpaperError;
pub use style::WallpaperStyle;

verus! {

/// Public API: a wallpaper manager over a platform back end `M`.
///
/// It delegates every operation to the back end, with one call of the
/// back end's operation of the same name, and answers what the back end
/// answers. It changes the desktop only as asked: `set` and `set_style` make
/// the requested change (and require that it was requested of the back end);
/// the readings make no change at all. This library holds the Linux back end
/// ([`platform::linux::LinuxWallpaperManager`]), which refuses every operation
/// with `Unsupported`; a Windows back end built on `IDesktopWallpaper` uses the
/// decisions in [`platform::windows`].
pub struct Wallpaper<M: WallpaperManager> {
    inner: M,
}

impl<M: WallpaperManager> Wallpaper<M> {
    /// The back end that the manager delegates to.
    pub closed spec fn backend(&self) -> M {
        self.inner
    }

    /// Create a new `Wallpaper` instance from a new back end; the back end's
    /// error is passed on.
    pub fn new() -> (r: Result<Self, WallpaperError>)
        ensures
            match r {
                Ok(w) => call_ensures(M::new, (), Ok::<M, WallpaperError>(w.backend())),
                Err(e) => call_ensures(M::new, (), Err::<M, WallpaperError>(e)),
            },
    {
        match M::new() {
            Ok(inner) => Ok(Wallpaper { inner }),
            Err(e) => Err(e),
        }
    }

    /// Set the wallpaper image and style for a monitor (`None`: all monitors).
    ///
    /// * `path` - absolute path to an image file.
    /// * `style` - positioning mode (Fill, Fit, …).
    /// * `monitor` - monitor ID (e.g. `"\\\\.\\DISPLAY1"` on Windows).
    pub fn set(&self, path: &str, style: WallpaperStyle, monitor: Option<&str>) -> (r: Result<
        (),
        WallpaperError,
    >)
        requires
            self.backend().change_requested(
                DesktopChange::Wallpaper { path: path@, style, monitor: monitor_text(monitor) },
            ),
        ensures
            call_ensures(M::set, (&self.backend(), path, style, monitor), r),
    {
        self.inner.set(path, style, monitor)
    }

    /// Get the absolute file path of the current wallpaper for a monitor;
    /// `Ok(None)` if no wallpaper is set.
    pub fn get(&self, monitor: Option<&str>) -> (r: Result<Option<String>, WallpaperError>)
        ensures
            call_ensures(M::get, (&self.backend(), monitor), r),
    {
        self.inner.get(monitor)
    }

    /// Change only the positioning style.
    pub fn set_style(&self, style: WallpaperStyle) -> (r: Result<(), WallpaperError>)
        requires
            self.backend().change_requested(DesktopChange::Style { style }),
        ensures
            call_ensures(M::set_style, (&self.backend(), style), r),
    {
        self.inner.set_style(style)
    }

    /// Get the current positioning style.
    pub fn get_style(&self) -> (r: Result<WallpaperStyle, WallpaperError>)
        ensures
            call_ensures(M::get_style, (&self.backend(),), r),
    {
        self.inner.get_style()
    }

    /// Return the list of available monitor identifiers.
    pub fn list_monitors(&self) -> (r: Result<Vec<String>, WallpaperError>)
        ensures
            call_ensures(M::list_monitors, (&self.backend(),), r),
    {
        self.inner.list_monitors()
    }
}

} // verus!
