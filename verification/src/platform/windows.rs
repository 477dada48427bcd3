//! Decisions of the Windows back end.
//!
//! The Windows wallpaper manager talks to the shell through the COM interface
//! `IDesktopWallpaper`. This library does not make those calls (it has no COM
//! bindings); what the manager decides around them is here, on plain values:
//! whether a requested monitor exists, which calls setting a wallpaper makes
//! and in what order, whether a returned path means "no wallpaper", and which
//! style a returned position code stands for. A caller with COM bindings makes
//! the calls and hands their results to these functions.
use vstd::prelude::*;

use crate::error::WallpaperError;
use crate::style::{position_code, style_of_code, WallpaperStyle};

pub mod com;

verus! {

/// `monitors` holds an identifier equal to `id`.
pub open spec fn lists_monitor(monitors: Seq<String>, id: Seq<char>) -> bool {
    exists|i: int| 0 <= i < monitors.len() && (#[trigger] monitors[i])@ == id
}

/// Every listed monitor, wherever it stands in the list, is listed.
pub proof fn lemma_every_listed_monitor_is_found(monitors: Seq<String>, i: int)
    requires
        0 <= i < monitors.len(),
    ensures
        lists_monitor(monitors, monitors[i]@),
{
}

/// An identifier that no listed monitor has is not listed.
pub proof fn lemma_unlisted_monitor_is_not_found(monitors: Seq<String>, id: Seq<char>)
    requires
        forall|i: int| 0 <= i < monitors.len() ==> (#[trigger] monitors[i])@ != id,
    ensures
        !lists_monitor(monitors, id),
{
}

/// Check a requested monitor against the identifiers that the desktop reports
/// (the first step of setting a wallpaper): no monitor, or one that is listed,
/// passes; any other is refused with `InvalidMonitor` carrying the identifier.
pub fn check_monitor(monitors: &Vec<String>, monitor: Option<&str>) -> (r: Result<(), WallpaperError>)
    ensures
        match monitor {
            None => r is Ok,
            Some(id) => if lists_monitor(monitors@, id@) {
                r is Ok
            } else {
                r matches Err(WallpaperError::InvalidMonitor(shown)) && shown@ == id@
            },
        },
        monitor matches Some(id) ==> (forall|i: int|
            0 <= i < monitors@.len() && (#[trigger] monitors@[i])@ == id@ ==> r is Ok),
        r is Err ==> (monitor matches Some(id) && (forall|i: int|
            0 <= i < monitors@.len() ==> (#[trigger] monitors@[i])@ != id@)),
{
    match monitor {
        None => Ok(()),
        Some(id) => {
            let wanted = String::from_str(id);
            let mut i: usize = 0;
            while i < monitors.len()
                invariant
                    i <= monitors.len(),
                    wanted@ == id@,
                    monitor == Some(id),
                    forall|j: int| 0 <= j < i ==> (#[trigger] monitors@[j])@ != id@,
                decreases monitors.len() - i,
            {
                if monitors[i] == wanted {
                    return Ok(());
                }
                i = i + 1;
            }
            Err(WallpaperError::InvalidMonitor(wanted))
        },
    }
}

/// A call that setting a wallpaper makes on `IDesktopWallpaper`.
#[derive(Debug, Clone, PartialEq, Eq)]
pub enum ShellCall {
    /// `SetWallpaper(monitor, path)`; `None` addresses every monitor.
    SetWallpaper { monitor: Option<String>, path: String },
    /// `SetPosition(position)`, a `DESKTOP_WALLPAPER_POSITION` code.
    SetPosition { position: i32 },
}

/// The calls that set `path` in `style` on `monitor` (`None`: all monitors),
/// once `check_monitor` has passed: first `SetWallpaper` with the monitor and
/// the path, then `SetPosition` with the style's code. They are made in this
/// order, and the first one that fails ends the operation with its error.
pub fn set_wallpaper_calls(path: &str, style: WallpaperStyle, monitor: Option<&str>) -> (calls:
    Vec<ShellCall>)
    ensures
        calls@.len() == 2,
        calls@[0] matches ShellCall::SetWallpaper { monitor: m, path: p } && p@ == path@ && match (
            m,
            monitor,
        ) {
            (Some(a), Some(b)) => a@ == b@,
            (None, None) => true,
            _ => false,
        },
        calls@[1] == (ShellCall::SetPosition { position: position_code(style) }),
{
    let target = match monitor {
        Some(id) => Some(String::from_str(id)),
        None => None,
    };
    let mut calls: Vec<ShellCall> = Vec::new();
    calls.push(ShellCall::SetWallpaper { monitor: target, path: String::from_str(path) });
    calls.push(ShellCall::SetPosition { position: style.to_windows() });
    calls
}

/// The current wallpaper from the path that the shell returns: an empty path
/// means that no wallpaper is set.
pub fn wallpaper_from_shell_path(path: String) -> (r: Option<String>)
    ensures
        path@.len() == 0 ==> r is None,
        path@.len() != 0 ==> r == Some(path),
{
    if path.as_str().is_empty() {
        None
    } else {
        Some(path)
    }
}

/// The style from the position code that the shell returns; an unknown code is
/// refused with `UnknownWallpaperPosition`, carrying `code_text`, the code as the
/// shell's type prints it with `{:?}`.
pub fn style_from_shell_position(code: i32, code_text: String) -> (r: Result<
    WallpaperStyle,
    WallpaperError,
>)
    ensures
        match style_of_code(code) {
            Some(style) => r == Ok::<WallpaperStyle, WallpaperError>(style),
            None => r matches Err(WallpaperError::UnknownWallpaperPosition(t)) && t == code_text,
        },
{
    match WallpaperStyle::from_windows(code) {
        Some(style) => Ok(style),
        None => Err(WallpaperError::UnknownWallpaperPosition(code_text)),
    }
}

} // verus!
