//! The main thread's replies to the wallpaper commands that the HTTP handlers
//! send it, computed from what the wallpaper manager answered.
use vstd::prelude::*;

use crate::error::{is_message, WallpaperError};

verus! {

/// The reply to "list the monitors": the identifiers the manager listed, or
/// none when it failed.
pub fn monitors_reply(listed: Result<Vec<String>, WallpaperError>) -> (r: Vec<String>)
    ensures
        match listed {
            Ok(ids) => r == ids,
            Err(_) => r@.len() == 0,
        },
{
    match listed {
        Ok(ids) => ids,
        Err(_) => Vec::new(),
    }
}

/// The reply to "get the wallpaper": the path the manager gave, or none when
/// it failed.
pub fn wallpaper_reply(got: Result<Option<String>, WallpaperError>) -> (r: Option<String>)
    ensures
        match got {
            Ok(path) => r == path,
            Err(_) => r is None,
        },
{
    match got {
        Ok(path) => path,
        Err(_) => None,
    }
}

/// The reply to a change (of the wallpaper or of the style): success, or the
/// message of the manager's error.
pub fn change_reply(done: Result<(), WallpaperError>) -> (r: Result<(), String>)
    ensures
        match done {
            Ok(()) => r is Ok,
            Err(e) => r matches Err(text) && is_message(&e, text@),
        },
{
    match done {
        Ok(()) => Ok(()),
        Err(e) => Err(e.to_string()),
    }
}

} // verus!
