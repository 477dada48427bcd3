//! The responses of the HTTP handlers, computed from the request and from the
//! reply that the main thread sent back over the command channel. A reply of
//! `None` means that the channel closed before an answer came.
use vstd::prelude::*;
use vstd::string::StringExecFns;

use crate::api_models::{
    CurrentWallpaper, Monitor, MonitorList, SetWallpaperRequest, StyleResponse,
    WallpaperStyle as ApiWallpaperStyle,
};
use crate::server::helpers::{api_style_of, into_api_style};
use crate::style::WallpaperStyle as MultiWallpaperStyle;

verus! {

/// The monitor label of a response: the requested monitor, or `all` for none.
pub open spec fn monitor_label(monitor: Option<String>) -> Seq<char> {
    match monitor {
        Some(m) => m@,
        None => "all"@,
    }
}

/// The identifiers in a reply to a monitor listing; none without a reply.
pub open spec fn replied_ids(reply: Option<Vec<String>>) -> Seq<String> {
    match reply {
        Some(ids) => ids@,
        None => Seq::empty(),
    }
}

/// A reply lists exactly the identifiers it carries, however many; no reply
/// lists none.
pub proof fn lemma_replied_ids_are_the_reply(reply: Option<Vec<String>>)
    ensures
        reply matches Some(ids) ==> replied_ids(reply) == ids@,
        reply is None ==> replied_ids(reply).len() == 0,
{
}

/// A requested monitor is named by exactly its identifier; only a request for
/// every monitor is named `all`.
pub proof fn lemma_monitor_label_is_the_request(monitor: Option<String>)
    ensures
        monitor matches Some(m) ==> monitor_label(monitor) == m@,
        monitor is None ==> monitor_label(monitor) == "all"@,
{
}

/// `GET /api/monitors`: one monitor per identifier, in order, named by its
/// identifier; an empty list when no reply came.
pub fn monitor_list(reply: Option<Vec<String>>) -> (r: MonitorList)
    ensures
        match reply {
            Some(ids) => {
                &&& r.monitors@.len() == ids@.len()
                &&& forall|i: int|
                    0 <= i < ids@.len() ==> (#[trigger] r.monitors@[i]).id@ == ids@[i]@
                        && r.monitors@[i].name@ == ids@[i]@
            },
            None => r.monitors@.len() == 0,
        },
        r.monitors@.len() == replied_ids(reply).len(),
        forall|i: int|
            0 <= i < r.monitors@.len() ==> {
                &&& (#[trigger] r.monitors@[i]).id@ == replied_ids(reply)[i]@
                &&& r.monitors@[i].name@ == replied_ids(reply)[i]@
            },
{
    let ids = match reply {
        Some(ids) => ids,
        None => Vec::new(),
    };
    let mut monitors: Vec<Monitor> = Vec::new();
    let mut i: usize = 0;
    while i < ids.len()
        invariant
            i <= ids.len(),
            ids@ == replied_ids(reply),
            monitors@.len() == i,
            forall|j: int|
                0 <= j < i ==> {
                    &&& (#[trigger] monitors@[j]).id@ == ids@[j]@
                    &&& monitors@[j].name@ == ids@[j]@
                },
        decreases ids.len() - i,
    {
        let id = ids[i].clone();
        let name = ids[i].clone();
        monitors.push(Monitor { id, name });
        i = i + 1;
    }
    MonitorList { monitors }
}

/// `GET /api/wallpaper`: the requested monitor (`all` for none) and the path
/// that the main thread replied; no path when no reply came.
pub fn current_wallpaper(monitor: Option<String>, reply: Option<Option<String>>) -> (r:
    CurrentWallpaper)
    ensures
        match monitor {
            Some(m) => r.monitor@ == m@,
            None => r.monitor@ == "all"@,
        },
        r.monitor@ == monitor_label(monitor),
        r.path == match reply {
            Some(path) => path,
            None => None,
        },
{
    let path = match reply {
        Some(path) => path,
        None => None,
    };
    let monitor = match monitor {
        Some(m) => m,
        None => String::from_str("all"),
    };
    CurrentWallpaper { monitor, path }
}

/// `GET /api/style`: the current style, named as the API names it.
pub fn style_response(style: MultiWallpaperStyle) -> (r: StyleResponse)
    ensures
        r.style == api_style_of(style),
{
    StyleResponse { style: into_api_style(style) }
}

/// The text of the error answered when the main thread did not reply.
pub open spec fn no_reply_text() -> Seq<char> {
    "internal error"@
}

/// The error answered without a reply reads `internal error`.
pub proof fn lemma_no_reply_text()
    ensures
        no_reply_text() == "internal error"@,
{
}

/// `PUT /api/style`: on success the requested style is echoed; a failure
/// reported by the main thread is passed on; no reply gives `internal error`.
pub fn style_change_outcome(requested: ApiWallpaperStyle, reply: Option<Result<(), String>>) -> (r:
    Result<StyleResponse, String>)
    ensures
        match reply {
            Some(Ok(())) => r == Ok::<StyleResponse, String>(StyleResponse { style: requested }),
            Some(Err(e)) => r == Err::<StyleResponse, String>(e),
            None => r matches Err(t) && t@ == no_reply_text(),
        },
{
    match reply {
        Some(Ok(())) => Ok(StyleResponse { style: requested }),
        Some(Err(e)) => Err(e),
        None => Err(String::from_str("internal error")),
    }
}

/// `POST /api/wallpaper`: on success the answer names the requested monitor
/// (`all` for none) and the requested path; a failure reported by the main
/// thread is passed on; no reply gives `internal error`.
pub fn wallpaper_change_outcome(req: SetWallpaperRequest, reply: Option<Result<(), String>>) -> (r:
    Result<CurrentWallpaper, String>)
    ensures
        match reply {
            Some(Ok(())) => r matches Ok(answer) && answer.monitor@ == monitor_label(req.monitor)
                && answer.path == Some(req.path) && match req.monitor {
                Some(m) => answer.monitor@ == m@,
                None => answer.monitor@ == "all"@,
            },
            Some(Err(e)) => r == Err::<CurrentWallpaper, String>(e),
            None => r matches Err(t) && t@ == no_reply_text(),
        },
{
    match reply {
        Some(Ok(())) => {
            let monitor = match req.monitor {
                Some(m) => m,
                None => String::from_str("all"),
            };
            Ok(CurrentWallpaper { monitor, path: Some(req.path) })
        },
        Some(Err(e)) => Err(e),
        None => Err(String::from_str("internal error")),
    }
}

} // verus!
