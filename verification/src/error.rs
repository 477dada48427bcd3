//! Unified error type for all wallpaper operations.
use vstd::prelude::*;
use vstd::string::StringExecFns;

verus! {

/// Declares std's `std::io::Error`, so that the `Io` variant can carry one; its
/// contents stay opaque to the contracts.
#[verifier::external_type_specification]
#[verifier::external_body]
pub struct ExIoError(std::io::Error);

/// What `format!("{:?}", s)` gives for a string with the characters `s`: the
/// string in double quotes, with the characters that need it escaped.
pub uninterp spec fn debug_quoted(s: Seq<char>) -> Seq<char>;

/// A character that the `Debug` form of a string shows as itself: a printable
/// ASCII character other than a double quote or a backslash.
pub open spec fn shown_verbatim(c: char) -> bool {
    ' ' <= c <= '~' && c != '"' && c != '\\'
}

/// `format!("{:?}", s)` on a `String` (std's `Debug` for `str`). Its result is named
/// by `debug_quoted`; for text made only of printable ASCII characters other than
/// `"` and `\` the std documentation of `char::escape_debug` shows that nothing is
/// escaped, so the result is the text between two double quotes. What other
/// characters become is left unsaid.
#[verifier::external_body]
fn debug_text(s: &String) -> (r: String)
    ensures
        r@ == debug_quoted(s@),
        (forall|i: int| 0 <= i < s@.len() ==> shown_verbatim(#[trigger] s@[i])) ==> r@ == seq!['"']
            + s@ + seq!['"'],
{
    format!("{:?}", s)
}

/// Unified error type for all wallpaper operations.
#[derive(Debug)]
pub enum WallpaperError {
    /// An error coming from the underlying OS layer (e.g., Win32 COM).
    Os(String),
    /// A standard I/O error (e.g., when a file does not exist).
    Io(std::io::Error),
    /// The requested feature is not available on the current platform.
    Unsupported,
    /// The supplied monitor identifier is invalid.
    InvalidMonitor(String),
    /// An unknown wallpaper positioning value was returned by the OS.
    UnknownWallpaperPosition(String),
}

/// `text` is the human-readable message of `e`. The message of an `Io` error
/// carries the I/O error's own text, which only std's `Display` determines.
pub open spec fn is_message(e: &WallpaperError, text: Seq<char>) -> bool {
    match e {
        WallpaperError::Os(s) => text == "OS operation failed: "@ + s@,
        WallpaperError::Io(io) => exists|t: String|
            vstd::string::to_string_from_display_ensures::<std::io::Error>(io, t) && text
                == "I/O error: "@ + t@,
        WallpaperError::Unsupported => text == "Feature not supported on this platform"@,
        WallpaperError::InvalidMonitor(s) => text == "Invalid monitor ID: "@ + s@,
        WallpaperError::UnknownWallpaperPosition(s) => text
            == "Unknown desktop wallpaper position returned: "@ + debug_quoted(s@),
    }
}

impl WallpaperError {
    /// The human-readable message of the error.
    pub fn to_string(&self) -> (text: String)
        ensures
            is_message(self, text@),
    {
        match self {
            WallpaperError::Os(s) => String::from_str("OS operation failed: ").concat(s.as_str()),
            WallpaperError::Io(e) => {
                let t = e.to_string();
                String::from_str("I/O error: ").concat(t.as_str())
            },
            WallpaperError::Unsupported => String::from_str("Feature not supported on this platform"),
            WallpaperError::InvalidMonitor(s) => String::from_str("Invalid monitor ID: ").concat(s.as_str()),
            WallpaperError::UnknownWallpaperPosition(s) => {
                let quoted = debug_text(s);
                String::from_str("Unknown desktop wallpaper position returned: ").concat(
                    quoted.as_str(),
                )
            },
        }
    }
}

impl From<std::io::Error> for WallpaperError {
    fn from(err: std::io::Error) -> (r: Self) {
        WallpaperError::Io(err)
    }
}

impl vstd::std_specs::convert::FromSpecImpl<std::io::Error> for WallpaperError {
    open spec fn obeys_from_spec() -> bool {
        true
    }

    open spec fn from_spec(v: std::io::Error) -> Self {
        WallpaperError::Io(v)
    }
}

} // verus!
