//! One-to-one conversions between the API's and the library's styles.
use vstd::prelude::*;

use crate::api_models::WallpaperStyle as ApiWallpaperStyle;
use crate::style::WallpaperStyle as MultiWallpaperStyle;

verus! {

/// The library style that an API style names.
pub open spec fn multi_style_of(api: ApiWallpaperStyle) -> MultiWallpaperStyle {
    match api {
        ApiWallpaperStyle::Center => MultiWallpaperStyle::Center,
        ApiWallpaperStyle::Tile => MultiWallpaperStyle::Tile,
        ApiWallpaperStyle::Stretch => MultiWallpaperStyle::Stretch,
        ApiWallpaperStyle::Fit => MultiWallpaperStyle::Fit,
        ApiWallpaperStyle::Fill => MultiWallpaperStyle::Fill,
        ApiWallpaperStyle::Span => MultiWallpaperStyle::Span,
    }
}

/// The API style that names a library style.
pub open spec fn api_style_of(multi: MultiWallpaperStyle) -> ApiWallpaperStyle {
    match multi {
        MultiWallpaperStyle::Center => ApiWallpaperStyle::Center,
        MultiWallpaperStyle::Tile => ApiWallpaperStyle::Tile,
        MultiWallpaperStyle::Stretch => ApiWallpaperStyle::Stretch,
        MultiWallpaperStyle::Fit => ApiWallpaperStyle::Fit,
        MultiWallpaperStyle::Fill => ApiWallpaperStyle::Fill,
        MultiWallpaperStyle::Span => ApiWallpaperStyle::Span,
    }
}

/// Convert an API style to the library's style of the same name.
pub fn into_multi_style(api: ApiWallpaperStyle) -> (r: MultiWallpaperStyle)
    ensures
        r == multi_style_of(api),
{
    match api {
        ApiWallpaperStyle::Center => MultiWallpaperStyle::Center,
        ApiWallpaperStyle::Tile => MultiWallpaperStyle::Tile,
        ApiWallpaperStyle::Stretch => MultiWallpaperStyle::Stretch,
        ApiWallpaperStyle::Fit => MultiWallpaperStyle::Fit,
        ApiWallpaperStyle::Fill => MultiWallpaperStyle::Fill,
        ApiWallpaperStyle::Span => MultiWallpaperStyle::Span,
    }
}

/// Convert a library style to the API's style of the same name.
pub fn into_api_style(multi: MultiWallpaperStyle) -> (r: ApiWallpaperStyle)
    ensures
        r == api_style_of(multi),
{
    match multi {
        MultiWallpaperStyle::Center => ApiWallpaperStyle::Center,
        MultiWallpaperStyle::Tile => ApiWallpaperStyle::Tile,
        MultiWallpaperStyle::Stretch => ApiWallpaperStyle::Stretch,
        MultiWallpaperStyle::Fit => ApiWallpaperStyle::Fit,
        MultiWallpaperStyle::Fill => ApiWallpaperStyle::Fill,
        MultiWallpaperStyle::Span => ApiWallpaperStyle::Span,
    }
}

/// Each style converts to the style of the same name, in both directions.
pub proof fn lemma_styles_keep_their_names()
    ensures
        multi_style_of(ApiWallpaperStyle::Center) == MultiWallpaperStyle::Center,
        multi_style_of(ApiWallpaperStyle::Tile) == MultiWallpaperStyle::Tile,
        multi_style_of(ApiWallpaperStyle::Stretch) == MultiWallpaperStyle::Stretch,
        multi_style_of(ApiWallpaperStyle::Fit) == MultiWallpaperStyle::Fit,
        multi_style_of(ApiWallpaperStyle::Fill) == MultiWallpaperStyle::Fill,
        multi_style_of(ApiWallpaperStyle::Span) == MultiWallpaperStyle::Span,
        api_style_of(MultiWallpaperStyle::Center) == ApiWallpaperStyle::Center,
        api_style_of(MultiWallpaperStyle::Tile) == ApiWallpaperStyle::Tile,
        api_style_of(MultiWallpaperStyle::Stretch) == ApiWallpaperStyle::Stretch,
        api_style_of(MultiWallpaperStyle::Fit) == ApiWallpaperStyle::Fit,
        api_style_of(MultiWallpaperStyle::Fill) == ApiWallpaperStyle::Fill,
        api_style_of(MultiWallpaperStyle::Span) == ApiWallpaperStyle::Span,
{
}

/// The API's styles mirror the library's one to one: converting an API style
/// to the library and back gives the same style.
pub proof fn lemma_api_style_round_trip(api: ApiWallpaperStyle)
    ensures
        api_style_of(multi_style_of(api)) == api,
{
}

/// Converting a library style to the API and back gives the same style.
pub proof fn lemma_multi_style_round_trip(multi: MultiWallpaperStyle)
    ensures
        multi_style_of(api_style_of(multi)) == multi,
{
}

} // verus!
