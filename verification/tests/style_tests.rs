use deskwarp::style::{DWPOS_CENTER, DWPOS_FILL, DWPOS_FIT, DWPOS_SPAN, DWPOS_STRETCH, DWPOS_TILE};
use deskwarp::WallpaperStyle;

#[test]
fn test_to_windows_conversion() {
    assert_eq!(WallpaperStyle::Center.to_windows(), DWPOS_CENTER);
    assert_eq!(WallpaperStyle::Tile.to_windows(), DWPOS_TILE);
    assert_eq!(WallpaperStyle::Stretch.to_windows(), DWPOS_STRETCH);
    assert_eq!(WallpaperStyle::Fit.to_windows(), DWPOS_FIT);
    assert_eq!(WallpaperStyle::Fill.to_windows(), DWPOS_FILL);
    assert_eq!(WallpaperStyle::Span.to_windows(), DWPOS_SPAN);
}

#[test]
fn test_from_windows_known_positions() {
    assert_eq!(
        WallpaperStyle::from_windows(DWPOS_CENTER),
        Some(WallpaperStyle::Center)
    );
    assert_eq!(
        WallpaperStyle::from_windows(DWPOS_TILE),
        Some(WallpaperStyle::Tile)
    );
    assert_eq!(
        WallpaperStyle::from_windows(DWPOS_STRETCH),
        Some(WallpaperStyle::Stretch)
    );
    assert_eq!(
        WallpaperStyle::from_windows(DWPOS_FIT),
        Some(WallpaperStyle::Fit)
    );
    assert_eq!(
        WallpaperStyle::from_windows(DWPOS_FILL),
        Some(WallpaperStyle::Fill)
    );
    assert_eq!(
        WallpaperStyle::from_windows(DWPOS_SPAN),
        Some(WallpaperStyle::Span)
    );
}

#[test]
fn test_from_windows_unknown_position() {
    // A value that names no position.
    let unknown_pos: i32 = 99;
    assert_eq!(WallpaperStyle::from_windows(unknown_pos), None);
}

#[test]
fn win32_position_codes() {
    assert_eq!(DWPOS_CENTER, 0);
    assert_eq!(DWPOS_TILE, 1);
    assert_eq!(DWPOS_STRETCH, 2);
    assert_eq!(DWPOS_FIT, 3);
    assert_eq!(DWPOS_FILL, 4);
    assert_eq!(DWPOS_SPAN, 5);
}

#[test]
fn from_windows_inverts_to_windows_for_every_style() {
    let all = [
        WallpaperStyle::Center,
        WallpaperStyle::Tile,
        WallpaperStyle::Stretch,
        WallpaperStyle::Fit,
        WallpaperStyle::Fill,
        WallpaperStyle::Span,
    ];
    for style in all {
        assert_eq!(WallpaperStyle::from_windows(style.to_windows()), Some(style));
    }
}

#[test]
fn from_windows_rejects_codes_out_of_range() {
    assert_eq!(WallpaperStyle::from_windows(-1), None);
    assert_eq!(WallpaperStyle::from_windows(6), None);
    assert_eq!(WallpaperStyle::from_windows(i32::MIN), None);
    assert_eq!(WallpaperStyle::from_windows(i32::MAX), None);
}
