use deskwarp::commands::{change_reply, monitors_reply, wallpaper_reply};
use deskwarp::WallpaperError;

#[test]
fn monitors_reply_passes_the_list_on() {
    assert_eq!(
        monitors_reply(Ok(vec!["DISPLAY1".to_string()])),
        vec!["DISPLAY1".to_string()]
    );
    assert!(monitors_reply(Err(WallpaperError::Unsupported)).is_empty());
}

#[test]
fn wallpaper_reply_passes_the_path_on() {
    assert_eq!(
        wallpaper_reply(Ok(Some("C:\\cat.png".to_string()))),
        Some("C:\\cat.png".to_string())
    );
    assert_eq!(wallpaper_reply(Ok(None)), None);
    assert_eq!(wallpaper_reply(Err(WallpaperError::Unsupported)), None);
}

#[test]
fn change_reply_gives_the_error_message() {
    assert_eq!(change_reply(Ok(())), Ok(()));
    assert_eq!(
        change_reply(Err(WallpaperError::InvalidMonitor("INVALID_GUID".to_string()))),
        Err("Invalid monitor ID: INVALID_GUID".to_string())
    );
}
