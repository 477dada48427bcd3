use deskwarp::platform::linux::LinuxWallpaperManager;
use deskwarp::platform::WallpaperManager;
use deskwarp::{Wallpaper, WallpaperError, WallpaperStyle};

#[test]
fn test_linux_stub_new() {
    let result = LinuxWallpaperManager::new();
    assert!(matches!(result, Err(WallpaperError::Unsupported)));
}

#[test]
fn test_linux_stub_set() {
    let manager = LinuxWallpaperManager;
    let result = manager.set("test.jpg", WallpaperStyle::Fill, None);
    assert!(matches!(result, Err(WallpaperError::Unsupported)));
}

#[test]
fn test_linux_stub_get() {
    let manager = LinuxWallpaperManager;
    let result = manager.get(None);
    assert!(matches!(result, Err(WallpaperError::Unsupported)));
}

#[test]
fn test_linux_stub_set_style() {
    let manager = LinuxWallpaperManager;
    let result = manager.set_style(WallpaperStyle::Fill);
    assert!(matches!(result, Err(WallpaperError::Unsupported)));
}

#[test]
fn test_linux_stub_get_style() {
    let manager = LinuxWallpaperManager;
    let result = manager.get_style();
    assert!(matches!(result, Err(WallpaperError::Unsupported)));
}

#[test]
fn test_linux_stub_list_monitors() {
    let manager = LinuxWallpaperManager;
    let result = manager.list_monitors();
    assert!(matches!(result, Err(WallpaperError::Unsupported)));
}

#[test]
fn wallpaper_new_is_unsupported_here() {
    let result = Wallpaper::<LinuxWallpaperManager>::new();
    assert!(matches!(result, Err(WallpaperError::Unsupported)));
}

#[test]
fn linux_stub_set_for_a_monitor() {
    let manager = LinuxWallpaperManager;
    let result = manager.set("/tmp/cat.png", WallpaperStyle::Span, Some("DISPLAY1"));
    assert!(matches!(result, Err(WallpaperError::Unsupported)));
    let result = manager.get(Some("DISPLAY1"));
    assert!(matches!(result, Err(WallpaperError::Unsupported)));
}
