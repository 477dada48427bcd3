use deskwarp::platform::windows::com::{
    ensure_sta, install_apartment, ComApartment, StaStep, S_FALSE, S_OK,
};
use deskwarp::platform::windows::{set_wallpaper_calls, ShellCall};
use deskwarp::platform::windows::{check_monitor, style_from_shell_position, wallpaper_from_shell_path};
use deskwarp::{WallpaperError, WallpaperStyle};

fn monitors() -> Vec<String> {
    vec!["\\\\.\\DISPLAY1".to_string(), "\\\\.\\DISPLAY2".to_string()]
}

#[test]
fn check_monitor_accepts_all_monitors() {
    assert!(check_monitor(&monitors(), None).is_ok());
    assert!(check_monitor(&Vec::new(), None).is_ok());
}

#[test]
fn check_monitor_accepts_a_listed_monitor() {
    assert!(check_monitor(&monitors(), Some("\\\\.\\DISPLAY2")).is_ok());
}

#[test]
fn check_monitor_refuses_an_unknown_monitor() {
    let result = check_monitor(&monitors(), Some("INVALID_GUID"));
    if let Err(WallpaperError::InvalidMonitor(id)) = result {
        assert_eq!(id, "INVALID_GUID");
    } else {
        panic!("Expected InvalidMonitor error");
    }
}

#[test]
fn empty_shell_path_means_no_wallpaper() {
    assert_eq!(wallpaper_from_shell_path(String::new()), None);
    assert_eq!(
        wallpaper_from_shell_path("C:\\pics\\cat.png".to_string()),
        Some("C:\\pics\\cat.png".to_string())
    );
}

#[test]
fn shell_position_to_style() {
    assert_eq!(
        style_from_shell_position(4, "DESKTOP_WALLPAPER_POSITION(4)".to_string()).unwrap(),
        WallpaperStyle::Fill
    );
    match style_from_shell_position(99, "DESKTOP_WALLPAPER_POSITION(99)".to_string()) {
        Err(WallpaperError::UnknownWallpaperPosition(t)) => {
            assert_eq!(t, "DESKTOP_WALLPAPER_POSITION(99)")
        }
        other => panic!("Expected UnknownWallpaperPosition, got {:?}", other),
    }
}

#[test]
fn apartment_from_init_results() {
    let owned = ComApartment::from_init_result(S_OK, "0x00000000").unwrap();
    assert!(owned.owns_init());
    let shared = ComApartment::from_init_result(S_FALSE, "0x00000001").unwrap();
    assert!(!shared.owns_init());
    match ComApartment::from_init_result(-2147417850, "0x80010106") {
        Err(WallpaperError::Os(t)) => assert_eq!(t, "CoInitializeEx failed: 0x80010106"),
        _ => panic!("Expected Os error"),
    }
}

#[test]
fn sta_initialisation_is_idempotent() {
    let mut slot: Option<ComApartment> = None;
    assert!(matches!(ensure_sta(&slot), StaStep::Initialise));
    assert!(install_apartment(&mut slot, S_OK, "0x00000000").is_ok());
    assert!(matches!(ensure_sta(&slot), StaStep::Ready));
    assert!(matches!(ensure_sta(&slot), StaStep::Ready));
    assert!(slot.as_ref().unwrap().owns_init());
}

#[test]
fn failed_sta_initialisation_leaves_the_slot_empty() {
    let mut slot: Option<ComApartment> = None;
    assert!(install_apartment(&mut slot, -2147417850, "0x80010106").is_err());
    assert!(slot.is_none());
    assert!(matches!(ensure_sta(&slot), StaStep::Initialise));
}

#[test]
fn setting_a_wallpaper_sets_the_image_then_the_position() {
    assert_eq!(
        set_wallpaper_calls("C:\\cat.png", WallpaperStyle::Fit, Some("\\\\.\\DISPLAY1")),
        vec![
            ShellCall::SetWallpaper {
                monitor: Some("\\\\.\\DISPLAY1".to_string()),
                path: "C:\\cat.png".to_string()
            },
            ShellCall::SetPosition { position: 3 },
        ]
    );
    assert_eq!(
        set_wallpaper_calls("C:\\cat.png", WallpaperStyle::Span, None),
        vec![
            ShellCall::SetWallpaper { monitor: None, path: "C:\\cat.png".to_string() },
            ShellCall::SetPosition { position: 5 },
        ]
    );
}
