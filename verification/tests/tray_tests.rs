use deskwarp::tray::{TrayAction, TrayMenu};

fn menu() -> TrayMenu {
    TrayMenu::new("1001".to_string(), "1002".to_string(), "1003".to_string())
}

#[test]
fn menu_entries_select_actions() {
    let mut m = menu();
    assert_eq!(m.on_menu_event(&"1001".to_string()), TrayAction::NextWallpaper);
    assert_eq!(m.on_menu_event(&"1002".to_string()), TrayAction::OpenGui);
    assert_eq!(m.on_menu_event(&"9999".to_string()), TrayAction::Ignored);
}

#[test]
fn exit_signals_shutdown_once() {
    let mut m = menu();
    assert_eq!(
        m.on_menu_event(&"1003".to_string()),
        TrayAction::Exit { signal_shutdown: true }
    );
    assert_eq!(
        m.on_menu_event(&"1003".to_string()),
        TrayAction::Exit { signal_shutdown: false }
    );
    assert_eq!(m.on_menu_event(&"1001".to_string()), TrayAction::NextWallpaper);
}

#[test]
fn other_events_after_exit_send_no_signal() {
    let mut m = menu();
    assert_eq!(m.on_menu_event(&"1002".to_string()), TrayAction::OpenGui);
    assert_eq!(
        m.on_menu_event(&"1003".to_string()),
        TrayAction::Exit { signal_shutdown: true }
    );
    assert_eq!(m.on_menu_event(&"4242".to_string()), TrayAction::Ignored);
    assert_eq!(m.on_menu_event(&"1002".to_string()), TrayAction::OpenGui);
    assert_eq!(
        m.on_menu_event(&"1003".to_string()),
        TrayAction::Exit { signal_shutdown: false }
    );
}
