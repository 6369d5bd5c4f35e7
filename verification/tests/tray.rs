use dsh_client::manager::KernelManager;
use dsh_client::shell::{
    autostart_mark, directory_opener, menu_action, shown_status, toggled_autostart, tray_menu,
    ClientAction, ClientEvent, ClientUpdate, MenuAction, Platform, TrayEntry,
};

#[test]
fn the_menu_is_complete_and_served() {
    let menu = tray_menu();
    assert_eq!(menu.len(), 8);
    assert_eq!(menu[0], TrayEntry::Item { id: "show", label: "打开主界面" });
    assert_eq!(menu[1], TrayEntry::Separator);
    assert_eq!(menu[6], TrayEntry::Check { id: "autostart", label: "开机自启" });
    let mut actions = Vec::new();
    for entry in menu {
        if let TrayEntry::Item { id, .. } | TrayEntry::Check { id, .. } = entry {
            actions.push(menu_action(id));
        }
    }
    assert_eq!(
        actions,
        vec![
            MenuAction::ShowWindow,
            MenuAction::CheckClient,
            MenuAction::CheckKernel,
            MenuAction::OpenLogs,
            MenuAction::ToggleAutostart,
            MenuAction::Quit,
        ]
    );
}

#[test]
fn unknown_entries_do_nothing() {
    assert_eq!(menu_action(""), MenuAction::Nothing);
    assert_eq!(menu_action("Show"), MenuAction::Nothing);
    assert_eq!(menu_action("quit "), MenuAction::Nothing);
}

#[test]
fn autostart_is_toggled_where_it_is_known() {
    assert_eq!(toggled_autostart(Some(true)), Some(false));
    assert_eq!(toggled_autostart(Some(false)), Some(true));
    assert_eq!(toggled_autostart(None), None);
    assert!(autostart_mark(Some(true)));
    assert!(!autostart_mark(Some(false)));
    assert!(!autostart_mark(None));
}

#[test]
fn a_development_build_shows_dev() {
    let mut kernel = KernelManager::new("1.0.0", "0.1.0");
    assert_eq!(shown_status(kernel.status(), true).phase, "dev");
    assert_eq!(shown_status(kernel.status(), false).phase, "idle");
    let _ = kernel.start();
    let shown = shown_status(kernel.status(), true);
    assert_eq!(shown.phase, "installing");
    assert_eq!(shown.version, "1.0.0");
}

#[test]
fn each_platform_opens_directories_its_way() {
    assert_eq!(directory_opener(Platform::MacOs), "open");
    assert_eq!(directory_opener(Platform::Windows), "explorer");
    assert_eq!(directory_opener(Platform::Linux), "xdg-open");
}

#[test]
fn a_client_update_is_installed() {
    let mut job = ClientUpdate::new();
    assert_eq!(job.advance(ClientEvent::Opened(Ok(()))), ClientAction::Check);
    assert_eq!(
        job.advance(ClientEvent::Checked(Ok(Some("0.2.0".to_string())))),
        ClientAction::Install { version: "0.2.0".to_string() }
    );
    assert_eq!(job.advance(ClientEvent::Installed(Ok(()))), ClientAction::ReportInstalled);
    assert_eq!(job.advance(ClientEvent::Installed(Ok(()))), ClientAction::Ignore);
    assert_eq!(job.advance(ClientEvent::Announced), ClientAction::Restart);
    assert_eq!(job.advance(ClientEvent::Announced), ClientAction::Ignore);
}

#[test]
fn the_client_does_not_restart_without_an_update() {
    let mut job = ClientUpdate::new();
    assert_eq!(job.advance(ClientEvent::Announced), ClientAction::Ignore);
    let _ = job.advance(ClientEvent::Opened(Ok(())));
    assert_eq!(job.advance(ClientEvent::Announced), ClientAction::Ignore);
    assert_eq!(job.advance(ClientEvent::Checked(Ok(None))), ClientAction::ReportUpToDate);
    assert_eq!(job.advance(ClientEvent::Announced), ClientAction::Ignore);
}

#[test]
fn a_client_update_can_end_early() {
    let failed = || ClientAction::Fail("e".to_string());
    let mut job = ClientUpdate::new();
    assert_eq!(job.advance(ClientEvent::Opened(Err("e".to_string()))), failed());
    let mut job = ClientUpdate::new();
    let _ = job.advance(ClientEvent::Opened(Ok(())));
    assert_eq!(job.advance(ClientEvent::Checked(Err("e".to_string()))), failed());
    let mut job = ClientUpdate::new();
    let _ = job.advance(ClientEvent::Opened(Ok(())));
    assert_eq!(job.advance(ClientEvent::Checked(Ok(None))), ClientAction::ReportUpToDate);
    let mut job = ClientUpdate::new();
    let _ = job.advance(ClientEvent::Opened(Ok(())));
    let _ = job.advance(ClientEvent::Checked(Ok(Some("2".to_string()))));
    assert_eq!(job.advance(ClientEvent::Installed(Err("e".to_string()))), failed());
}
