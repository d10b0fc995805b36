use crane::bootstrap::{
    advance, menu_command, next_action, run_startup, tray_click_command, BootAction, BootEvent,
    BootPhase, MouseButton, MouseButtonState, ShellCommand,
};
use crane::db::Database;
use crane::settings::fetch_user_settings;

#[test]
fn fresh_store_starts_without_tray() {
    let db = Database::new("t0".to_string());
    let settings = fetch_user_settings(&db).unwrap();
    assert!(!settings.show_app_in_system_tray);
    let events = vec![
        BootEvent::Done,
        BootEvent::Done,
        BootEvent::SettingsRead {
            show_app_in_system_tray: settings.show_app_in_system_tray,
        },
        BootEvent::Done,
    ];
    let (phase, tray_asked) = run_startup(&events);
    assert_eq!(phase, BootPhase::Ready { tray: false });
    assert!(!tray_asked);
}

#[test]
fn tray_flag_asks_for_tray_before_ready() {
    let events = vec![
        BootEvent::Done,
        BootEvent::Done,
        BootEvent::SettingsRead { show_app_in_system_tray: true },
    ];
    let (phase, tray_asked) = run_startup(&events);
    assert_eq!(phase, BootPhase::SettingsLoaded { show_tray: true });
    assert!(!tray_asked);
    assert_eq!(next_action(phase), BootAction::BuildTray);
    assert_eq!(advance(phase, BootEvent::Done), BootPhase::Ready { tray: true });
}

#[test]
fn actions_follow_the_phases() {
    assert_eq!(next_action(BootPhase::Uninitialized), BootAction::OpenPool);
    assert_eq!(next_action(BootPhase::PoolOpen), BootAction::RunMigrations);
    assert_eq!(next_action(BootPhase::Migrated), BootAction::ReadSettings);
    assert_eq!(next_action(BootPhase::SettingsLoaded { show_tray: false }), BootAction::Proceed);
    assert_eq!(next_action(BootPhase::Ready { tray: true }), BootAction::Serve);
    assert_eq!(next_action(BootPhase::Failed), BootAction::Abort);
}

#[test]
fn any_failure_aborts_startup() {
    let (phase, _) = run_startup(&vec![BootEvent::Done, BootEvent::Failed, BootEvent::Done]);
    assert_eq!(phase, BootPhase::Failed);
    assert_eq!(advance(BootPhase::Failed, BootEvent::Done), BootPhase::Failed);
    assert_eq!(advance(BootPhase::Uninitialized, BootEvent::Failed), BootPhase::Failed);
}

#[test]
fn unexpected_event_aborts_startup() {
    assert_eq!(
        advance(BootPhase::Migrated, BootEvent::Done),
        BootPhase::Failed
    );
    assert_eq!(
        advance(BootPhase::PoolOpen, BootEvent::SettingsRead { show_app_in_system_tray: true }),
        BootPhase::Failed
    );
}

#[test]
fn ready_is_final() {
    assert_eq!(
        advance(BootPhase::Ready { tray: false }, BootEvent::Failed),
        BootPhase::Ready { tray: false }
    );
}

#[test]
fn menu_items_route_to_commands() {
    assert_eq!(menu_command(&"hide".to_string()), Some(ShellCommand::HideWindows));
    assert_eq!(menu_command(&"quit".to_string()), Some(ShellCommand::Quit));
    assert_eq!(menu_command(&"other".to_string()), None);
    assert_eq!(menu_command(&String::new()), None);
}

#[test]
fn left_click_release_focuses_main_window() {
    assert_eq!(
        tray_click_command(MouseButton::Left, MouseButtonState::Up),
        Some(ShellCommand::FocusMain)
    );
    assert_eq!(tray_click_command(MouseButton::Left, MouseButtonState::Down), None);
    assert_eq!(tray_click_command(MouseButton::Right, MouseButtonState::Up), None);
}
