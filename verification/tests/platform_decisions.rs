use motsdits::platform::{
    hidden_window_uses_accessory_policy, initializes_frontendless_components,
    reopen_shows_main_window, should_force_show_permissions_window,
    should_show_initial_webview, showing_window_restores_regular_policy,
    start_hidden_uses_accessory_policy, uses_native_settings_ui, Platform,
};
use motsdits::startup::{
    build_step, frontend_watchdog_action, main_window_spec, quarantine_reason_text,
    runs_frontend_watchdog, BuildAction, BuildEvent, BuildPhase, QuarantineReason,
    WatchdogAction, FRONTEND_READY_TIMEOUT_SECS, MAIN_WINDOW_LABEL,
};
use motsdits::webview_profile::recovery_allowed_after;

const ALL: [Platform; 4] = [Platform::Linux, Platform::MacOs, Platform::Windows, Platform::Other];

#[test]
fn native_settings_ui_only_on_linux() {
    assert!(uses_native_settings_ui(Platform::Linux));
    assert!(!uses_native_settings_ui(Platform::MacOs));
    assert!(!uses_native_settings_ui(Platform::Windows));
    assert!(!uses_native_settings_ui(Platform::Other));
}

#[test]
fn native_settings_ui_keeps_webview_hidden_on_every_input() {
    for f in [false, true] {
        for h in [false, true] {
            for t in [false, true] {
                assert!(!should_show_initial_webview(Platform::Linux, f, h, t));
            }
        }
    }
}

#[test]
fn initial_webview_visibility_off_linux() {
    for p in [Platform::MacOs, Platform::Windows, Platform::Other] {
        // hidden start into an available tray stays hidden
        assert!(!should_show_initial_webview(p, false, true, true));
        // forced, not hidden, or no tray: shown
        assert!(should_show_initial_webview(p, true, true, true));
        assert!(should_show_initial_webview(p, false, false, true));
        assert!(should_show_initial_webview(p, false, true, false));
    }
}

#[test]
fn frontendless_components_only_on_linux() {
    for p in ALL {
        assert_eq!(initializes_frontendless_components(p), p == Platform::Linux);
    }
}

#[test]
fn permissions_window_forced_only_on_windows_with_models_and_denied_microphone() {
    assert!(should_force_show_permissions_window(Platform::Windows, true, true, true));
    assert!(!should_force_show_permissions_window(Platform::Windows, false, true, true));
    assert!(!should_force_show_permissions_window(Platform::Windows, true, false, true));
    assert!(!should_force_show_permissions_window(Platform::Windows, true, true, false));
    assert!(!should_force_show_permissions_window(Platform::Linux, true, true, true));
    assert!(!should_force_show_permissions_window(Platform::MacOs, true, true, true));
}

#[test]
fn macos_activation_policy_decisions() {
    assert!(start_hidden_uses_accessory_policy(Platform::MacOs, true, true));
    assert!(!start_hidden_uses_accessory_policy(Platform::MacOs, false, true));
    assert!(!start_hidden_uses_accessory_policy(Platform::MacOs, true, false));
    assert!(!start_hidden_uses_accessory_policy(Platform::Windows, true, true));
    assert!(hidden_window_uses_accessory_policy(Platform::MacOs, true, false));
    assert!(!hidden_window_uses_accessory_policy(Platform::MacOs, true, true));
    assert!(!hidden_window_uses_accessory_policy(Platform::MacOs, false, false));
    assert!(!hidden_window_uses_accessory_policy(Platform::Linux, true, false));
    assert!(reopen_shows_main_window(Platform::MacOs, true));
    assert!(!reopen_shows_main_window(Platform::MacOs, false));
    assert!(!reopen_shows_main_window(Platform::Windows, true));
    assert!(showing_window_restores_regular_policy(Platform::MacOs));
    assert!(!showing_window_restores_regular_policy(Platform::Linux));
}

#[test]
fn main_window_on_linux_is_a_hidden_placeholder() {
    let w = main_window_spec(Platform::Linux);
    assert_eq!(w.label, MAIN_WINDOW_LABEL);
    assert_eq!(w.label, "main");
    assert_eq!(w.url, "about:blank");
    assert_eq!(w.title, "");
    assert_eq!(w.inner_size, (1, 1));
    assert_eq!(w.min_inner_size, None);
    assert_eq!(w.skip_taskbar, Some(true));
    assert_eq!(w.resizable, None);
    assert!(!w.visible);
    assert!(!w.uses_profile_dir);
    assert!(!w.recovers_profile);
}

#[test]
fn main_window_elsewhere_is_the_full_window() {
    for p in [Platform::MacOs, Platform::Windows, Platform::Other] {
        let w = main_window_spec(p);
        assert_eq!(w.url, "/");
        assert_eq!(w.title, "MotsDits");
        assert_eq!(w.inner_size, (1100, 760));
        assert_eq!(w.min_inner_size, Some((960, 640)));
        assert_eq!(w.resizable, Some(true));
        assert_eq!(w.maximizable, Some(true));
        assert_eq!(w.skip_taskbar, None);
        assert!(!w.visible);
        assert!(w.uses_profile_dir);
        assert_eq!(w.recovers_profile, p == Platform::Windows);
    }
}

fn run(events: &[BuildEvent]) -> Option<(BuildPhase, Vec<BuildAction>)> {
    let mut phase = BuildPhase::Starting;
    let mut actions = Vec::new();
    for e in events {
        let (next, action) = build_step(phase, *e)?;
        phase = next;
        actions.push(action);
    }
    Some((phase, actions))
}

#[test]
fn build_succeeds_first_time() {
    let (phase, actions) = run(&[
        BuildEvent::Started { recovery_pending: false },
        BuildEvent::BuildSucceeded,
    ])
    .unwrap();
    assert_eq!(phase, BuildPhase::Done);
    assert_eq!(actions, vec![BuildAction::BuildWindow, BuildAction::Succeed]);
}

#[test]
fn pending_recovery_quarantines_before_building() {
    let (_, actions) = run(&[
        BuildEvent::Started { recovery_pending: true },
        BuildEvent::QuarantineFinished,
        BuildEvent::BuildSucceeded,
    ])
    .unwrap();
    assert_eq!(
        actions,
        vec![
            BuildAction::Quarantine(QuarantineReason::Pending),
            BuildAction::BuildWindow,
            BuildAction::Succeed
        ]
    );
}

#[test]
fn corrupt_profile_is_quarantined_and_build_retried_once() {
    let (phase, actions) = run(&[
        BuildEvent::Started { recovery_pending: false },
        BuildEvent::BuildFailed { profile_corrupt: true },
        BuildEvent::QuarantineFinished,
        BuildEvent::BuildFailed { profile_corrupt: true },
    ])
    .unwrap();
    assert_eq!(phase, BuildPhase::Done);
    assert_eq!(
        actions,
        vec![
            BuildAction::BuildWindow,
            BuildAction::Quarantine(QuarantineReason::Startup),
            BuildAction::BuildWindow,
            BuildAction::Fail
        ]
    );
    // nothing more is accepted once done
    assert_eq!(build_step(BuildPhase::Done, BuildEvent::QuarantineFinished), None);
}

#[test]
fn other_build_error_fails_at_once() {
    let (phase, actions) = run(&[
        BuildEvent::Started { recovery_pending: false },
        BuildEvent::BuildFailed { profile_corrupt: false },
    ])
    .unwrap();
    assert_eq!(phase, BuildPhase::Done);
    assert_eq!(actions, vec![BuildAction::BuildWindow, BuildAction::Fail]);
}

#[test]
fn unexpected_build_event_is_refused() {
    assert_eq!(build_step(BuildPhase::Starting, BuildEvent::BuildSucceeded), None);
    assert_eq!(build_step(BuildPhase::FirstBuild, BuildEvent::QuarantineFinished), None);
}

#[test]
fn quarantine_reasons_as_text() {
    assert_eq!(quarantine_reason_text(QuarantineReason::Pending), "pending");
    assert_eq!(quarantine_reason_text(QuarantineReason::Startup), "startup");
}

#[test]
fn watchdog_decisions() {
    assert!(runs_frontend_watchdog(Platform::Windows));
    assert!(!runs_frontend_watchdog(Platform::Linux));
    assert_eq!(FRONTEND_READY_TIMEOUT_SECS, 12);
    assert_eq!(frontend_watchdog_action(false, false, true), WatchdogAction::Stop);
    assert_eq!(frontend_watchdog_action(true, true, true), WatchdogAction::ClearRecoveryMarker);
    assert_eq!(frontend_watchdog_action(true, false, false), WatchdogAction::GiveUp);
    assert_eq!(frontend_watchdog_action(true, false, true), WatchdogAction::RecoverAndRelaunch);
}

#[test]
fn recent_marker_blocks_relaunch() {
    let allowed = recovery_allowed_after(Some((120, 0)));
    assert_eq!(frontend_watchdog_action(true, false, allowed), WatchdogAction::GiveUp);
    let allowed = recovery_allowed_after(Some((601, 0)));
    assert_eq!(frontend_watchdog_action(true, false, allowed), WatchdogAction::RecoverAndRelaunch);
}
