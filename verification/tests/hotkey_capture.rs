use help_me_write::capture::{
    apply_plan, capture_plan, combo_events, text_for_popup, AccessibilityService, ApplyStep,
    CaptureStep, FallbackAccessibility, KeyEvent, VirtualKey, SETTLE_MILLIS,
};
use help_me_write::hotkey::{
    default_hotkey, effective_hotkey, initial_binding, plan_settings_rebind, HotkeyManager,
    RebindPlan,
};

#[test]
fn rebind_to_same_accelerator_is_a_noop() {
    let m = HotkeyManager::new("Ctrl+Shift+Space".to_string());
    let plan = m.plan_rebind("Ctrl+Shift+Space");
    assert!(matches!(plan, RebindPlan::NoChange));
}

#[test]
fn rebind_plans_a_swap_for_a_different_accelerator() {
    let m = HotkeyManager::new("Ctrl+Shift+Space".to_string());
    match m.plan_rebind("Ctrl+Alt+K") {
        RebindPlan::Swap { unregister, register } => {
            assert_eq!(unregister, "Ctrl+Shift+Space");
            assert_eq!(register, "Ctrl+Alt+K");
        }
        RebindPlan::NoChange => panic!("expected a swap"),
    }
}

#[test]
fn failed_registration_keeps_the_prior_binding_and_names_the_new_one() {
    let mut m = HotkeyManager::new("Ctrl+Shift+Space".to_string());
    let r = m.commit_rebind("Ctrl+Alt+K", Err("already in use".to_string()));
    let e = r.expect_err("registration failed, so the rebind must fail");
    assert_eq!(e.attempted, "Ctrl+Alt+K");
    assert_eq!(e.cause, "already in use");
    assert_eq!(m.current().as_str(), "Ctrl+Shift+Space");
    assert_eq!(
        e.message(),
        "Failed to register shortcut 'Ctrl+Alt+K'. It may be in use by another application. (already in use)"
    );
}

#[test]
fn successful_registration_moves_the_binding() {
    let mut m = HotkeyManager::new("Ctrl+Shift+Space".to_string());
    let r = m.commit_rebind("Ctrl+Alt+K", Ok(()));
    assert!(r.is_ok());
    assert_eq!(m.current().as_str(), "Ctrl+Alt+K");
}

#[test]
fn blank_stored_hotkey_falls_back_to_the_default() {
    assert_eq!(effective_hotkey(""), "Ctrl+Shift+Space");
    assert_eq!(effective_hotkey("   "), "Ctrl+Shift+Space");
    assert_eq!(effective_hotkey(" Ctrl+Q "), "Ctrl+Q");
    assert_eq!(default_hotkey(), "Ctrl+Shift+Space");
}

#[test]
fn settings_changes_compare_effective_accelerators() {
    assert!(matches!(plan_settings_rebind("", "  "), RebindPlan::NoChange));
    assert!(matches!(
        plan_settings_rebind("", "Ctrl+Shift+Space"),
        RebindPlan::NoChange
    ));
    match plan_settings_rebind(" Ctrl+Q ", "") {
        RebindPlan::Swap { unregister, register } => {
            assert_eq!(unregister, "Ctrl+Q");
            assert_eq!(register, "Ctrl+Shift+Space");
        }
        RebindPlan::NoChange => panic!("expected a swap"),
    }
}

#[test]
fn startup_registration_failure_is_surfaced_not_fatal() {
    let (m, e) = initial_binding("Ctrl+Shift+Space".to_string(), Err("denied".to_string()));
    assert!(m.is_none());
    let e = e.expect("a failure must be surfaced");
    assert_eq!(e.attempted, "Ctrl+Shift+Space");
    assert_eq!(e.cause, "denied");

    let (m, e) = initial_binding("Ctrl+Shift+Space".to_string(), Ok(()));
    assert_eq!(m.expect("manager").current().as_str(), "Ctrl+Shift+Space");
    assert!(e.is_none());
}

#[test]
fn combo_releases_hotkey_modifiers_before_pressing() {
    let events = combo_events(VirtualKey::KeyC);
    let expected = vec![
        KeyEvent { key: VirtualKey::Shift, release: true },
        KeyEvent { key: VirtualKey::Alt, release: true },
        KeyEvent { key: VirtualKey::Ctrl, release: false },
        KeyEvent { key: VirtualKey::KeyC, release: false },
        KeyEvent { key: VirtualKey::KeyC, release: true },
        KeyEvent { key: VirtualKey::Ctrl, release: true },
    ];
    assert_eq!(events, expected);
}

#[test]
fn capture_copies_waits_then_reads() {
    let steps = capture_plan();
    assert_eq!(
        steps,
        vec![
            CaptureStep::SendCombo(VirtualKey::KeyC),
            CaptureStep::SettleWait(SETTLE_MILLIS),
            CaptureStep::ReadClipboard,
        ]
    );
    assert_eq!(SETTLE_MILLIS, 100);
}

#[test]
fn apply_writes_clipboard_then_pastes() {
    let steps = apply_plan("fixed text".to_string());
    assert_eq!(steps.len(), 2);
    assert!(matches!(&steps[0], ApplyStep::WriteClipboard(t) if t == "fixed text"));
    assert!(matches!(&steps[1], ApplyStep::SendCombo(VirtualKey::KeyV)));
}

#[test]
fn fallback_platform_degrades_to_placeholder_and_noop() {
    let a = FallbackAccessibility {};
    assert_eq!(a.get_selected_text().unwrap(), "Selected text (placeholder)");
    assert!(a.replace_selected_text("anything").is_ok());
}

#[test]
fn capture_failure_still_opens_the_popup_empty() {
    assert_eq!(text_for_popup(Ok("picked".to_string())), "picked");
    assert_eq!(text_for_popup(Err("clipboard unavailable".to_string())), "");
}
