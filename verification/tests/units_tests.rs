use systemd_tui::actions::{call_failure_context, plan_unit_action, ActionError, UnitAction};
use systemd_tui::manager::{
    auto_connect_failure, forwarding_continues, journal_failure_message, journalctl_args,
    output_lines, ssh_remote_options, ssh_remote_target, trim, SendOutcome,
};
use systemd_tui::bus::BusKind;
use systemd_tui::text::{contains_chars, decimal_string, str_lt};
use systemd_tui::units::{StatusTone, SystemdUnit, UnitActiveState, UnitLoadState};

fn listed(name: &str, load: &str, active: &str) -> SystemdUnit {
    SystemdUnit::from_listing(
        name.to_string(),
        "desc".to_string(),
        load,
        active,
        "sub".to_string(),
        String::new(),
        "/path".to_string(),
    )
}

#[test]
fn load_states_read_from_text() {
    assert_eq!(UnitLoadState::from_raw("loaded"), UnitLoadState::Loaded);
    assert_eq!(UnitLoadState::from_raw("not-found"), UnitLoadState::NotFound);
    assert_eq!(UnitLoadState::from_raw("bad-setting"), UnitLoadState::BadSetting);
    assert_eq!(UnitLoadState::from_raw("masked"), UnitLoadState::Masked);
    assert_eq!(UnitLoadState::from_raw("stub"), UnitLoadState::Unknown);
    assert_eq!(UnitLoadState::NotFound.variant_name(), "NotFound");
    assert_eq!(UnitLoadState::BadSetting.column_label(), "badsetting");
}

#[test]
fn active_states_round_trip_through_text() {
    for state in [
        UnitActiveState::Active,
        UnitActiveState::Inactive,
        UnitActiveState::Activating,
        UnitActiveState::Deactivating,
        UnitActiveState::Failed,
        UnitActiveState::Unknown,
    ] {
        assert_eq!(UnitActiveState::from_raw(state.as_str()), state);
    }
    assert_eq!(UnitActiveState::from_raw("reloading"), UnitActiveState::Unknown);
}

#[test]
fn listing_rows_become_units_with_glyphs_and_tones() {
    let u = listed("a.service", "loaded", "deactivating");
    assert_eq!(u.load_state, UnitLoadState::Loaded);
    assert_eq!(u.active_state, UnitActiveState::Deactivating);
    assert_eq!(u.active_glyph(), "#");
    assert_eq!(u.status_tone(), StatusTone::Warning);
    assert_eq!(listed("b", "masked", "failed").active_glyph(), "X");
    assert_eq!(listed("b", "masked", "failed").status_tone(), StatusTone::Error);
    assert_eq!(listed("b", "masked", "active").active_glyph(), "+");
    assert_eq!(listed("b", "masked", "active").status_tone(), StatusTone::Good);
    assert_eq!(listed("b", "masked", "activating").active_glyph(), "~");
    assert_eq!(listed("b", "masked", "inactive").active_glyph(), " ");
    assert_eq!(listed("b", "masked", "weird").status_tone(), StatusTone::Inactive);
    assert_eq!(
        u.table_cells(),
        vec!["a.service", "deactivating", "sub", "loaded", "desc", "#"]
    );
}

#[test]
fn unit_actions_plan_manager_calls() {
    let u = listed("a.service", "loaded", "active");
    let req = plan_unit_action(Some(&u), UnitAction::Restart).ok().unwrap();
    assert_eq!(req.method, "RestartUnit");
    assert_eq!(req.unit_name, "a.service");
    assert_eq!(req.mode, "replace");
    assert!(matches!(
        plan_unit_action(None, UnitAction::Start),
        Err(ActionError::NoSelection)
    ));
    assert_eq!(ActionError::NoSelection.message(), "no unit selected");
    assert_eq!(UnitAction::Stop.label(), "stop");
    assert_eq!(UnitAction::Reload.dbus_method(), "ReloadUnit");
    assert_eq!(
        call_failure_context(UnitAction::Start, "x.service"),
        "StartUnit failed for x.service"
    );
}

#[test]
fn journal_arguments() {
    assert_eq!(
        journalctl_args(BusKind::System, "a.service", 200),
        vec!["-u", "a.service", "-n", "200", "--no-pager", "-o", "short-iso"]
    );
    assert_eq!(
        journalctl_args(BusKind::Session, "a.service", 7),
        vec!["--user", "-u", "a.service", "-n", "7", "--no-pager", "-o", "short-iso"]
    );
    assert_eq!(ssh_remote_options(22), vec!["-o", "BatchMode=yes", "-p", "22"]);
    assert_eq!(
        ssh_remote_target("root@srv", "journalctl", &["-u".to_string(), "x".to_string()]),
        vec!["root@srv", "journalctl", "-u", "x"]
    );
}

#[test]
fn command_output_and_failures() {
    assert_eq!(output_lines("a\nb\r\n\nc"), vec!["a", "b", "", "c"]);
    assert_eq!(output_lines("a\n"), vec!["a"]);
    assert_eq!(output_lines("x\r"), vec!["x\r"]);
    assert!(output_lines("").is_empty());
    assert_eq!(trim("  \t hello world \n"), "hello world");
    assert_eq!(trim(" \u{3000} "), "");
    assert_eq!(
        journal_failure_message("a.service", "exit status: 1", ""),
        "journalctl failed for a.service with status exit status: 1"
    );
    assert_eq!(
        journal_failure_message("a.service", "exit status: 1", "No journal files"),
        "journalctl failed for a.service: No journal files"
    );
    assert_eq!(
        auto_connect_failure("no system", "no session"),
        "failed to connect system bus (no system) and session bus (no session)"
    );
    assert!(forwarding_continues(SendOutcome::Sent));
    assert!(forwarding_continues(SendOutcome::Full));
    assert!(!forwarding_continues(SendOutcome::Closed));
}

#[test]
fn text_helpers() {
    assert_eq!(decimal_string(0), "0");
    assert_eq!(decimal_string(1234567890), "1234567890");
    assert!(str_lt("a", "b"));
    assert!(str_lt("ab", "abc"));
    assert!(!str_lt("abc", "abc"));
    assert!(!str_lt("b", "a"));
    let hay: Vec<char> = "openssh daemon".chars().collect();
    let needle: Vec<char> = "daemon".chars().collect();
    assert!(contains_chars(&hay, &needle));
    assert!(contains_chars(&hay, &Vec::new()));
    assert!(!contains_chars(&needle, &hay));
}
