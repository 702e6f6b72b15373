use systemd_tui::actions::UnitAction;
use systemd_tui::app::{
    interval_elapsed, refresh_for_signals, App, Effect, FocusBlock, Key, LayoutMode, StateFilter,
};
use systemd_tui::units::{SystemdUnit, UnitActiveState, UnitLoadState};

fn unit(name: &str, description: &str, active_state: UnitActiveState) -> SystemdUnit {
    SystemdUnit {
        name: name.to_string(),
        description: description.to_string(),
        load_state: UnitLoadState::Loaded,
        active_state,
        sub_state: "running".to_string(),
        follows: String::new(),
        path: format!("/org/freedesktop/systemd1/unit/{}", name.replace('.', "_")),
    }
}

fn loaded_app(units: Vec<SystemdUnit>) -> App {
    let mut app = App::new("local:system".to_string());
    app.apply_units(units, "12:00:00".to_string());
    app
}

#[test]
fn state_filter_cycle_roundtrip() {
    let mut state = StateFilter::All;
    state = state.cycle();
    assert_eq!(state, StateFilter::Active);
    state = state.cycle();
    assert_eq!(state, StateFilter::Inactive);
    state = state.cycle();
    assert_eq!(state, StateFilter::Failed);
    state = state.cycle();
    assert_eq!(state, StateFilter::All);
}

#[test]
fn focus_block_next_prev_roundtrip() {
    let units = FocusBlock::Units;
    let details = units.next();
    let logs = details.next();
    assert_eq!(details, FocusBlock::Details);
    assert_eq!(logs, FocusBlock::Logs);
    assert_eq!(logs.next(), FocusBlock::Units);

    assert_eq!(FocusBlock::Units.prev(), FocusBlock::Logs);
    assert_eq!(FocusBlock::Logs.prev(), FocusBlock::Details);
    assert_eq!(FocusBlock::Details.prev(), FocusBlock::Units);
}

#[test]
fn layout_mode_toggle_roundtrip() {
    let mut layout = LayoutMode::Horizontal;
    layout = layout.toggle();
    assert_eq!(layout, LayoutMode::Vertical);
    layout = layout.toggle();
    assert_eq!(layout, LayoutMode::Horizontal);
}

#[test]
fn matches_state_filter_variants() {
    let active = unit("active.service", "Active unit", UnitActiveState::Active);
    let inactive = unit(
        "inactive.service",
        "Inactive unit",
        UnitActiveState::Inactive,
    );
    let failed = unit("failed.service", "Failed unit", UnitActiveState::Failed);

    assert!(App::matches_state_filter_for(StateFilter::All, &active));
    assert!(App::matches_state_filter_for(StateFilter::Active, &active));
    assert!(!App::matches_state_filter_for(
        StateFilter::Active,
        &inactive
    ));
    assert!(App::matches_state_filter_for(
        StateFilter::Inactive,
        &inactive
    ));
    assert!(!App::matches_state_filter_for(
        StateFilter::Inactive,
        &failed
    ));
    assert!(App::matches_state_filter_for(StateFilter::Failed, &failed));
    assert!(!App::matches_state_filter_for(StateFilter::Failed, &active));
}

#[test]
fn rebuild_filtered_indices_case_insensitive_and_combined_with_state_filter() {
    let units = vec![
        unit("sshd.service", "OpenSSH Daemon", UnitActiveState::Active),
        unit("db.service", "Database", UnitActiveState::Inactive),
        unit("logger.service", "audit daemon", UnitActiveState::Failed),
    ];

    let all_daemon = App::rebuild_filtered_indices_for(&units, "DAEMON", StateFilter::All);
    assert_eq!(all_daemon, vec![0, 2]);

    let active_daemon =
        App::rebuild_filtered_indices_for(&units, "daemon", StateFilter::Active);
    assert_eq!(active_daemon, vec![0]);

    let failed_daemon =
        App::rebuild_filtered_indices_for(&units, "dAeMoN", StateFilter::Failed);
    assert_eq!(failed_daemon, vec![2]);
}

#[test]
fn clamp_selected_when_visible_set_shrinks() {
    assert_eq!(App::clamp_selected(5, 3), 2);
    assert_eq!(App::clamp_selected(1, 3), 1);
    assert_eq!(App::clamp_selected(4, 0), 0);
}

#[test]
fn restore_selected_index_for_name_prefers_same_unit_after_refresh() {
    let units = vec![
        unit("a.service", "A", UnitActiveState::Active),
        unit("b.service", "B", UnitActiveState::Active),
        unit("c.service", "C", UnitActiveState::Active),
    ];
    let filtered_indices = vec![0, 1, 2];

    let selected =
        App::restore_selected_index_for_name(&units, &filtered_indices, "b.service", 0);
    assert_eq!(selected, 1);
}

#[test]
fn restore_selected_index_for_name_falls_back_to_clamped_index() {
    let units = vec![
        unit("a.service", "A", UnitActiveState::Active),
        unit("c.service", "C", UnitActiveState::Active),
    ];
    let filtered_indices = vec![0, 1];

    let selected =
        App::restore_selected_index_for_name(&units, &filtered_indices, "missing.service", 3);
    assert_eq!(selected, 1);
}

#[test]
fn effective_logs_scroll_tracks_follow_mode() {
    assert_eq!(App::effective_logs_scroll_for(3, false, 10), 3);
    assert_eq!(App::effective_logs_scroll_for(30, false, 10), 10);
    assert_eq!(App::effective_logs_scroll_for(0, true, 10), 10);
}

#[test]
fn new_app_starts_ready_and_empty() {
    let app = App::new("local:session".to_string());
    assert_eq!(app.status(), "Ready");
    assert_eq!(app.last_updated_at(), "-");
    assert_eq!(app.connection_label(), "local:session");
    assert_eq!(app.visible_count(), 0);
    assert_eq!(app.selected_index(), None);
    assert!(app.selected_unit().is_none());
    assert_eq!(app.logs_lines().to_vec(), vec!["Loading logs...".to_string()]);
    assert!(app.logs_follow());
    assert_eq!(app.focus_block(), FocusBlock::Units);
    assert_eq!(app.layout_mode(), LayoutMode::Horizontal);
    assert_eq!(app.state_filter_label(), "all");
    assert_eq!(app.details_lines(), vec!["No unit selected".to_string()]);
    assert!(app.should_refresh_logs(false));
}

#[test]
fn apply_units_sorts_by_name_and_stamps_time() {
    let app = loaded_app(vec![
        unit("zeta.service", "Z", UnitActiveState::Active),
        unit("alpha.service", "A", UnitActiveState::Failed),
        unit("mid.service", "M", UnitActiveState::Inactive),
    ]);
    let names: Vec<&str> = app.units().iter().map(|u| u.name.as_str()).collect();
    assert_eq!(names, vec!["alpha.service", "mid.service", "zeta.service"]);
    assert_eq!(app.last_updated_at(), "12:00:00");
    assert_eq!(app.visible_count(), 3);
    assert_eq!(app.selected_unit().unwrap().name, "alpha.service");
}

#[test]
fn sort_is_stable_for_equal_names() {
    let app = loaded_app(vec![
        unit("same.service", "first", UnitActiveState::Active),
        unit("a.service", "x", UnitActiveState::Active),
        unit("same.service", "second", UnitActiveState::Active),
    ]);
    let descriptions: Vec<&str> = app.units().iter().map(|u| u.description.as_str()).collect();
    assert_eq!(descriptions, vec!["x", "first", "second"]);
}

#[test]
fn refresh_keeps_selected_unit_when_still_visible() {
    let mut app = loaded_app(vec![
        unit("a.service", "A", UnitActiveState::Active),
        unit("b.service", "B", UnitActiveState::Active),
        unit("c.service", "C", UnitActiveState::Active),
    ]);
    app.on_key(Key::Down);
    assert_eq!(app.selected_unit().unwrap().name, "b.service");
    app.apply_units(
        vec![
            unit("0.service", "zero", UnitActiveState::Active),
            unit("c.service", "C", UnitActiveState::Active),
            unit("b.service", "B", UnitActiveState::Active),
        ],
        "12:00:02".to_string(),
    );
    assert_eq!(app.selected_unit().unwrap().name, "b.service");
    assert_eq!(app.selected_index(), Some(1));
}

#[test]
fn refresh_falls_back_when_selected_unit_disappears() {
    let mut app = loaded_app(vec![
        unit("a.service", "A", UnitActiveState::Active),
        unit("b.service", "B", UnitActiveState::Active),
        unit("c.service", "C", UnitActiveState::Active),
    ]);
    app.on_key(Key::Char('G'));
    assert_eq!(app.selected_index(), Some(2));
    app.apply_units(
        vec![unit("a.service", "A", UnitActiveState::Active)],
        "12:00:03".to_string(),
    );
    assert_eq!(app.selected_index(), Some(0));
}

#[test]
fn quit_key_sets_quit_only_outside_help() {
    let mut app = loaded_app(vec![unit("a.service", "A", UnitActiveState::Active)]);
    app.on_key(Key::Char('h'));
    assert!(app.show_help());
    app.on_key(Key::Char('q'));
    assert!(!app.show_help());
    assert!(!app.should_quit());
    app.on_key(Key::Char('q'));
    assert!(app.should_quit());
}

#[test]
fn help_scrolling_saturates() {
    let mut app = loaded_app(vec![]);
    app.on_key(Key::F(1));
    assert_eq!(app.help_scroll(), 0);
    app.on_key(Key::Up);
    assert_eq!(app.help_scroll(), 0);
    app.on_key(Key::PageDown);
    assert_eq!(app.help_scroll(), 8);
    app.on_key(Key::Char('j'));
    assert_eq!(app.help_scroll(), 9);
    app.on_key(Key::Char('G'));
    assert_eq!(app.help_scroll(), u16::MAX);
    app.on_key(Key::Down);
    assert_eq!(app.help_scroll(), u16::MAX);
    app.on_key(Key::Char('g'));
    assert_eq!(app.help_scroll(), 0);
    app.on_key(Key::Esc);
    assert!(!app.show_help());
}

#[test]
fn name_filter_input_mode_filters_and_reports() {
    let mut app = loaded_app(vec![
        unit("sshd.service", "OpenSSH Daemon", UnitActiveState::Active),
        unit("db.service", "Database", UnitActiveState::Inactive),
    ]);
    let effect = app.on_key(Key::Char('/'));
    assert!(matches!(effect, Effect::Nothing));
    assert!(app.filter_input_mode());
    assert_eq!(app.status(), "name filter mode: type and press Enter/Esc");
    app.on_key(Key::Char('D'));
    app.on_key(Key::Char('B'));
    assert_eq!(app.name_filter(), "DB");
    assert_eq!(app.visible_count(), 1);
    assert_eq!(app.selected_unit().unwrap().name, "db.service");
    app.on_key(Key::Backspace);
    assert_eq!(app.name_filter(), "D");
    assert_eq!(app.visible_count(), 2);
    app.on_key(Key::Enter);
    assert!(!app.filter_input_mode());
    assert_eq!(app.status(), "name filter: 'D'");
}

#[test]
fn backspace_on_empty_filter_changes_nothing() {
    let mut app = loaded_app(vec![unit("a.service", "A", UnitActiveState::Active)]);
    app.on_key(Key::Char('/'));
    app.on_key(Key::Backspace);
    assert_eq!(app.name_filter(), "");
    assert_eq!(app.visible_count(), 1);
}

#[test]
fn state_filter_key_cycles_and_refilters() {
    let mut app = loaded_app(vec![
        unit("a.service", "A", UnitActiveState::Active),
        unit("b.service", "B", UnitActiveState::Inactive),
        unit("c.service", "C", UnitActiveState::Failed),
    ]);
    app.on_key(Key::F(2));
    assert_eq!(app.state_filter(), StateFilter::Active);
    assert_eq!(app.status(), "state filter: active");
    assert_eq!(app.visible_count(), 1);
    app.on_key(Key::F(2));
    assert_eq!(app.state_filter_label(), "inactive");
    assert_eq!(app.selected_unit().unwrap().name, "b.service");
    app.on_key(Key::F(2));
    assert_eq!(app.selected_unit().unwrap().name, "c.service");
    app.on_key(Key::F(2));
    assert_eq!(app.visible_count(), 3);
}

#[test]
fn layout_key_toggles_and_reports() {
    let mut app = loaded_app(vec![]);
    app.on_key(Key::F(3));
    assert_eq!(app.layout_mode(), LayoutMode::Vertical);
    assert_eq!(app.status(), "layout: vertical");
    app.on_key(Key::F(3));
    assert_eq!(app.status(), "layout: horizontal");
}

#[test]
fn unit_scrolling_stays_within_visible_rows() {
    let mut app = loaded_app(vec![
        unit("a.service", "A", UnitActiveState::Active),
        unit("b.service", "B", UnitActiveState::Active),
        unit("c.service", "C", UnitActiveState::Active),
    ]);
    app.on_key(Key::PageDown);
    assert_eq!(app.selected_index(), Some(2));
    app.on_key(Key::Char('k'));
    assert_eq!(app.selected_index(), Some(1));
    app.on_key(Key::PageUp);
    assert_eq!(app.selected_index(), Some(0));
    app.on_key(Key::Char('j'));
    app.on_key(Key::Char('g'));
    assert_eq!(app.selected_index(), Some(0));
}

#[test]
fn details_and_logs_scrolling() {
    let mut app = loaded_app(vec![unit("a.service", "A", UnitActiveState::Active)]);
    app.on_key(Key::Tab);
    assert_eq!(app.focus_block(), FocusBlock::Details);
    app.on_key(Key::PageDown);
    assert_eq!(app.details_scroll(), 8);
    app.on_key(Key::Up);
    assert_eq!(app.details_scroll(), 7);
    app.on_key(Key::Char('G'));
    assert_eq!(app.details_scroll(), u16::MAX);
    app.on_key(Key::Tab);
    assert_eq!(app.focus_block(), FocusBlock::Logs);
    app.on_key(Key::Down);
    assert!(app.logs_follow());
    assert_eq!(app.effective_logs_scroll(40), 40);
    app.on_key(Key::Up);
    assert!(!app.logs_follow());
    assert_eq!(app.effective_logs_scroll(40), 40);
    app.on_key(Key::Char('g'));
    assert_eq!(app.effective_logs_scroll(40), 0);
    app.on_key(Key::Down);
    assert_eq!(app.effective_logs_scroll(40), 1);
    app.on_key(Key::Char('G'));
    assert!(app.logs_follow());
    app.on_key(Key::BackTab);
    assert_eq!(app.focus_block(), FocusBlock::Details);
}

#[test]
fn selection_change_resets_details_and_marks_logs() {
    let mut app = loaded_app(vec![
        unit("a.service", "A", UnitActiveState::Active),
        unit("b.service", "B", UnitActiveState::Active),
    ]);
    app.apply_logs(vec!["line".to_string()]);
    assert!(!app.should_refresh_logs(false));
    app.on_key(Key::Tab);
    app.on_key(Key::PageDown);
    assert_eq!(app.details_scroll(), 8);
    app.on_key(Key::BackTab);
    app.on_key(Key::Down);
    assert_eq!(app.details_scroll(), 0);
    assert!(app.should_refresh_logs(false));
}

#[test]
fn action_keys_ask_for_actions_on_the_selected_unit() {
    let mut app = loaded_app(vec![unit("a.service", "A", UnitActiveState::Active)]);
    for (key, expected) in [
        ('s', UnitAction::Start),
        ('t', UnitAction::Stop),
        ('R', UnitAction::Restart),
        ('L', UnitAction::Reload),
    ] {
        match app.on_key(Key::Char(key)) {
            Effect::RunAction { action, unit_name } => {
                assert_eq!(action, expected);
                assert_eq!(unit_name, "a.service");
            }
            _ => panic!("expected an action"),
        }
    }
    assert!(matches!(app.on_key(Key::Char('r')), Effect::RefreshUnits));
    let mut empty = loaded_app(vec![]);
    assert!(matches!(empty.on_key(Key::Char('s')), Effect::Nothing));
}

#[test]
fn finishing_actions_reports_in_status() {
    let mut app = loaded_app(vec![unit("a.service", "A", UnitActiveState::Active)]);
    assert!(app.finish_unit_action(UnitAction::Start, "a.service", Ok(())));
    assert_eq!(app.status(), "start requested for a.service");
    assert!(!app.finish_unit_action(
        UnitAction::Stop,
        "a.service",
        Err("StopUnit failed for a.service".to_string())
    ));
    assert_eq!(
        app.status(),
        "stop failed for a.service: StopUnit failed for a.service"
    );
    app.report_post_action_refresh_error(UnitAction::Reload, "boom");
    assert_eq!(app.status(), "post-reload refresh error: boom");
    app.report_refresh_error("gone");
    assert_eq!(app.status(), "refresh error: gone");
    app.report_logs_error("no journal");
    assert_eq!(app.status(), "logs refresh error: no journal");
    app.report_signal_refresh(3, None);
    assert_eq!(app.status(), "dbus events: 3 unit changes");
    app.report_signal_refresh(1, Some("lost"));
    assert_eq!(app.status(), "signal refresh error: lost");
}

#[test]
fn logs_placeholders_and_follow() {
    let mut app = App::new("local:system".to_string());
    app.apply_logs(vec!["ignored".to_string()]);
    assert_eq!(app.logs_lines().to_vec(), vec!["No unit selected".to_string()]);
    app.apply_units(
        vec![unit("a.service", "A", UnitActiveState::Active)],
        "t".to_string(),
    );
    assert_eq!(app.logs_target(), Some("a.service".to_string()));
    assert!(app.should_refresh_logs(false));
    app.apply_logs(vec![]);
    assert_eq!(app.logs_lines().to_vec(), vec!["No logs found".to_string()]);
    assert!(!app.should_refresh_logs(false));
    assert!(app.should_refresh_logs(true));
}

#[test]
fn details_lines_describe_selected_unit() {
    let app = loaded_app(vec![unit("a.service", "Alpha", UnitActiveState::Failed)]);
    assert_eq!(
        app.details_lines(),
        vec![
            "Name: a.service".to_string(),
            "Description: Alpha".to_string(),
            "Active: failed".to_string(),
            "Sub: running".to_string(),
            "Load: Loaded".to_string(),
            "Follows: -".to_string(),
            "Path: /org/freedesktop/systemd1/unit/a_service".to_string(),
        ]
    );
}

#[test]
fn visible_units_follow_the_filters() {
    let mut app = loaded_app(vec![
        unit("a.service", "A", UnitActiveState::Active),
        unit("b.service", "B", UnitActiveState::Failed),
    ]);
    app.on_key(Key::F(2));
    app.on_key(Key::F(2));
    app.on_key(Key::F(2));
    let names: Vec<&str> = app.visible_units().iter().map(|u| u.name.as_str()).collect();
    assert_eq!(names, vec!["b.service"]);
}

#[test]
fn typing_then_erasing_restores_filter_and_rows() {
    let mut app = loaded_app(vec![
        unit("a.service", "A", UnitActiveState::Active),
        unit("b.service", "B", UnitActiveState::Active),
    ]);
    app.on_key(Key::Char('/'));
    app.on_key(Key::Char('b'));
    let before_filter = app.name_filter().to_string();
    let before_rows = app.visible_count();
    app.on_key(Key::Char('x'));
    assert_eq!(app.visible_count(), 0);
    app.on_key(Key::Backspace);
    assert_eq!(app.name_filter(), before_filter);
    assert_eq!(app.visible_count(), before_rows);
}

#[test]
fn no_filter_shows_every_unit() {
    let units = vec![
        unit("a.service", "A", UnitActiveState::Failed),
        unit("b.service", "B", UnitActiveState::Unknown),
        unit("c.service", "C", UnitActiveState::Activating),
    ];
    assert_eq!(
        App::rebuild_filtered_indices_for(&units, "", StateFilter::All),
        vec![0, 1, 2]
    );
}

#[test]
fn visibility_from_lowered_texts() {
    assert!(App::unit_visible("sshd.service", "openssh daemon", "daemon", StateFilter::Active, UnitActiveState::Active));
    assert!(!App::unit_visible("sshd.service", "openssh daemon", "daemon", StateFilter::Failed, UnitActiveState::Active));
    assert!(App::unit_visible("db.service", "database", "", StateFilter::Inactive, UnitActiveState::Inactive));
    assert!(App::unit_visible("db.service", "database", "db.", StateFilter::All, UnitActiveState::Unknown));
    assert!(!App::unit_visible("db.service", "database", "DB", StateFilter::All, UnitActiveState::Unknown));
    assert!(App::filter_is_blank(""));
    assert!(!App::filter_is_blank("x"));
}

#[test]
fn refresh_step_decisions() {
    assert!(!refresh_for_signals(0));
    assert!(refresh_for_signals(2));
    assert!(interval_elapsed(2000, 2000));
    assert!(!interval_elapsed(1999, 2000));
}
