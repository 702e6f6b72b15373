use systemd_tui::app::{App, Key};
use systemd_tui::units::{SystemdUnit, UnitActiveState, UnitLoadState};
use systemd_tui::view::{
    centered_percentages, clamp_scroll, details_title, header_text, help_lines, help_title,
    logs_title, panel_max_scroll, units_title,
};

fn unit(name: &str) -> SystemdUnit {
    SystemdUnit {
        name: name.to_string(),
        description: "d".to_string(),
        load_state: UnitLoadState::Loaded,
        active_state: UnitActiveState::Active,
        sub_state: "running".to_string(),
        follows: String::new(),
        path: "/p".to_string(),
    }
}

#[test]
fn header_shows_state_of_the_browser() {
    let mut app = App::new("local:system".to_string());
    app.apply_units(vec![unit("a.service"), unit("b.service")], "10:11:12".to_string());
    assert_eq!(
        header_text(&app),
        " systemd-tui  conn:local:system  units:2  state:all  filter:-  focus:units  layout:horizontal \n updated:10:11:12  status:Ready "
    );
    app.on_key(Key::Char('/'));
    app.on_key(Key::Char('a'));
    assert!(header_text(&app).contains("filter:a [input]"));
}

#[test]
fn panel_titles_and_scroll_limits() {
    assert_eq!(panel_max_scroll(30, 12), 20);
    assert_eq!(panel_max_scroll(5, 12), 0);
    assert_eq!(panel_max_scroll(5, 1), 5);
    assert_eq!(panel_max_scroll(70_000, 2), 4464);
    assert_eq!(details_title(true, 2, 5), "Details * 2/5");
    assert_eq!(details_title(false, 0, 0), "Details 0/0");
    assert_eq!(logs_title(true, 3, 9, true), "Logs * 3/9 [follow]");
    assert_eq!(logs_title(false, 3, 9, false), "Logs 3/9");
    assert_eq!(units_title(true, 4), "Units * (4)");
    assert_eq!(units_title(false, 0), "Units (0)");
    assert_eq!(help_title(1, 7), "Help  scroll:1/7");
    assert_eq!(clamp_scroll(9, 7), 7);
    assert_eq!(clamp_scroll(3, 7), 3);
    assert_eq!(centered_percentages(70), (15, 70, 15));
    assert_eq!(help_lines().len(), 29);
    assert_eq!(help_lines()[0], "systemd-tui keymap");
}
