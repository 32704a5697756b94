use thermal_monitor::{
    is_update_due, ControlAction, GatewayError, GatewayRequest, Mode, ReadError, ThermalApp,
    ThermalState, ThermalZone, DEFAULT_TARGET, FULL_SPEED_MHZ, HISTORY_CAPACITY,
    STATUS_LIFETIME_MS, TARGET_MAX, TARGET_MIN, UPDATE_INTERVAL_MS,
};

fn snapshot(cpu_temp: i32, keyboard_temp: i32, mode: Mode, fan_boost: bool) -> ThermalState {
    ThermalState {
        cpu_temp,
        keyboard_temp,
        mode,
        perf_pct: 80,
        fan_boost,
        platform_profile: String::from("balanced"),
    }
}

fn status(app: &ThermalApp) -> Option<&str> {
    app.status_message().map(|text| text.as_str())
}

#[test]
fn a_new_driver_holds_the_first_sample() {
    let app = ThermalApp::new(snapshot(48_500, 33_000, Mode::Balanced, false));
    assert_eq!(app.history().len(), 1);
    assert_eq!(app.history().get(0), Some((48_500, 33_000)));
    assert_eq!(app.history().capacity(), HISTORY_CAPACITY);
    assert_eq!(app.target_temp(), DEFAULT_TARGET);
    assert_eq!(app.target_temp(), 55_000);
    assert!(!app.auto_control());
    assert!(!app.fan_boost_manual());
    assert_eq!(app.status_message(), None);
    assert_eq!(app.state().mode, Mode::Balanced);
}

#[test]
fn a_poll_replaces_the_snapshot_and_extends_the_history() {
    let mut app = ThermalApp::new(snapshot(48_000, 33_000, Mode::Balanced, false));
    let outcome = app.update_state(Ok(snapshot(61_000, 34_000, Mode::Performance, false)));
    assert_eq!(outcome, Ok(None));
    assert_eq!(app.state().cpu_temp, 61_000);
    assert_eq!(app.state().mode, Mode::Performance);
    assert_eq!(app.state().thermal_zone(), ThermalZone::Warm);
    assert_eq!(app.history().cpu_points(), vec![(0, 48_000), (1, 61_000)]);
    assert_eq!(app.history().kbd_points(), vec![(0, 33_000), (1, 34_000)]);
    assert_eq!(app.status_message(), None);
}

#[test]
fn a_failed_read_keeps_snapshot_and_history() {
    let mut app = ThermalApp::new(snapshot(48_000, 33_000, Mode::Balanced, false));
    app.toggle_auto_control();
    let failure = ReadError { detail: String::from("sensor missing") };
    let outcome = app.update_state(Err(failure.clone()));
    assert_eq!(outcome, Err(failure));
    assert_eq!(app.state(), &snapshot(48_000, 33_000, Mode::Balanced, false));
    assert_eq!(app.history().len(), 1);
    assert_eq!(status(&app), Some("Auto ON"));
}

#[test]
fn read_error_has_a_message() {
    let failure = ReadError { detail: String::from("sensor missing") };
    assert_eq!(failure.message(), "Error: sensor missing");
}

#[test]
fn automatic_control_decides_on_the_fresh_snapshot() {
    let mut app = ThermalApp::new(snapshot(48_000, 33_000, Mode::Quiet, true));
    app.toggle_auto_control();
    assert!(app.auto_control());

    let cool = app.update_state(Ok(snapshot(50_000, 33_000, Mode::Performance, false)));
    assert_eq!(cool, Ok(Some(ControlAction::OnTarget)));

    let hot = app.update_state(Ok(snapshot(70_000, 33_000, Mode::Performance, false)));
    assert_eq!(hot, Ok(Some(ControlAction::StepDown(Mode::Comfort))));

    let quiet = app.update_state(Ok(snapshot(70_000, 33_000, Mode::Quiet, false)));
    assert_eq!(quiet, Ok(Some(ControlAction::BoostFan)));

    let floor = app.update_state(Ok(snapshot(70_000, 33_000, Mode::Quiet, true)));
    assert_eq!(floor, Ok(Some(ControlAction::AtMinimum)));
    assert_eq!(app.history().len(), 5);
}

#[test]
fn automatic_control_follows_the_target() {
    let mut app = ThermalApp::new(snapshot(48_000, 33_000, Mode::Balanced, false));
    app.toggle_auto_control();
    app.set_target_temp(72_000);
    let outcome = app.update_state(Ok(snapshot(70_000, 33_000, Mode::Performance, false)));
    assert_eq!(outcome, Ok(Some(ControlAction::OnTarget)));
    app.set_target_temp(69_999);
    let outcome = app.update_state(Ok(snapshot(70_000, 33_000, Mode::Performance, false)));
    assert_eq!(outcome, Ok(Some(ControlAction::StepDown(Mode::Comfort))));
}

#[test]
fn on_target_leaves_the_status_alone() {
    let mut app = ThermalApp::new(snapshot(48_000, 33_000, Mode::Balanced, false));
    app.control_finished(ControlAction::OnTarget, Ok(()));
    assert_eq!(app.status_message(), None);
    app.set_status(String::from("kept"));
    app.control_finished(ControlAction::OnTarget, Ok(()));
    assert_eq!(status(&app), Some("kept"));
}

#[test]
fn a_corrective_action_is_reported_in_the_status() {
    let mut app = ThermalApp::new(snapshot(70_000, 33_000, Mode::Balanced, false));
    app.control_finished(ControlAction::StepDown(Mode::Quiet), Ok(()));
    assert_eq!(status(&app), Some("Too hot: switching to Quiet"));
    app.control_finished(ControlAction::BoostFan, Ok(()));
    assert_eq!(status(&app), Some("Too hot: fan boost on"));
    app.control_finished(ControlAction::AtMinimum, Ok(()));
    assert_eq!(status(&app), Some("Too hot: already at minimum"));
}

#[test]
fn a_failed_corrective_action_is_reported_in_the_status() {
    let mut app = ThermalApp::new(snapshot(70_000, 33_000, Mode::Balanced, false));
    let before = snapshot(70_000, 33_000, Mode::Balanced, false);
    app.control_finished(
        ControlAction::StepDown(Mode::Quiet),
        Err(GatewayError { detail: String::from("permission denied") }),
    );
    assert_eq!(status(&app), Some("Error: permission denied"));
    assert_eq!(app.state(), &before);
    assert_eq!(app.history().len(), 1);
}

#[test]
fn picking_a_mode_requests_it_unless_active_or_unknown() {
    let app = ThermalApp::new(snapshot(48_000, 33_000, Mode::Balanced, false));
    assert_eq!(app.mode_request(Mode::Quiet), Some(GatewayRequest::SetMode(Mode::Quiet)));
    assert_eq!(
        app.mode_request(Mode::Performance),
        Some(GatewayRequest::SetMode(Mode::Performance))
    );
    assert_eq!(app.mode_request(Mode::Balanced), None);
    assert_eq!(app.mode_request(Mode::Unknown), None);
}

#[test]
fn an_accepted_mode_change_is_reported_and_asks_for_a_poll() {
    let mut app = ThermalApp::new(snapshot(48_000, 33_000, Mode::Balanced, false));
    let poll = app.mode_change_finished(Mode::Quiet, Ok(()));
    assert!(poll);
    assert_eq!(status(&app), Some("Mode changed to Quiet"));
    // The snapshot shows what the host reported, not what was requested.
    assert_eq!(app.state().mode, Mode::Balanced);
}

#[test]
fn a_refused_mode_change_is_reported_and_changes_nothing_else() {
    let mut app = ThermalApp::new(snapshot(48_000, 33_000, Mode::Balanced, false));
    let failure = GatewayError { detail: String::from("host refused") };
    assert_eq!(failure.message(), "Error: host refused");
    let poll = app.mode_change_finished(Mode::Quiet, Err(failure));
    assert!(!poll);
    assert_eq!(status(&app), Some("Error: host refused"));
    assert_eq!(app.state().mode, Mode::Balanced);
    assert_eq!(app.history().len(), 1);
}

#[test]
fn toggling_automatic_control_says_so() {
    let mut app = ThermalApp::new(snapshot(48_000, 33_000, Mode::Balanced, false));
    app.toggle_auto_control();
    assert!(app.auto_control());
    assert_eq!(status(&app), Some("Auto ON"));
    app.toggle_auto_control();
    assert!(!app.auto_control());
    assert_eq!(status(&app), Some("Auto OFF"));
}

#[test]
fn toggling_the_fan_boost_names_the_request() {
    let mut app = ThermalApp::new(snapshot(48_000, 33_000, Mode::Balanced, false));
    assert!(!app.fan_active());
    assert_eq!(app.toggle_fan_boost(), GatewayRequest::SetFanBoost(true));
    assert!(app.fan_boost_manual());
    assert!(app.fan_active());
    assert_eq!(status(&app), Some("Fan boost"));
    assert_eq!(app.toggle_fan_boost(), GatewayRequest::SetFanBoost(false));
    assert!(!app.fan_boost_manual());
    assert!(!app.fan_active());
    assert_eq!(status(&app), Some("Fan auto"));
}

#[test]
fn the_fan_counts_as_boosted_when_the_host_says_so() {
    let app = ThermalApp::new(snapshot(48_000, 33_000, Mode::Balanced, true));
    assert!(!app.fan_boost_manual());
    assert!(app.fan_active());
}

#[test]
fn the_target_stays_within_its_range() {
    let mut app = ThermalApp::new(snapshot(48_000, 33_000, Mode::Balanced, false));
    assert_eq!(TARGET_MIN, 40_000);
    assert_eq!(TARGET_MAX, 80_000);
    app.set_target_temp(62_000);
    assert_eq!(app.target_temp(), 62_000);
    app.set_target_temp(39_999);
    assert_eq!(app.target_temp(), 40_000);
    app.set_target_temp(80_001);
    assert_eq!(app.target_temp(), 80_000);
    app.set_target_temp(i32::MIN);
    assert_eq!(app.target_temp(), 40_000);
    app.set_target_temp(i32::MAX);
    assert_eq!(app.target_temp(), 80_000);
    app.set_target_temp(40_000);
    assert_eq!(app.target_temp(), 40_000);
    app.set_target_temp(80_000);
    assert_eq!(app.target_temp(), 80_000);
}

#[test]
fn the_excess_over_the_target_is_exact() {
    let mut app = ThermalApp::new(snapshot(58_250, 33_000, Mode::Balanced, false));
    assert_eq!(app.over_target(), Some(3_250));
    app.set_target_temp(58_250);
    assert_eq!(app.over_target(), None);
    app.set_target_temp(70_000);
    assert_eq!(app.over_target(), None);
    let mut hot = ThermalApp::new(snapshot(i32::MAX, 0, Mode::Balanced, false));
    hot.set_target_temp(40_000);
    assert_eq!(hot.over_target(), Some(i32::MAX - 40_000));
    let cold = ThermalApp::new(snapshot(i32::MIN, 0, Mode::Balanced, false));
    assert_eq!(cold.over_target(), None);
}

#[test]
fn a_status_expires_after_three_seconds() {
    assert_eq!(STATUS_LIFETIME_MS, 3_000);
    let mut app = ThermalApp::new(snapshot(48_000, 33_000, Mode::Balanced, false));
    assert!(!app.expire_status(0));
    app.set_status(String::from("hello"));
    assert!(app.expire_status(0));
    assert!(app.expire_status(2_999));
    assert_eq!(status(&app), Some("hello"));
    assert!(!app.expire_status(3_000));
    assert_eq!(app.status_message(), None);
    app.set_status(String::from("again"));
    assert!(!app.expire_status(u64::MAX));
    assert_eq!(app.status_message(), None);
}

#[test]
fn a_poll_is_due_every_two_seconds() {
    assert_eq!(UPDATE_INTERVAL_MS, 2_000);
    assert!(!is_update_due(0));
    assert!(!is_update_due(1_999));
    assert!(is_update_due(2_000));
    assert!(is_update_due(u64::MAX));
}

#[test]
fn the_target_series_spans_the_history_width() {
    let mut app = ThermalApp::new(snapshot(48_000, 33_000, Mode::Balanced, false));
    app.set_target_temp(61_000);
    let points = app.target_points();
    assert_eq!(points.len(), 60);
    for (i, point) in points.iter().enumerate() {
        assert_eq!(*point, (i, 61_000));
    }
}

#[test]
fn the_history_of_the_driver_is_bounded() {
    let mut app = ThermalApp::new(snapshot(0, 0, Mode::Balanced, false));
    for k in 1..=100 {
        let outcome = app.update_state(Ok(snapshot(k, -k, Mode::Balanced, false)));
        assert_eq!(outcome, Ok(None));
    }
    assert_eq!(app.history().len(), 60);
    assert_eq!(app.history().get(0), Some((41, -41)));
    assert_eq!(app.history().get(59), Some((100, -100)));
}

#[test]
fn the_clock_estimate_follows_the_performance_ceiling() {
    assert_eq!(FULL_SPEED_MHZ, 4_000);
    let mut state = snapshot(48_000, 33_000, Mode::Balanced, false);
    state.perf_pct = 0;
    assert_eq!(state.current_freq_mhz(), 0);
    state.perf_pct = 1;
    assert_eq!(state.current_freq_mhz(), 40);
    state.perf_pct = 55;
    assert_eq!(state.current_freq_mhz(), 2_200);
    state.perf_pct = 100;
    assert_eq!(state.current_freq_mhz(), 4_000);
    state.perf_pct = 255;
    assert_eq!(state.current_freq_mhz(), 4_000);
}

#[test]
fn the_clock_estimate_never_falls_as_the_ceiling_rises() {
    let mut state = snapshot(48_000, 33_000, Mode::Balanced, false);
    let mut previous = 0;
    for pct in 0..=255u8 {
        state.perf_pct = pct;
        let mhz = state.current_freq_mhz();
        assert!(previous <= mhz);
        previous = mhz;
    }
}

#[test]
fn the_zone_of_a_snapshot_is_that_of_its_cpu_temperature() {
    assert_eq!(snapshot(45_000, 90_000, Mode::Balanced, false).thermal_zone(), ThermalZone::Comfort);
    assert_eq!(snapshot(-1, 90_000, Mode::Balanced, false).thermal_zone(), ThermalZone::Cool);
    assert_eq!(snapshot(95_000, 0, Mode::Balanced, false).thermal_zone(), ThermalZone::Critical);
}
