use speed_matrix::controller::{
    next_endpoint, Command, Config, ConfigError, CycleController, Endpoint, Phase,
};

fn endpoints(n: usize) -> Vec<Endpoint> {
    let mut list = Vec::new();
    for i in 0..n {
        list.push(Endpoint { name: format!("e{}", i), url: format!("http://e{}.test/", i) });
    }
    list
}

#[test]
fn standard_config_is_valid() {
    let config = Config::standard();
    assert_eq!(config.warmup_ms, 8_000);
    assert_eq!(config.measure_ms, 10_000);
    assert_eq!(config.tick_ms, 1_000);
    assert_eq!(config.cooldown_ms, 2_000);
    assert_eq!(config.column_width, 12);
    assert_eq!(config.saturation, 19_000_000);
    assert_eq!(config.validate(&endpoints(2)), Ok(()));
}

#[test]
fn empty_endpoint_list_is_rejected() {
    assert_eq!(Config::standard().validate(&endpoints(0)), Err(ConfigError::NoEndpoints));
    let mut config = Config::standard();
    config.measure_ms = 0;
    assert_eq!(config.validate(&endpoints(0)), Err(ConfigError::NoEndpoints));
}

#[test]
fn zero_duration_is_rejected() {
    for field in 0..4 {
        let mut config = Config::standard();
        match field {
            0 => config.warmup_ms = 0,
            1 => config.measure_ms = 0,
            2 => config.tick_ms = 0,
            _ => config.cooldown_ms = 0,
        }
        assert_eq!(config.validate(&endpoints(1)), Err(ConfigError::NonPositiveDuration));
    }
}

#[test]
fn cycle_runs_through_its_phases() {
    let config = Config::standard();
    let start: u128 = 1_000_000;
    let mut controller = CycleController::new();
    assert_eq!(controller.phase, Phase::Idle);
    let mut commands = Vec::new();
    for k in 0..=20u128 {
        commands.push(controller.step(start + k * 1_000, &config));
    }
    let mut expected = vec![Command::Start];
    expected.extend(vec![Command::Wait; 7]);
    expected.extend(vec![Command::Sample; 10]);
    expected.push(Command::Close);
    expected.push(Command::Wait);
    expected.push(Command::Report);
    assert_eq!(commands, expected);
    assert_eq!(controller.phase, Phase::Idle);
    assert_eq!(controller.step(start + 21_000, &config), Command::Start);
    assert_eq!(
        controller,
        CycleController { phase: Phase::Downloading, cycle_start: start + 21_000 }
    );
}

#[test]
fn late_step_closes_the_window() {
    let config = Config::standard();
    let mut controller = CycleController::new();
    assert_eq!(controller.step(500, &config), Command::Start);
    assert_eq!(controller.step(500 + 30_000, &config), Command::Close);
    assert_eq!(controller.phase, Phase::Cooldown);
    assert_eq!(controller.step(500 + 30_000, &config), Command::Report);
    assert_eq!(controller.phase, Phase::Idle);
}

#[test]
fn clock_behind_cycle_start_waits() {
    let config = Config::standard();
    let mut controller = CycleController::new();
    assert_eq!(controller.step(10_000, &config), Command::Start);
    assert_eq!(controller.step(5_000, &config), Command::Wait);
    assert_eq!(controller.phase, Phase::Downloading);
}

#[test]
fn endpoints_take_turns_in_order() {
    assert_eq!(next_endpoint(0, 3), 1);
    assert_eq!(next_endpoint(1, 3), 2);
    assert_eq!(next_endpoint(2, 3), 0);
    assert_eq!(next_endpoint(0, 1), 0);
    assert_eq!(next_endpoint(usize::MAX - 1, usize::MAX), 0);
}
