use vupdaters::api::ErrorKind;
use vupdaters::config::{BacklightMode, BacklightSettings, DialConfig, Easing, NamedDial, Config};
use vupdaters::dial::{Backlight, Percent};
use vupdaters::manager::{Action, DeviceOp, DialManager, Event, Fault, Phase, Reading, MAX_SENSOR_ERRORS};
use vupdaters::metric::Metric;

fn pct(v: u8) -> Percent {
    Percent::new(v).unwrap()
}

fn plain_config(metric: Metric) -> DialConfig {
    DialConfig {
        index: 0,
        metric,
        update_interval_ms: 1000,
        easing: None,
        backlight: BacklightSettings::default(),
    }
}

/// Runs the configuration calls to completion and returns them.
fn configure(m: &mut DialManager) -> Vec<DeviceOp> {
    let mut ops = Vec::new();
    let mut action = m.handle(Event::Started);
    loop {
        match action {
            Action::Device(op) => {
                ops.push(op);
                action = m.handle(Event::DeviceDone);
            }
            Action::ReadSignal => return ops,
            other => panic!("unexpected action {:?}", other),
        }
    }
}

#[test]
fn configuration_runs_in_order() {
    let easing = Easing { period_ms: 50, step: pct(5) };
    let bl_easing = Easing { period_ms: 80, step: pct(7) };
    let color = Backlight::new(10, 20, 30).unwrap();
    let config = DialConfig {
        index: 1,
        metric: Metric::Mem,
        update_interval_ms: 500,
        easing: Some(easing),
        backlight: BacklightSettings { mode: BacklightMode::Static(color), easing: Some(bl_easing) },
    };
    let mut m = DialManager::new("Memory".to_string(), config);
    assert_eq!(m.name(), "Memory");
    assert_eq!(m.phase(), Phase::Idle);
    let ops = configure(&mut m);
    assert_eq!(
        ops,
        vec![
            DeviceOp::SetName,
            DeviceOp::SetDialEasing(easing),
            DeviceOp::SetBacklightEasing(bl_easing),
            DeviceOp::SetBacklight(color),
            DeviceOp::SetImage(Metric::Mem),
        ]
    );
    assert_eq!(m.phase(), Phase::Checking);
}

#[test]
fn configuration_without_easing_uses_mid_gray() {
    let mut m = DialManager::new("CPU".to_string(), plain_config(Metric::CpuTemp));
    let ops = configure(&mut m);
    assert_eq!(
        ops,
        vec![
            DeviceOp::SetName,
            DeviceOp::SetBacklight(Backlight::new(50, 50, 50).unwrap()),
            DeviceOp::SetImage(Metric::CpuTemp),
        ]
    );
}

#[test]
fn backlight_off_is_dark() {
    let mut config = plain_config(Metric::Swap);
    config.backlight.mode = BacklightMode::Off;
    let mut m = DialManager::new("Swap".to_string(), config);
    let ops = configure(&mut m);
    assert_eq!(ops[1], DeviceOp::SetBacklight(Backlight::new(0, 0, 0).unwrap()));
}

#[test]
fn configuration_failure_is_fatal_and_names_the_call() {
    let mut m = DialManager::new("CPU".to_string(), plain_config(Metric::CpuLoad));
    assert!(matches!(m.handle(Event::Started), Action::Device(DeviceOp::SetName)));
    match m.handle(Event::DeviceFailed(ErrorKind::BuildUrl)) {
        Action::Terminate(Fault::Device { op, error }) => {
            assert_eq!(op, DeviceOp::SetName);
            assert_eq!(error, ErrorKind::BuildUrl);
        }
        other => panic!("unexpected {:?}", other),
    }
    assert_eq!(m.phase(), Phase::Terminated);
    assert!(matches!(m.handle(Event::Ticked), Action::Terminate(Fault::UnexpectedEvent)));
}

#[test]
fn pause_blocks_push_until_resume_and_backlight() {
    let mut m = DialManager::new("Mem".to_string(), plain_config(Metric::Mem));
    configure(&mut m);
    // The signal reads false: the manager waits, and keeps waiting.
    assert!(matches!(m.handle(Event::Signal(false)), Action::WaitForResume));
    assert!(matches!(m.handle(Event::Signal(false)), Action::WaitForResume));
    // A reading arriving while paused is not pushed.
    assert!(matches!(
        m.handle(Event::Sampled(Reading::Level(10))),
        Action::Terminate(Fault::UnexpectedEvent)
    ));

    let mut m = DialManager::new("Mem".to_string(), plain_config(Metric::Mem));
    configure(&mut m);
    assert!(matches!(m.handle(Event::Signal(false)), Action::WaitForResume));
    // Resumed: the backlight is set before anything else.
    match m.handle(Event::Signal(true)) {
        Action::Device(DeviceOp::SetBacklight(b)) => assert_eq!(b, Backlight::new(50, 50, 50).unwrap()),
        other => panic!("unexpected {:?}", other),
    }
    assert!(matches!(m.handle(Event::DeviceDone), Action::Sample(Metric::Mem)));
    match m.handle(Event::Sampled(Reading::Usage { total: 1000, free: 400 })) {
        Action::Device(DeviceOp::SetValue(p)) => assert_eq!(p.get(), 60),
        other => panic!("unexpected {:?}", other),
    }
}

#[test]
fn sensor_streak_is_fatal_at_the_fourth_failure() {
    let mut m = DialManager::new("Disk".to_string(), plain_config(Metric::DiskUsage));
    configure(&mut m);
    for round in 1..MAX_SENSOR_ERRORS {
        assert!(matches!(m.handle(Event::Signal(true)), Action::Sample(Metric::DiskUsage)));
        assert!(
            matches!(m.handle(Event::SensorFailed(format!("failure {round}"))), Action::WaitTick),
            "round {round} must not be fatal"
        );
        assert!(matches!(m.handle(Event::Ticked), Action::ReadSignal));
    }
    assert!(matches!(m.handle(Event::Signal(true)), Action::Sample(_)));
    match m.handle(Event::SensorFailed("failure 4".to_string())) {
        Action::Terminate(Fault::SensorStreak(errors)) => {
            assert_eq!(errors.errors.len(), 4);
            assert_eq!(errors.errors[0], "failure 1");
            assert_eq!(errors.errors[3], "failure 4");
        }
        other => panic!("unexpected {:?}", other),
    }
}

#[test]
fn successful_push_resets_the_streak() {
    let mut m = DialManager::new("Bat".to_string(), plain_config(Metric::Battery));
    configure(&mut m);
    // Three failures, one success, three more failures: never fatal.
    for _ in 0..3 {
        m.handle(Event::Signal(true));
        assert!(matches!(m.handle(Event::SensorFailed("x".to_string())), Action::WaitTick));
        m.handle(Event::Ticked);
    }
    m.handle(Event::Signal(true));
    assert!(matches!(m.handle(Event::Sampled(Reading::Level(77))), Action::Device(DeviceOp::SetValue(_))));
    assert!(matches!(m.handle(Event::DeviceDone), Action::WaitTick));
    m.handle(Event::Ticked);
    for _ in 0..3 {
        m.handle(Event::Signal(true));
        assert!(matches!(m.handle(Event::SensorFailed("y".to_string())), Action::WaitTick));
        m.handle(Event::Ticked);
    }
}

#[test]
fn out_of_range_level_is_fatal() {
    let mut m = DialManager::new("Temp".to_string(), plain_config(Metric::CpuTemp));
    configure(&mut m);
    m.handle(Event::Signal(true));
    match m.handle(Event::Sampled(Reading::Level(120))) {
        Action::Terminate(Fault::InvalidValue(e)) => assert_eq!(e.0, 120),
        other => panic!("unexpected {:?}", other),
    }
}

#[test]
fn unusable_usage_reading_is_fatal() {
    let mut m = DialManager::new("Swap".to_string(), plain_config(Metric::Swap));
    configure(&mut m);
    m.handle(Event::Signal(true));
    assert!(matches!(
        m.handle(Event::Sampled(Reading::Usage { total: 0, free: 0 })),
        Action::Terminate(Fault::InvalidReading { total: 0, free: 0 })
    ));
}

#[test]
fn push_failure_is_fatal() {
    let mut m = DialManager::new("Mem".to_string(), plain_config(Metric::Mem));
    configure(&mut m);
    m.handle(Event::Signal(true));
    m.handle(Event::Sampled(Reading::Level(33)));
    match m.handle(Event::DeviceFailed(ErrorKind::Request)) {
        Action::Terminate(Fault::Device { op: DeviceOp::SetValue(p), error: ErrorKind::Request }) => {
            assert_eq!(p.get(), 33)
        }
        other => panic!("unexpected {:?}", other),
    }
}

#[test]
fn closed_signal_is_fatal() {
    let mut m = DialManager::new("Mem".to_string(), plain_config(Metric::Mem));
    configure(&mut m);
    m.handle(Event::Signal(false));
    assert!(matches!(m.handle(Event::SignalClosed), Action::Terminate(Fault::SignalClosed)));
}

#[test]
fn cpu_load_end_to_end_pushes_once_per_tick() {
    let mut cpu = plain_config(Metric::CpuLoad);
    cpu.update_interval_ms = 1000;
    let config = Config { dials: vec![NamedDial { name: "cpu".to_string(), config: cpu }] };
    let plan = config.spawn_plan(&vec![0]).unwrap();
    assert_eq!(plan.spawned, vec![(0, 0)]);
    let entry = &config.dials[plan.spawned[0].0];
    let mut m = DialManager::new(entry.name.clone(), entry.config);
    configure(&mut m);
    let mut pushes = Vec::new();
    let ticks = 5;
    for _ in 0..ticks {
        // Sampling CPU load waits out one interval itself.
        assert!(matches!(m.handle(Event::Signal(true)), Action::Sample(Metric::CpuLoad)));
        match m.handle(Event::Sampled(Reading::Level(42))) {
            Action::Device(DeviceOp::SetValue(p)) => pushes.push(p.get()),
            other => panic!("unexpected {:?}", other),
        }
        assert!(matches!(m.handle(Event::DeviceDone), Action::ReadSignal));
    }
    assert_eq!(pushes, vec![42; ticks]);
}

#[test]
fn other_metrics_wait_a_tick_after_pushing() {
    let mut m = DialManager::new("Mem".to_string(), plain_config(Metric::Mem));
    configure(&mut m);
    m.handle(Event::Signal(true));
    m.handle(Event::Sampled(Reading::Level(5)));
    assert!(matches!(m.handle(Event::DeviceDone), Action::WaitTick));
    assert!(matches!(m.handle(Event::Ticked), Action::ReadSignal));
}
