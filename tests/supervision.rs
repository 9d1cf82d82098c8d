use vupdaters::config::{BacklightSettings, Config, DialConfig, NamedDial};
use vupdaters::metric::Metric;
use vupdaters::supervisor::{
    NoDialsConnected, SignalAction, Supervisor, SupervisorAction, SupervisorEvent, TaskExit,
};

fn entry(name: &str, index: usize, metric: Metric) -> NamedDial {
    NamedDial {
        name: name.to_string(),
        config: DialConfig {
            index,
            metric,
            update_interval_ms: 1000,
            easing: None,
            backlight: BacklightSettings::default(),
        },
    }
}

#[test]
fn unmatched_index_is_skipped() {
    let config = Config {
        dials: vec![
            entry("a", 0, Metric::CpuLoad),
            entry("b", 1, Metric::Mem),
            entry("c", 2, Metric::Swap),
        ],
    };
    // Devices at list positions 0 and 1 report indices 0 and 2.
    let plan = config.spawn_plan(&vec![0, 2]).unwrap();
    assert_eq!(plan.spawned, vec![(0, 0), (2, 1)]);
    assert_eq!(plan.unmatched, vec![1]);
}

#[test]
fn no_match_fails() {
    let config = Config { dials: vec![entry("a", 5, Metric::CpuLoad), entry("b", 6, Metric::Mem)] };
    assert!(matches!(config.spawn_plan(&vec![0, 1]), Err(NoDialsConnected)));
    assert!(matches!(config.spawn_plan(&vec![]), Err(NoDialsConnected)));
    assert!(matches!(Config::new().spawn_plan(&vec![0]), Err(NoDialsConnected)));
}

#[test]
fn a_device_serves_one_entry_and_the_last_device_wins() {
    let config = Config { dials: vec![entry("a", 3, Metric::CpuLoad), entry("b", 3, Metric::Mem)] };
    // Two devices report index 3: the later one (position 1) is kept.
    let plan = config.spawn_plan(&vec![3, 3]).unwrap();
    assert_eq!(plan.spawned, vec![(0, 1)]);
    assert_eq!(plan.unmatched, vec![1]);
}

#[test]
fn signals_and_exits_decide_the_main_loop() {
    let config = Config { dials: vec![entry("a", 0, Metric::CpuLoad)] };
    let sup = Supervisor::start(config.spawn_plan(&vec![0]).unwrap());
    assert_eq!(sup.on_event(SupervisorEvent::Signal(SignalAction::Reload)), SupervisorAction::Reload);
    assert_eq!(sup.on_event(SupervisorEvent::Signal(SignalAction::Shutdown)), SupervisorAction::Stop);
    assert_eq!(sup.on_event(SupervisorEvent::TaskExited(TaskExit::Failed)), SupervisorAction::Fail);
    assert_eq!(sup.on_event(SupervisorEvent::TaskExited(TaskExit::Panicked)), SupervisorAction::Fail);
    assert_eq!(sup.on_event(SupervisorEvent::TaskExited(TaskExit::Finished)), SupervisorAction::Stop);
    assert_eq!(sup.on_event(SupervisorEvent::NoTasks), SupervisorAction::Stop);
}

#[test]
fn reload_replaces_every_manager() {
    let old = Config {
        dials: vec![entry("a", 0, Metric::CpuLoad), entry("b", 1, Metric::Mem), entry("c", 2, Metric::Swap)],
    };
    let devices = vec![0, 1, 2];
    let mut sup = Supervisor::start(old.spawn_plan(&devices).unwrap());
    assert_eq!(sup.running(), 3);
    let new = Config { dials: vec![entry("only", 2, Metric::Battery)] };
    let cancelled = sup.reload(new.spawn_plan(&devices).unwrap());
    assert_eq!(cancelled, 3);
    assert_eq!(sup.running(), 1);
}
