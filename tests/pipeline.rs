use bar_config::bar::{elapsed_ms, Bar, LoadError, Monitor, Position};
use bar_config::components::{ComponentStream, IdAllocator};
use bar_config::config::{ComponentConfig, ComponentSettings, Config, Extra};
use bar_config::event::{Event, MouseButton, MouseButtonState, Point};
use bar_config::pipeline::{Pipeline, Timer};
use bar_config::Background;

fn base_config() -> Config {
    Config {
        height: 30,
        position: Position::default(),
        background: Background::default(),
        border: None,
        monitors: vec![Monitor {
            name: "DVI-1".to_string(),
            fallback_names: Vec::new(),
        }],
        defaults: ComponentSettings::default(),
        left: Vec::new(),
        center: Vec::new(),
        right: Vec::new(),
    }
}

fn text_entry(text: &str) -> ComponentConfig {
    ComponentConfig {
        name: String::new(),
        settings: ComponentSettings::default(),
        extra: Extra {
            text: Some(text.to_string()),
            interval: None,
        },
    }
}

fn clock_entry(interval: Option<u64>) -> ComponentConfig {
    ComponentConfig {
        name: "clock".to_string(),
        settings: ComponentSettings::default(),
        extra: Extra { text: None, interval },
    }
}

#[test]
fn zero_monitors_fail_to_load() {
    let mut config = base_config();
    config.monitors = Vec::new();
    config.left = vec![text_entry("a")];
    let mut ids = IdAllocator::new();
    let r = Bar::load(config, &mut ids);
    match r {
        Err(e) => {
            assert_eq!(e, LoadError::MissingMonitor);
            assert_eq!(e.message(), "at least one monitor is required");
        }
        Ok(_) => panic!("a bar without monitors was loaded"),
    }
    assert_eq!(ids.remaining(), usize::MAX);
}

#[test]
fn one_monitor_loads() {
    let mut ids = IdAllocator::new();
    assert!(Bar::load(base_config(), &mut ids).is_ok());
}

#[test]
fn zero_clock_interval_fails_to_load() {
    let mut config = base_config();
    config.right = vec![clock_entry(Some(0))];
    let mut ids = IdAllocator::new();
    match Bar::load(config, &mut ids) {
        Err(e) => {
            assert_eq!(e, LoadError::ZeroInterval);
            assert_eq!(e.message(), "a clock interval must be positive");
        }
        Ok(_) => panic!("a clock with a zero interval was loaded"),
    }
}

#[test]
fn ids_follow_list_order() {
    let mut config = base_config();
    config.left = vec![text_entry("l0"), text_entry("l1")];
    config.center = vec![clock_entry(None)];
    config.right = vec![text_entry("r0")];
    let mut ids = IdAllocator::new();
    let bar = Bar::load(config, &mut ids).unwrap();
    assert_eq!(ids.remaining(), usize::MAX - 4);
    let all = bar.components();
    assert_eq!(all.len(), 4);
    assert_eq!(all[0].text(), "l0");
    assert_eq!(all[1].text(), "l1");
    assert_eq!(all[3].text(), "r0");
    for i in 0..all.len() {
        for j in 0..all.len() {
            if i != j {
                assert_ne!(all[i].id(), all[j].id());
            }
        }
        if i > 0 {
            assert!(all[i - 1].id() < all[i].id());
        }
    }
    assert_eq!(all[2].stream(), ComponentStream::Interval { id: all[2].id(), period: 15000 });
    assert_eq!(all[0].stream(), ComponentStream::Empty);
}

#[test]
fn try_recv_before_start_is_empty() {
    let mut config = base_config();
    config.left = vec![text_entry("static")];
    let mut ids = IdAllocator::new();
    let mut bar = Bar::load(config, &mut ids).unwrap();
    assert_eq!(bar.try_recv(), None);
    assert_eq!(bar.try_recv(), None);
    assert_eq!(bar.until_next_delivery(), None);
}

#[test]
fn undynamic_never_delivered() {
    let mut config = base_config();
    config.left = vec![text_entry("a"), text_entry("b")];
    let mut ids = IdAllocator::new();
    let mut bar = Bar::load(config, &mut ids).unwrap();
    bar.notify(Event::MouseMotion(Point { x: 1, y: 2 }));
    assert_eq!(bar.try_recv(), None);
    bar.notify(Event::Click(MouseButton::Left, MouseButtonState::Pressed, Point { x: 0, y: 0 }));
    assert_eq!(bar.try_recv(), None);
    assert_eq!(bar.poll_at(u64::MAX - 1), None);
}

#[test]
fn every_due_tick_is_delivered() {
    let mut config = base_config();
    config.left = vec![text_entry("a")];
    config.right = vec![clock_entry(Some(100_000))];
    let mut ids = IdAllocator::new();
    let mut bar = Bar::load(config, &mut ids).unwrap();
    let clock = bar.right()[0].id();
    assert_eq!(bar.try_recv(), None);
    assert_eq!(bar.wait_at(40_000), Some(60_000));
    assert_eq!(bar.poll_at(250_000), Some(clock));
    assert_eq!(bar.poll_at(250_000), Some(clock));
    assert_eq!(bar.poll_at(250_000), None);
    assert_eq!(bar.wait_at(250_000), Some(50_000));
    assert_eq!(bar.poll_at(300_000), Some(clock));
}

#[test]
fn timers_follow_periodic_streams() {
    let mut ids = IdAllocator::new();
    let a = ids.next_id();
    let b = ids.next_id();
    let streams = vec![
        ComponentStream::Interval { id: a, period: 5 },
        ComponentStream::Empty,
        ComponentStream::Interval { id: b, period: 7 },
    ];
    let mut p = Pipeline::new(11, &streams);
    assert_eq!(p.origin, 11);
    assert_eq!(p.timers, vec![Timer { id: a, period: 5, next_due: 5 }, Timer { id: b, period: 7, next_due: 7 }]);
    assert_eq!(p.next_deadline(), Some(5));
    p.push(b);
    assert_eq!(p.queue, vec![b]);
    assert_eq!(p.next_deadline(), Some(0));
}

#[test]
fn timer_steps_and_retires() {
    let mut ids = IdAllocator::new();
    let id = ids.next_id();
    let t = Timer { id, period: 10, next_due: 20 };
    assert_eq!(t.stepped().next_due, 30);
    assert!(t.is_due(20));
    assert!(!t.is_due(19));
    let last = Timer { id, period: 10, next_due: u64::MAX - 5 };
    assert_eq!(last.stepped().next_due, u64::MAX);
    assert!(!last.stepped().is_due(u64::MAX));
}

#[test]
fn elapsed_is_whole_milliseconds() {
    assert_eq!(elapsed_ms(1_000, 3_500_000), 3);
    assert_eq!(elapsed_ms(5, 4), 0);
}
