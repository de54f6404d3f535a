use bar_config::components::{hour_minute_text, Clock, Component, IdAllocator, Undynamic};
use bar_config::config::ComponentSettings;
use bar_config::config_paths;
use bar_config::event::{Event, Point};

#[test]
fn hour_minute_has_two_digits_each() {
    assert_eq!(hour_minute_text(7, 5), "07:05");
    assert_eq!(hour_minute_text(23, 59), "23:59");
    assert_eq!(hour_minute_text(0, 0), "00:00");
}

#[test]
fn clock_text_is_a_time_of_day() {
    let mut ids = IdAllocator::new();
    let clock = Clock::create(ComponentSettings::default(), 1000, ids.next_id());
    let text = clock.text();
    let chars: Vec<char> = text.chars().collect();
    assert_eq!(chars.len(), 5);
    assert_eq!(chars[2], ':');
    let hour: u32 = text[0..2].parse().unwrap();
    let minute: u32 = text[3..5].parse().unwrap();
    assert!(hour < 24 && minute < 60);
}

#[test]
fn component_updates_and_events() {
    let mut ids = IdAllocator::new();
    let mut clock = Component::Clock(Clock::create(ComponentSettings::default(), 10, ids.next_id()));
    let mut text = Component::Undynamic(Undynamic::create(ComponentSettings::default(), "hi".to_string(), ids.next_id()));
    assert!(clock.update());
    assert!(!text.update());
    assert!(!clock.notify(Event::MouseMotion(Point { x: 3, y: 4 })));
    assert!(!text.notify(Event::MouseMotion(Point { x: 3, y: 4 })));
    assert_eq!(text.text(), "hi");
    assert_ne!(clock.id(), text.id());
}

#[test]
fn config_paths_in_order() {
    let paths = config_paths("mybar", "/home/u/.config", "/home/u", "yml");
    assert_eq!(
        paths,
        vec![
            "/home/u/.config/mybar.yml".to_string(),
            "/home/u/.mybar.yml".to_string(),
            "/etc/mybar/mybar.yml".to_string(),
        ]
    );
}
