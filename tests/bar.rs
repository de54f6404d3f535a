use std::time::{Duration, Instant};

use bar_config::bar::{Bar, Monitor, Position};
use bar_config::components::IdAllocator;
use bar_config::config::{ComponentConfig, ComponentSettings, Config, Extra, Font};
use bar_config::Background;

fn monitor(name: &str) -> Monitor {
    Monitor {
        name: name.to_string(),
        fallback_names: Vec::new(),
    }
}

fn base_config() -> Config {
    Config {
        height: 30,
        position: Position::default(),
        background: Background::default(),
        border: None,
        monitors: vec![monitor("DVI-1")],
        defaults: ComponentSettings::default(),
        left: Vec::new(),
        center: Vec::new(),
        right: Vec::new(),
    }
}

fn entry(name: &str, settings: ComponentSettings, text: Option<&str>, interval: Option<u64>) -> ComponentConfig {
    ComponentConfig {
        name: name.to_string(),
        settings,
        extra: Extra {
            text: text.map(|t| t.to_string()),
            interval,
        },
    }
}

fn load(config: Config) -> Bar {
    let mut ids = IdAllocator::new();
    Bar::load(config, &mut ids).unwrap()
}

#[test]
fn load_config() {
    let bar = load(base_config());

    assert_eq!(bar.general().height, 30);
    assert_eq!(bar.general().monitors.len(), 1);
    assert_eq!(bar.general().monitors[0].name, "DVI-1");
}

#[test]
fn undynamic_component() {
    let mut settings = ComponentSettings::default();
    settings.width = Some(99);
    let mut config = base_config();
    config.left = vec![entry("", settings, Some("Hello, World!"), None)];

    let bar = load(config);

    assert_eq!(bar.left().len(), 1);
    assert_eq!(bar.left()[0].text(), String::from("Hello, World!"));
    assert_eq!(bar.left()[0].settings().width, Some(99));
}

#[test]
fn clock_component() {
    let mut config = base_config();
    config.left = vec![entry("clock", ComponentSettings::default(), None, Some(10))];

    let mut bar = load(config);
    let start = Instant::now();
    let delivered = loop {
        if let Some(id) = bar.try_recv() {
            break id;
        }
        assert!(start.elapsed() < Duration::from_secs(5));
    };
    assert_eq!(delivered, bar.left()[0].id());

    let time = time::now();
    let time = time.strftime("%H:%M").unwrap();
    assert_eq!(bar.left()[0].text(), format!("{}", time));
}

#[test]
fn component_fallbacks() {
    let mut defaults = ComponentSettings::default();
    defaults.width = Some(100);
    defaults.fonts = vec![Font { name: "font".to_string(), size: 3 }];
    let mut own = ComponentSettings::default();
    own.fonts = vec![Font { name: "primary".to_string(), size: 9 }];
    let mut config = base_config();
    config.defaults = defaults;
    config.left = vec![entry("", own, None, None)];

    let bar = load(config);

    assert_eq!(bar.left()[0].settings().width, Some(100));
    assert_eq!(bar.left()[0].settings().fonts.len(), 2);
    assert_eq!(bar.left()[0].settings().fonts[0].name, "primary");
    assert_eq!(bar.left()[0].settings().fonts[0].size, 9);
    assert_eq!(bar.left()[0].settings().fonts[1].name, "font");
    assert_eq!(bar.left()[0].settings().fonts[1].size, 3);
}

#[test]
fn own_width_wins_over_default() {
    let mut own = ComponentSettings::default();
    own.width = Some(99);
    let mut defaults = ComponentSettings::default();
    defaults.width = Some(50);
    let mut config = base_config();
    config.defaults = defaults;
    config.left = vec![entry("", own, Some("Hello, World!"), None)];

    let bar = load(config);

    assert_eq!(bar.left()[0].settings().width, Some(99));
    assert_eq!(bar.left()[0].text(), "Hello, World!");
}

#[test]
fn default_width_fills_empty_entry() {
    let mut defaults = ComponentSettings::default();
    defaults.width = Some(50);
    let mut config = base_config();
    config.defaults = defaults;
    config.left = vec![entry("", ComponentSettings::default(), None, None)];

    let bar = load(config);

    assert_eq!(bar.left()[0].settings().width, Some(50));
    assert_eq!(bar.left()[0].text(), "");
}

#[test]
fn unknown_name_is_static_text() {
    let mut config = base_config();
    config.center = vec![entry("volume", ComponentSettings::default(), Some("VOLUME"), Some(5))];

    let mut bar = load(config);

    assert_eq!(bar.center()[0].text(), "VOLUME");
    assert_eq!(bar.try_recv(), None);
    assert_eq!(bar.poll_at(1_000_000), None);
}
