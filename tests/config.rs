use bar_config::bar::{Bar, Monitor, Position};
use bar_config::components::IdAllocator;
use bar_config::config::{ComponentConfig, ComponentSettings, Config, Extra};
use bar_config::{Background, Color};

#[test]
fn parse_colors() {
    let mut settings = ComponentSettings::default();
    settings.foreground = Some(Color::from_str("#FF00FF99").unwrap());
    let config = Config {
        height: 30,
        position: Position::default(),
        background: Background::default(),
        border: None,
        monitors: vec![Monitor {
            name: "DVI-1".to_string(),
            fallback_names: Vec::new(),
        }],
        defaults: ComponentSettings::default(),
        left: vec![ComponentConfig {
            name: String::new(),
            settings,
            extra: Extra { text: None, interval: None },
        }],
        center: Vec::new(),
        right: Vec::new(),
    };
    let mut ids = IdAllocator::new();
    let bar = Bar::load(config, &mut ids).unwrap();

    let foreground = bar.left()[0].settings().foreground.unwrap();
    assert_eq!(foreground.r, 255);
    assert_eq!(foreground.g, 0);
    assert_eq!(foreground.b, 255);
    assert_eq!(foreground.a, 153);
}
