use bar_config::config::{ComponentSettings, Font};
use bar_config::{Background, Color};

#[test]
fn six_digit_color_is_opaque() {
    assert_eq!(Color::from_str("#0a1B2c"), Ok(Color::new(10, 27, 44, 255)));
}

#[test]
fn eight_digit_color_keeps_alpha() {
    assert_eq!(Color::from_str("#FFFFFF00"), Ok(Color::new(255, 255, 255, 0)));
}

#[test]
fn malformed_colors_are_rejected() {
    let shape = "colors need to follow the format `#RRGGBB` or `#RRGGBBAA`".to_string();
    let digits = "hexadecimal color digits need to be within the range 0..=F".to_string();
    assert_eq!(Color::from_str("FF00FF"), Err(shape.clone()));
    assert_eq!(Color::from_str("#FF00F"), Err(shape.clone()));
    assert_eq!(Color::from_str("#FF00FF9"), Err(shape.clone()));
    assert_eq!(Color::from_str(""), Err(shape));
    assert_eq!(Color::from_str("#GG0000"), Err(digits.clone()));
    assert_eq!(Color::from_str("#+F0000"), Err(digits.clone()));
    assert_eq!(Color::from_str("#FF00FF9Z"), Err(digits));
}

#[test]
fn color_text_round_trips() {
    let c = Color::new(255, 0, 255, 153);
    assert_eq!(c.to_string(), "#ff00ff99");
    assert_eq!(Color::from_str(&c.to_string()), Ok(c));
    assert_eq!(Color::new(1, 2, 3, 4).to_string(), "#01020304");
}

#[test]
fn background_text_dispatch() {
    match Background::from_color_str("#00000080") {
        Some(Ok(Background::Color(c))) => assert_eq!(c, Color::new(0, 0, 0, 128)),
        _ => panic!("expected a color"),
    }
    assert!(Background::from_color_str("./tests/test.png").is_none());
    assert!(matches!(Background::from_color_str("#12"), Some(Err(_))));
    match Background::default() {
        Background::Color(c) => assert_eq!(c, Color::new(0, 0, 0, 255)),
        _ => panic!("expected a color"),
    }
}

#[test]
fn fallback_width_own_value_wins() {
    let mut own = ComponentSettings::default();
    own.width = Some(99);
    let mut defaults = ComponentSettings::default();
    defaults.width = Some(50);
    defaults.padding = Some(4);
    own.fallback(&defaults);
    assert_eq!(own.width, Some(99));
    assert_eq!(own.padding, Some(4));
}

#[test]
fn fallback_width_from_defaults() {
    let mut own = ComponentSettings::default();
    let mut defaults = ComponentSettings::default();
    defaults.width = Some(50);
    defaults.offset_x = Some(-3);
    defaults.foreground = Some(Color::new(1, 2, 3, 4));
    own.fallback(&defaults);
    assert_eq!(own.width, Some(50));
    assert_eq!(own.offset_x, Some(-3));
    assert_eq!(own.offset_y, None);
    assert_eq!(own.foreground, Some(Color::new(1, 2, 3, 4)));
}

#[test]
fn fallback_fonts_concatenate() {
    let mut own = ComponentSettings::default();
    own.fonts = vec![Font { name: "a".to_string(), size: 1 }, Font { name: "b".to_string(), size: 2 }];
    let mut defaults = ComponentSettings::default();
    defaults.fonts = vec![Font { name: "c".to_string(), size: 3 }];
    own.fallback(&defaults);
    let names: Vec<&str> = own.fonts.iter().map(|f| f.name.as_str()).collect();
    assert_eq!(names, vec!["a", "b", "c"]);
    assert_eq!(defaults.fonts.len(), 1);
}

#[test]
fn fallback_copies_image_background() {
    let img = image::DynamicImage::new_rgba8(2, 1);
    let mut defaults = ComponentSettings::default();
    defaults.background = Some(Background::Image(img.clone()));
    let mut own = ComponentSettings::default();
    own.fallback(&defaults);
    match own.background {
        Some(Background::Image(copy)) => assert_eq!(copy, img),
        _ => panic!("expected the default image"),
    }
}

#[test]
fn background_color_errors_are_color_errors() {
    match Background::from_color_str("#12") {
        Some(Err(e)) => assert_eq!(e, "colors need to follow the format `#RRGGBB` or `#RRGGBBAA`"),
        _ => panic!("expected a shape error"),
    }
    match Background::from_color_str("#12345G") {
        Some(Err(e)) => assert_eq!(e, "hexadecimal color digits need to be within the range 0..=F"),
        _ => panic!("expected a digit error"),
    }
}

#[test]
fn settings_clone_keeps_every_field() {
    let mut s = ComponentSettings::default();
    s.width = Some(7);
    s.offset_y = Some(-2);
    s.foreground = Some(Color::new(9, 8, 7, 6));
    s.background = Some(Background::Color(Color::new(1, 1, 1, 1)));
    s.fonts = vec![Font { name: "mono".to_string(), size: 11 }];
    let c = s.clone();
    assert_eq!(c.width, Some(7));
    assert_eq!(c.offset_y, Some(-2));
    assert_eq!(c.foreground, Some(Color::new(9, 8, 7, 6)));
    assert!(matches!(c.background, Some(Background::Color(x)) if x == Color::new(1, 1, 1, 1)));
    assert_eq!(c.fonts, s.fonts);
}
