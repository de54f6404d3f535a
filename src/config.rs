//! Configuration data model: colors, backgrounds, fonts, monitors and component settings.

use vstd::prelude::*;
use vstd::string::*;

use image::DynamicImage;

verus! {

/// RGBA color specified as four values from 0 to 255.
#[derive(Copy, Clone, Debug, PartialEq, Eq, Hash, Structural)]
pub struct Color {
    pub r: u8,
    pub g: u8,
    pub b: u8,
    pub a: u8,
}

/// Value of one hexadecimal digit of either case.
pub open spec fn hex_value(c: char) -> Option<u8> {
    if '0' <= c && c <= '9' {
        Some((c as u32 - '0' as u32) as u8)
    } else if 'a' <= c && c <= 'f' {
        Some((c as u32 - 'a' as u32 + 10) as u8)
    } else if 'A' <= c && c <= 'F' {
        Some((c as u32 - 'A' as u32 + 10) as u8)
    } else {
        None
    }
}

/// Value of the two hexadecimal digits at `i` and `i + 1`.
pub open spec fn hex_byte(s: Seq<char>, i: int) -> Option<u8> {
    match (hex_value(s[i]), hex_value(s[i + 1])) {
        (Some(hi), Some(lo)) => Some((hi * 16 + lo) as u8),
        _ => None,
    }
}

/// A `#` followed by six or eight characters.
pub open spec fn color_shape(s: Seq<char>) -> bool {
    s.len() >= 1 && s[0] == '#' && (s.len() == 7 || s.len() == 9)
}

/// Every character after the `#` is a hexadecimal digit.
pub open spec fn color_digits(s: Seq<char>) -> bool {
    forall|i: int| 1 <= i < s.len() ==> (#[trigger] hex_value(s[i])).is_some()
}

/// The color that `#RRGGBB` or `#RRGGBBAA` denotes; alpha is 255 when absent.
pub open spec fn color_of(s: Seq<char>) -> Option<Color> {
    if color_shape(s) && color_digits(s) {
        Some(
            Color {
                r: hex_byte(s, 1).unwrap(),
                g: hex_byte(s, 3).unwrap(),
                b: hex_byte(s, 5).unwrap(),
                a: if s.len() == 9 {
                    hex_byte(s, 7).unwrap()
                } else {
                    255
                },
            },
        )
    } else {
        None
    }
}

pub open spec fn shape_message() -> Seq<char> {
    "colors need to follow the format `#RRGGBB` or `#RRGGBBAA`"@
}

pub open spec fn digit_message() -> Seq<char> {
    "hexadecimal color digits need to be within the range 0..=F"@
}

fn hex_digit(c: char) -> (r: Option<u8>)
    ensures
        r == hex_value(c),
{
    if '0' <= c && c <= '9' {
        Some((c as u32 - '0' as u32) as u8)
    } else if 'a' <= c && c <= 'f' {
        Some((c as u32 - 'a' as u32 + 10) as u8)
    } else if 'A' <= c && c <= 'F' {
        Some((c as u32 - 'A' as u32 + 10) as u8)
    } else {
        None
    }
}

fn hex_pair(s: &str, i: usize) -> (r: Option<u8>)
    requires
        i + 1 < s@.len() <= usize::MAX,
    ensures
        r == hex_byte(s@, i as int),
{
    match (hex_digit(s.get_char(i)), hex_digit(s.get_char(i + 1))) {
        (Some(hi), Some(lo)) => Some(hi * 16 + lo),
        _ => None,
    }
}

impl Color {
    pub fn new(r: u8, g: u8, b: u8, a: u8) -> (c: Self)
        ensures
            c == (Color { r, g, b, a }),
    {
        Color { r, g, b, a }
    }

    /// Parses `#RRGGBB` or `#RRGGBBAA` (hexadecimal, either case); alpha defaults to 255.
    pub fn from_str(string: &str) -> (res: Result<Self, String>)
        ensures
            res is Ok <==> color_of(string@) is Some,
            res matches Ok(c) ==> color_of(string@) == Some(c),
            res matches Err(e) ==> (if color_shape(string@) {
                e@ == digit_message()
            } else {
                e@ == shape_message()
            }),
    {
        let len = string.unicode_len();
        if len < 1 || string.get_char(0) != '#' || (len != 7 && len != 9) {
            return Err(String::from_str("colors need to follow the format `#RRGGBB` or `#RRGGBBAA`"));
        }
        let r = hex_pair(string, 1);
        let g = hex_pair(string, 3);
        let b = hex_pair(string, 5);
        let a = if len == 9 {
            hex_pair(string, 7)
        } else {
            Some(255u8)
        };
        match (r, g, b, a) {
            (Some(r), Some(g), Some(b), Some(a)) => {
                assert(color_digits(string@)) by {
                    assert forall|i: int| 1 <= i < string@.len() implies (#[trigger] hex_value(
                        string@[i],
                    )).is_some() by {
                        if i % 2 == 0 {
                            assert(hex_byte(string@, i - 1).is_some());
                        } else {
                            assert(hex_byte(string@, i).is_some());
                        }
                    }
                }
                Ok(Color::new(r, g, b, a))
            },
            _ => {
                Err(String::from_str("hexadecimal color digits need to be within the range 0..=F"))
            },
        }
    }
}

/// The sixteen lower-case hexadecimal digits, in order of value.
pub open spec fn hex_digits() -> Seq<char> {
    "0123456789abcdef"@
}

/// The two lower-case hexadecimal digits of a byte.
pub open spec fn byte_text(b: u8) -> Seq<char> {
    seq![hex_digits()[(b / 16) as int], hex_digits()[(b % 16) as int]]
}

/// The `#rrggbbaa` text of a color.
pub open spec fn color_text(c: Color) -> Seq<char> {
    seq!['#'] + byte_text(c.r) + byte_text(c.g) + byte_text(c.b) + byte_text(c.a)
}

fn append_hex_byte(out: &mut String, b: u8)
    ensures
        final(out)@ == old(out)@ + byte_text(b),
{
    let digits = "0123456789abcdef";
    proof {
        reveal_strlit("0123456789abcdef");
    }
    let hi = (b / 16) as usize;
    let lo = (b % 16) as usize;
    out.append(digits.substring_char(hi, hi + 1));
    out.append(digits.substring_char(lo, lo + 1));
    assert(final(out)@ =~= old(out)@ + byte_text(b));
}

impl Color {
    /// Formats the color as `#rrggbbaa`.
    pub fn to_string(&self) -> (s: String)
        ensures
            s@ == color_text(*self),
    {
        let mut s = String::from_str("#");
        proof {
            reveal_strlit("#");
        }
        append_hex_byte(&mut s, self.r);
        append_hex_byte(&mut s, self.g);
        append_hex_byte(&mut s, self.b);
        append_hex_byte(&mut s, self.a);
        s
    }
}

proof fn lemma_hex_digit_value(n: u8)
    requires
        n < 16,
    ensures
        hex_value(hex_digits()[n as int]) == Some(n),
{
    reveal_strlit("0123456789abcdef");
}

/// Formatting a color and parsing the text back gives the same color.
pub proof fn lemma_color_text_round_trip(c: Color)
    ensures
        color_of(color_text(c)) == Some(c),
{
    let t = color_text(c);
    lemma_hex_digit_value(c.r / 16);
    lemma_hex_digit_value(c.r % 16);
    lemma_hex_digit_value(c.g / 16);
    lemma_hex_digit_value(c.g % 16);
    lemma_hex_digit_value(c.b / 16);
    lemma_hex_digit_value(c.b % 16);
    lemma_hex_digit_value(c.a / 16);
    lemma_hex_digit_value(c.a % 16);
    assert(t.len() == 9);
    assert(t[1] == hex_digits()[(c.r / 16) as int] && t[2] == hex_digits()[(c.r % 16) as int]);
    assert(t[3] == hex_digits()[(c.g / 16) as int] && t[4] == hex_digits()[(c.g % 16) as int]);
    assert(t[5] == hex_digits()[(c.b / 16) as int] && t[6] == hex_digits()[(c.b % 16) as int]);
    assert(t[7] == hex_digits()[(c.a / 16) as int] && t[8] == hex_digits()[(c.a % 16) as int]);
    assert(color_digits(t));
    assert(hex_byte(t, 1) == Some(c.r));
    assert(hex_byte(t, 3) == Some(c.g));
    assert(hex_byte(t, 5) == Some(c.b));
    assert(hex_byte(t, 7) == Some(c.a));
}

/// `image::DynamicImage`, a decoded image used as a background; held opaque.
#[verifier::external_type_specification]
#[verifier::external_body]
pub struct ExDynamicImage(DynamicImage);

/// Relies on `DynamicImage`'s derived `Clone`: the copy holds the same pixels.
#[verifier::external_body]
fn copy_image(img: &DynamicImage) -> (r: DynamicImage)
    ensures
        r == *img,
{
    img.clone()
}

/// Background of a component or the bar.
pub enum Background {
    Image(DynamicImage),
    Color(Color),
}

impl Clone for Background {
    fn clone(&self) -> (r: Self)
        ensures
            r == *self,
    {
        match self {
            Background::Image(img) => Background::Image(copy_image(img)),
            Background::Color(c) => Background::Color(*c),
        }
    }
}

impl Default for Background {
    /// Opaque black.
    fn default() -> (r: Self)
        ensures
            r == Background::Color(Color { r: 0, g: 0, b: 0, a: 255 }),
    {
        Background::Color(Color::new(0, 0, 0, 255))
    }
}

impl Background {
    /// Decides how a background text is read: `None` when it names an image file, else the
    /// result of parsing it as a `#`-prefixed color.
    pub fn from_color_str(text: &str) -> (r: Option<Result<Background, String>>)
        ensures
            r is None <==> !(text@.len() > 0 && text@[0] == '#'),
            r matches Some(Ok(b)) ==> color_of(text@) matches Some(c) && b == Background::Color(c),
            r matches Some(Err(e)) ==> color_of(text@) is None && (if color_shape(text@) {
                e@ == digit_message()
            } else {
                e@ == shape_message()
            }),
    {
        if text.unicode_len() == 0 || text.get_char(0) != '#' {
            return None;
        }
        match Color::from_str(text) {
            Ok(c) => Some(Ok(Background::Color(c))),
            Err(e) => Some(Err(e)),
        }
    }
}

/// Distinct identification for a font.
#[derive(Debug, Eq, PartialEq, Hash)]
pub struct Font {
    pub name: String,
    pub size: u8,
}

impl View for Font {
    type V = (Seq<char>, u8);

    open spec fn view(&self) -> (Seq<char>, u8) {
        (self.name@, self.size)
    }
}

impl Clone for Font {
    fn clone(&self) -> (r: Self)
        ensures
            r@ == self@,
    {
        Font { name: self.name.clone(), size: self.size }
    }
}

/// Distinct identification for a monitor; `fallback_names` are screens to use when the
/// primary one is not available.
#[derive(Clone, Debug, Eq, PartialEq, Hash)]
pub struct Monitor {
    pub name: String,
    pub fallback_names: Vec<String>,
}

/// Border separating the bar from the rest of the window manager.
#[derive(Copy, Clone, Debug, Eq, PartialEq, Hash, Structural)]
pub struct Border {
    pub height: u8,
    pub color: Color,
}

/// Where on the monitor the bar is displayed.
#[derive(Copy, Clone, Debug, Eq, PartialEq, Hash, Structural)]
pub enum Position {
    Top,
    Bottom,
}

impl Default for Position {
    fn default() -> (p: Self)
        ensures
            p == Position::Bottom,
    {
        Position::Bottom
    }
}

/// Settings used to draw a component. Every field is optional; absent ones are filled from
/// the bar-wide defaults when the bar is loaded.
pub struct ComponentSettings {
    pub foreground: Option<Color>,
    pub background: Option<Background>,
    pub width: Option<u8>,
    pub padding: Option<u8>,
    pub offset_x: Option<i8>,
    pub offset_y: Option<i8>,
    pub fonts: Vec<Font>,
}

/// What a `ComponentSettings` holds, with fonts as `(name, size)` pairs.
pub struct SettingsView {
    pub foreground: Option<Color>,
    pub background: Option<Background>,
    pub width: Option<u8>,
    pub padding: Option<u8>,
    pub offset_x: Option<i8>,
    pub offset_y: Option<i8>,
    pub fonts: Seq<(Seq<char>, u8)>,
}

impl View for ComponentSettings {
    type V = SettingsView;

    open spec fn view(&self) -> SettingsView {
        SettingsView {
            foreground: self.foreground,
            background: self.background,
            width: self.width,
            padding: self.padding,
            offset_x: self.offset_x,
            offset_y: self.offset_y,
            fonts: self.fonts@.map_values(|f: Font| f@),
        }
    }
}

/// The component's own value when present, else the default.
pub open spec fn or_default<T>(own: Option<T>, default: Option<T>) -> Option<T> {
    if own is Some {
        own
    } else {
        default
    }
}

/// Settings after the fallback merge: every absent field comes from `default`, and the
/// default fonts follow the component's own.
pub open spec fn merged(own: SettingsView, default: SettingsView) -> SettingsView {
    SettingsView {
        foreground: or_default(own.foreground, default.foreground),
        background: or_default(own.background, default.background),
        width: or_default(own.width, default.width),
        padding: or_default(own.padding, default.padding),
        offset_x: or_default(own.offset_x, default.offset_x),
        offset_y: or_default(own.offset_y, default.offset_y),
        fonts: own.fonts + default.fonts,
    }
}

/// Settings with every field absent.
pub open spec fn empty_settings() -> SettingsView {
    SettingsView {
        foreground: None,
        background: None,
        width: None,
        padding: None,
        offset_x: None,
        offset_y: None,
        fonts: Seq::empty(),
    }
}

impl Default for ComponentSettings {
    fn default() -> (s: Self)
        ensures
            s@ == empty_settings(),
    {
        let s = ComponentSettings {
            foreground: None,
            background: None,
            width: None,
            padding: None,
            offset_x: None,
            offset_y: None,
            fonts: Vec::new(),
        };
        assert(s@.fonts =~= Seq::empty());
        s
    }
}

impl Clone for ComponentSettings {
    fn clone(&self) -> (r: Self)
        ensures
            r@ == self@,
    {
        let mut fonts: Vec<Font> = Vec::new();
        let mut i: usize = 0;
        while i < self.fonts.len()
            invariant
                i <= self.fonts@.len(),
                fonts@.len() == i,
                forall|j: int| 0 <= j < i ==> (#[trigger] fonts@[j])@ == self.fonts@[j]@,
            decreases self.fonts@.len() - i,
        {
            fonts.push(self.fonts[i].clone());
            i = i + 1;
        }
        let r = ComponentSettings {
            foreground: self.foreground,
            background: match &self.background {
                Some(b) => Some(b.clone()),
                None => None,
            },
            width: self.width,
            padding: self.padding,
            offset_x: self.offset_x,
            offset_y: self.offset_y,
            fonts,
        };
        assert(r@.fonts =~= self@.fonts);
        r
    }
}

impl ComponentSettings {
    /// Fills every absent field from `fallback` and appends its fonts after the own ones.
    pub fn fallback(&mut self, fallback: &ComponentSettings)
        ensures
            final(self)@ == merged(old(self)@, fallback@),
    {
        if self.foreground.is_none() {
            self.foreground = fallback.foreground;
        }
        if self.background.is_none() {
            self.background = match &fallback.background {
                Some(b) => Some(b.clone()),
                None => None,
            };
        }
        if self.width.is_none() {
            self.width = fallback.width;
        }
        if self.padding.is_none() {
            self.padding = fallback.padding;
        }
        if self.offset_x.is_none() {
            self.offset_x = fallback.offset_x;
        }
        if self.offset_y.is_none() {
            self.offset_y = fallback.offset_y;
        }
        let mut extra: Vec<Font> = Vec::new();
        let mut i: usize = 0;
        while i < fallback.fonts.len()
            invariant
                i <= fallback.fonts@.len(),
                extra@.len() == i,
                forall|j: int| 0 <= j < i ==> (#[trigger] extra@[j])@ == fallback.fonts@[j]@,
            decreases fallback.fonts@.len() - i,
        {
            let f = fallback.fonts[i].clone();
            extra.push(f);
            i = i + 1;
        }
        let ghost before = self.fonts@;
        let ghost added = extra@;
        self.fonts.append(&mut extra);
        assert(self.fonts@ == before + added);
        assert(self@.fonts =~= old(self)@.fonts + fallback@.fonts);
    }
}

/// Extra fields of a component entry that only some variants read.
pub struct Extra {
    /// Text of a static component; empty when absent.
    pub text: Option<String>,
    /// Tick interval of a clock in milliseconds; 15000 when absent.
    pub interval: Option<u64>,
}

/// One entry of the `left`, `center` or `right` list of the configuration.
pub struct ComponentConfig {
    /// Selects the variant: `"clock"` for a clock, anything else for static text.
    pub name: String,
    pub settings: ComponentSettings,
    pub extra: Extra,
}

/// The configuration tree a bar is loaded from.
pub struct Config {
    pub height: u8,
    pub position: Position,
    pub background: Background,
    pub border: Option<Border>,
    pub monitors: Vec<Monitor>,
    pub defaults: ComponentSettings,
    pub left: Vec<ComponentConfig>,
    pub center: Vec<ComponentConfig>,
    pub right: Vec<ComponentConfig>,
}

/// A component without its own width takes the default width, one with its own keeps it, and
/// its fonts are its own, in order, followed by the default fonts, in order.
pub proof fn lemma_fallback_width_and_fonts(own: SettingsView, default: SettingsView)
    ensures
        own.width is None ==> merged(own, default).width == default.width,
        own.width is Some ==> merged(own, default).width == own.width,
        merged(own, default).fonts.len() == own.fonts.len() + default.fonts.len(),
        merged(own, default).fonts.subrange(0, own.fonts.len() as int) == own.fonts,
        merged(own, default).fonts.subrange(
            own.fonts.len() as int,
            merged(own, default).fonts.len() as int,
        ) == default.fonts,
{
    let m = merged(own, default);
    assert(m.fonts.subrange(0, own.fonts.len() as int) =~= own.fonts);
    assert(m.fonts.subrange(own.fonts.len() as int, m.fonts.len() as int) =~= default.fonts);
}

} // verus!
