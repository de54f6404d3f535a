//! A clock showing the local time, updated on a fixed interval.

use vstd::prelude::*;
use vstd::string::*;

use crate::components::{ComponentID, ComponentView, Kind};
use crate::config::ComponentSettings;

verus! {

/// The decimal digits, in order of value.
pub open spec fn decimal_digits() -> Seq<char> {
    "0123456789"@
}

/// Two decimal digits of a number below 100, with a leading zero.
pub open spec fn two_digits(n: u8) -> Seq<char> {
    seq![decimal_digits()[(n / 10) as int], decimal_digits()[(n % 10) as int]]
}

/// `HH:MM` text of a time of day.
pub open spec fn hour_minute_text_spec(hour: u8, minute: u8) -> Seq<char> {
    two_digits(hour) + seq![':'] + two_digits(minute)
}

fn append_two_digits(out: &mut String, n: u8)
    requires
        n < 100,
    ensures
        final(out)@ == old(out)@ + two_digits(n),
{
    let digits = "0123456789";
    proof {
        reveal_strlit("0123456789");
    }
    let hi = (n / 10) as usize;
    let lo = (n % 10) as usize;
    out.append(digits.substring_char(hi, hi + 1));
    out.append(digits.substring_char(lo, lo + 1));
    assert(final(out)@ =~= old(out)@ + two_digits(n));
}

/// Formats a time of day as `HH:MM`, both parts with two digits.
pub fn hour_minute_text(hour: u8, minute: u8) -> (s: String)
    requires
        hour < 24,
        minute < 60,
    ensures
        s@ == hour_minute_text_spec(hour, minute),
{
    let mut s = String::new();
    append_two_digits(&mut s, hour);
    s.append(":");
    proof {
        reveal_strlit(":");
    }
    append_two_digits(&mut s, minute);
    assert(s@ =~= hour_minute_text_spec(hour, minute));
    s
}

/// Relies on `time::now`: the local time, whose `tm_hour` lies in 0..=23 and `tm_min` in
/// 0..=59 as the `Tm` documentation states. It panics only when the C library cannot convert
/// the current time, which no argument can cause.
#[verifier::external_body]
fn local_hour_minute() -> (t: (u8, u8))
    ensures
        t.0 < 24,
        t.1 < 60,
{
    let now = time::now();
    (now.tm_hour as u8, now.tm_min as u8)
}

/// Clock component: shows the local time and asks for an update every `interval`
/// milliseconds.
pub struct Clock {
    pub id: ComponentID,
    pub settings: ComponentSettings,
    pub interval: u64,
}

impl View for Clock {
    type V = ComponentView;

    open spec fn view(&self) -> ComponentView {
        ComponentView {
            id: self.id,
            settings: self.settings@,
            kind: Kind::Clock { interval: self.interval },
        }
    }
}

impl Clock {
    pub fn create(settings: ComponentSettings, interval: u64, id: ComponentID) -> (c: Clock)
        ensures
            c@ == (ComponentView { id, settings: settings@, kind: Kind::Clock { interval } }),
    {
        Clock { id, settings, interval }
    }

    pub fn id(&self) -> (id: ComponentID)
        ensures
            id == self@.id,
    {
        self.id
    }

    pub fn interval(&self) -> (ms: u64)
        ensures
            self@.kind == (Kind::Clock { interval: ms }),
    {
        self.interval
    }

    pub fn settings(&self) -> (s: &ComponentSettings)
        ensures
            s@ == self@.settings,
    {
        &self.settings
    }

    /// The local time as `HH:MM`.
    pub fn text(&self) -> (s: String)
        ensures
            exists|h: u8, m: u8| h < 24 && m < 60 && s@ == #[trigger] hour_minute_text_spec(h, m),
    {
        let (h, m) = local_hour_minute();
        hour_minute_text(h, m)
    }
}

} // verus!
