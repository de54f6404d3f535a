//! Components inside the bar: their identifiers, their variants and what each reports.

mod clock;
mod undynamic;

use vstd::prelude::*;

use crate::config::{ComponentConfig, ComponentSettings, SettingsView};
use crate::event::Event;

pub use crate::components::clock::{hour_minute_text, hour_minute_text_spec, Clock};

pub use crate::components::undynamic::Undynamic;
pub use crate::config::Font;

verus! {

/// Unique component identifier. Every component gets its own when it is created and keeps it.
#[derive(Copy, Clone, PartialEq, Eq, Hash, Debug, Ord, PartialOrd, Structural)]
pub struct ComponentID(usize);

impl View for ComponentID {
    type V = nat;

    closed spec fn view(&self) -> nat {
        self.0 as nat
    }
}

/// Hands out component identifiers in increasing order, never the same one twice.
pub struct IdAllocator {
    next: usize,
}

impl IdAllocator {
    /// The value of the next identifier to be handed out.
    pub closed spec fn next(&self) -> nat {
        self.next as nat
    }

    pub fn new() -> (a: Self)
        ensures
            a.next() == 0,
    {
        IdAllocator { next: 0 }
    }

    /// How many identifiers are left.
    pub fn remaining(&self) -> (n: usize)
        ensures
            n == usize::MAX - self.next(),
    {
        usize::MAX - self.next
    }

    pub fn next_id(&mut self) -> (id: ComponentID)
        requires
            old(self).next() < usize::MAX,
        ensures
            id@ == old(self).next(),
            final(self).next() == old(self).next() + 1,
    {
        let id = ComponentID(self.next);
        self.next = self.next + 1;
        id
    }
}

/// What distinguishes the variants.
pub enum Kind {
    /// Current time, recomputed every `interval` milliseconds.
    Clock { interval: u64 },
    /// Fixed text.
    Undynamic { text: Seq<char> },
}

/// What a component holds.
pub struct ComponentView {
    pub id: ComponentID,
    pub settings: SettingsView,
    pub kind: Kind,
}

/// Interval of a clock when its entry gives none.
pub const DEFAULT_INTERVAL_MILLIS: u64 = 15000;

/// The schedule on which a component asks to be updated.
#[derive(Copy, Clone, PartialEq, Eq, Debug, Structural)]
pub enum ComponentStream {
    /// Never fires.
    Empty,
    /// Fires `id` every `period` milliseconds, the first time one period after the start.
    Interval { id: ComponentID, period: u64 },
}

/// Whether an entry name selects the clock.
pub open spec fn is_clock_name(name: Seq<char>) -> bool {
    name == "clock"@
}

/// Whether an entry can become a component: a clock needs a positive interval.
pub open spec fn entry_valid(name: Seq<char>, interval: Option<u64>) -> bool {
    is_clock_name(name) ==> interval != Some(0u64)
}

/// The component that an entry becomes, given its merged settings and identifier.
pub open spec fn component_of(
    name: Seq<char>,
    text: Option<Seq<char>>,
    interval: Option<u64>,
    settings: SettingsView,
    id: ComponentID,
) -> ComponentView {
    ComponentView {
        id,
        settings,
        kind: if is_clock_name(name) {
            Kind::Clock {
                interval: match interval {
                    Some(i) => i,
                    None => DEFAULT_INTERVAL_MILLIS,
                },
            }
        } else {
            Kind::Undynamic {
                text: match text {
                    Some(t) => t,
                    None => Seq::empty(),
                },
            }
        },
    }
}

/// Whether `update` reports a change: a clock tick always does, static text never.
pub open spec fn update_result(c: ComponentView) -> bool {
    c.kind is Clock
}

/// Whether `notify` marks the component dirty: none of the variants reacts to events.
pub open spec fn notify_result(c: ComponentView, event: Event) -> bool {
    false
}

/// The trigger schedule of a component.
pub open spec fn stream_of(c: ComponentView) -> ComponentStream {
    match c.kind {
        Kind::Clock { interval } => ComponentStream::Interval { id: c.id, period: interval },
        Kind::Undynamic { .. } => ComponentStream::Empty,
    }
}

/// A single component inside the bar.
pub enum Component {
    Clock(Clock),
    Undynamic(Undynamic),
}

impl View for Component {
    type V = ComponentView;

    open spec fn view(&self) -> ComponentView {
        match self {
            Component::Clock(c) => c@,
            Component::Undynamic(u) => u@,
        }
    }
}

/// Whether an entry name selects the clock.
pub fn is_clock(name: &String) -> (r: bool)
    ensures
        r == is_clock_name(name@),
{
    let clock = String::from_str("clock");
    name.eq(&clock)
}

impl Component {
    /// Creates the component an entry describes; `None` when a clock's interval is zero.
    pub fn from_config(entry: ComponentConfig, id: ComponentID) -> (r: Option<Component>)
        ensures
            r is Some <==> entry_valid(entry.name@, entry.extra.interval),
            r matches Some(c) ==> c@ == component_of(
                entry.name@,
                match entry.extra.text {
                    Some(t) => Some(t@),
                    None => None,
                },
                entry.extra.interval,
                entry.settings@,
                id,
            ),
    {
        if is_clock(&entry.name) {
            let interval = match entry.extra.interval {
                Some(i) => i,
                None => DEFAULT_INTERVAL_MILLIS,
            };
            if interval == 0 {
                return None;
            }
            Some(Component::Clock(Clock::create(entry.settings, interval, id)))
        } else {
            let text = match entry.extra.text {
                Some(t) => t,
                None => String::new(),
            };
            Some(Component::Undynamic(Undynamic::create(entry.settings, text, id)))
        }
    }

    /// The unique identifier of this component.
    pub fn id(&self) -> (id: ComponentID)
        ensures
            id == self@.id,
    {
        match self {
            Component::Clock(c) => c.id(),
            Component::Undynamic(u) => u.id(),
        }
    }

    /// The text the component displays now; a clock shows the local time as `HH:MM`.
    pub fn text(&self) -> (s: String)
        ensures
            self@.kind matches Kind::Undynamic { text } ==> s@ == text,
            self@.kind is Clock ==> exists|h: u8, m: u8|
                h < 24 && m < 60 && s@ == #[trigger] hour_minute_text_spec(h, m),
    {
        match self {
            Component::Clock(c) => c.text(),
            Component::Undynamic(u) => u.text(),
        }
    }

    /// The settings used to render this component.
    pub fn settings(&self) -> (s: &ComponentSettings)
        ensures
            s@ == self@.settings,
    {
        match self {
            Component::Clock(c) => c.settings(),
            Component::Undynamic(u) => u.settings(),
        }
    }

    /// Lets the component react to a frontend event; returns whether it became dirty.
    pub fn notify(&mut self, event: Event) -> (dirty: bool)
        ensures
            final(self)@ == old(self)@,
            dirty == notify_result(old(self)@, event),
    {
        false
    }

    /// Pulls fresh state; returns whether anything observable changed.
    pub fn update(&mut self) -> (changed: bool)
        ensures
            final(self)@ == old(self)@,
            changed == update_result(old(self)@),
    {
        match self {
            Component::Clock(_) => true,
            Component::Undynamic(_) => false,
        }
    }

    /// The schedule on which this component asks to be updated.
    pub fn stream(&self) -> (s: ComponentStream)
        ensures
            s == stream_of(self@),
    {
        match self {
            Component::Clock(c) => ComponentStream::Interval { id: c.id(), period: c.interval() },
            Component::Undynamic(_) => ComponentStream::Empty,
        }
    }
}

} // verus!
