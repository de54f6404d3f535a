//! The bar: general settings, the three ordered component lists, and the update pipeline
//! through which pollers learn which component changed.

use vstd::prelude::*;

use crate::components::{
    component_of, entry_valid, is_clock, notify_result, stream_of, update_result, Component,
    ComponentID, ComponentStream, ComponentView, IdAllocator, Kind,
};
use crate::config::{merged, Background, ComponentConfig, ComponentSettings, Config, SettingsView};
use crate::event::Event;
use crate::pipeline::{deadline, drain, due, step, timers_of, Pipeline, Timer};

pub use crate::config::{Border, Monitor, Position};

verus! {

/// General bar settings; they never change once the bar is loaded.
pub struct General {
    pub height: u8,
    pub position: Position,
    pub background: Background,
    pub border: Option<Border>,
    pub monitors: Vec<Monitor>,
}

/// Why a configuration could not be loaded.
#[derive(Copy, Clone, PartialEq, Eq, Debug, Structural)]
pub enum LoadError {
    /// The configuration names no monitor.
    MissingMonitor,
    /// A clock entry gives an interval of zero milliseconds.
    ZeroInterval,
}

impl LoadError {
    /// A human-readable cause.
    pub fn message(&self) -> (s: String)
        ensures
            *self == LoadError::MissingMonitor ==> s@ == "at least one monitor is required"@,
            *self == LoadError::ZeroInterval ==> s@ == "a clock interval must be positive"@,
    {
        match self {
            LoadError::MissingMonitor => String::from_str("at least one monitor is required"),
            LoadError::ZeroInterval => String::from_str("a clock interval must be positive"),
        }
    }
}

/// Views of a list of components.
pub open spec fn views(cs: Seq<Component>) -> Seq<ComponentView> {
    cs.map_values(|c: Component| c@)
}

/// The view of an optional text.
pub open spec fn text_view(t: Option<String>) -> Option<Seq<char>> {
    match t {
        Some(s) => Some(s@),
        None => None,
    }
}

/// Every entry of a list can become a component.
pub open spec fn entries_valid(entries: Seq<ComponentConfig>) -> bool {
    forall|k: int|
        0 <= k < entries.len() ==> entry_valid(
            (#[trigger] entries[k]).name@,
            entries[k].extra.interval,
        )
}

/// `comps` are the components that `entries` become with the settings merged over
/// `defaults`, numbered from `first` on.
pub open spec fn loaded(
    entries: Seq<ComponentConfig>,
    defaults: SettingsView,
    first: nat,
    comps: Seq<ComponentView>,
) -> bool {
    &&& comps.len() == entries.len()
    &&& forall|k: int|
        0 <= k < comps.len() ==> (#[trigger] comps[k]).id@ == first + k && comps[k]
            == component_of(
            entries[k].name@,
            text_view(entries[k].extra.text),
            entries[k].extra.interval,
            merged(entries[k].settings@, defaults),
            comps[k].id,
        )
}

/// No two components share an identifier.
pub open spec fn unique_ids(all: Seq<ComponentView>) -> bool {
    forall|i: int, j: int|
        0 <= i < all.len() && 0 <= j < all.len() && i != j ==> (#[trigger] all[i]).id != (
        #[trigger] all[j]).id
}

/// Every clock has a positive interval.
pub open spec fn intervals_positive(all: Seq<ComponentView>) -> bool {
    forall|k: int|
        0 <= k < all.len() ==> ((#[trigger] all[k]).kind matches Kind::Clock { interval }
            ==> interval > 0)
}

/// Some component with this identifier reports a change when updated.
pub open spec fn dirty(all: Seq<ComponentView>, id: ComponentID) -> bool {
    exists|k: int| 0 <= k < all.len() && (#[trigger] all[k]).id == id && update_result(all[k])
}

/// The identifiers of the components that an event marks dirty, in order.
pub open spec fn notified_ids(all: Seq<ComponentView>, event: Event) -> Seq<ComponentID>
    decreases all.len(),
{
    if all.len() == 0 {
        Seq::empty()
    } else {
        let rest = notified_ids(all.drop_last(), event);
        if notify_result(all.last(), event) {
            rest.push(all.last().id)
        } else {
            rest
        }
    }
}

/// The trigger schedules of the components, in order.
pub open spec fn streams(all: Seq<ComponentView>) -> Seq<ComponentStream> {
    all.map_values(|c: ComponentView| stream_of(c))
}

/// `i` is the first queued delivery whose component reports a change.
pub open spec fn first_dirty(all: Seq<ComponentView>, q: Seq<ComponentID>, i: int) -> bool {
    &&& 0 <= i < q.len()
    &&& dirty(all, q[i])
    &&& forall|i2: int| 0 <= i2 < i ==> !dirty(all, #[trigger] q[i2])
}

/// The timer has a tick due and its component reports a change.
pub open spec fn ready(all: Seq<ComponentView>, t: Timer, now: u64) -> bool {
    due(t, now) && dirty(all, t.id)
}

/// `j` is the first ready timer.
pub open spec fn first_ready(all: Seq<ComponentView>, ts: Seq<Timer>, now: u64, j: int) -> bool {
    &&& 0 <= j < ts.len()
    &&& ready(all, ts[j], now)
    &&& forall|j2: int| 0 <= j2 < j ==> !ready(all, #[trigger] ts[j2], now)
}

/// The timers before `j` have had every due tick taken.
pub open spec fn drained_before(ts: Seq<Timer>, ts2: Seq<Timer>, now: u64, j: int) -> bool {
    forall|j2: int| 0 <= j2 < j ==> #[trigger] ts2[j2] == drain(ts[j2], now)
}

/// None of the timers before `j` is ready.
pub open spec fn none_ready_before(all: Seq<ComponentView>, ts: Seq<Timer>, now: u64, j: int) -> bool {
    forall|j2: int| 0 <= j2 < j ==> !ready(all, #[trigger] ts[j2], now)
}

/// One poll at `now` turns queue `q` and timers `ts` into `q2` and `ts2` and delivers `r`:
/// queued deliveries come first, then timer ticks in timer order; a delivery whose component
/// reports no change is dropped, and the first one that does is delivered.
pub open spec fn polled(
    all: Seq<ComponentView>,
    q: Seq<ComponentID>,
    ts: Seq<Timer>,
    now: u64,
    r: Option<ComponentID>,
    q2: Seq<ComponentID>,
    ts2: Seq<Timer>,
) -> bool {
    if exists|i: int| 0 <= i < q.len() && dirty(all, #[trigger] q[i]) {
        exists|i: int|
            #![trigger q[i]]
            first_dirty(all, q, i) && r == Some(q[i]) && q2 == q.subrange(i + 1, q.len() as int)
                && ts2 == ts
    } else if exists|j: int| 0 <= j < ts.len() && ready(all, #[trigger] ts[j], now) {
        exists|j: int|
            #![trigger ts[j]]
            first_ready(all, ts, now, j) && r == Some(ts[j].id) && q2.len() == 0 && ts2.len()
                == ts.len() && ts2[j] == step(ts[j]) && (forall|j2: int|
                0 <= j2 < j ==> #[trigger] ts2[j2] == drain(ts[j2], now)) && (forall|j2: int|
                j < j2 < ts.len() ==> #[trigger] ts2[j2] == ts[j2])
    } else {
        r is None && q2.len() == 0 && ts2.len() == ts.len() && forall|j: int|
            0 <= j < ts.len() ==> #[trigger] ts2[j] == drain(ts[j], now)
    }
}

/// The bar: general settings, three ordered lists of components, and the update pipeline,
/// which starts with the first poll.
pub struct Bar {
    general: General,
    left: Vec<Component>,
    center: Vec<Component>,
    right: Vec<Component>,
    events: Option<Pipeline>,
}

fn entries_ok(entries: &Vec<ComponentConfig>) -> (r: bool)
    ensures
        r == entries_valid(entries@),
{
    let mut k: usize = 0;
    while k < entries.len()
        invariant
            k <= entries@.len(),
            forall|k2: int|
                0 <= k2 < k ==> entry_valid(
                    (#[trigger] entries@[k2]).name@,
                    entries@[k2].extra.interval,
                ),
        decreases entries@.len() - k,
    {
        let e = &entries[k];
        if is_clock(&e.name) {
            match e.extra.interval {
                Some(i) => {
                    if i == 0 {
                        return false;
                    }
                },
                None => {},
            }
        }
        k = k + 1;
    }
    true
}

/// Turns each entry into a component, merging its settings over `defaults` and numbering the
/// components in order.
fn convert(entries: Vec<ComponentConfig>, defaults: &ComponentSettings, ids: &mut IdAllocator) -> (r:
    Vec<Component>)
    requires
        entries_valid(entries@),
        old(ids).next() + entries@.len() <= usize::MAX,
    ensures
        loaded(entries@, defaults@, old(ids).next(), views(r@)),
        final(ids).next() == old(ids).next() + entries@.len(),
{
    let ghost all = entries@;
    let ghost first = ids.next();
    let mut entries = entries;
    let mut out: Vec<Component> = Vec::new();
    let mut k: usize = 0;
    let n = entries.len();
    while k < n
        invariant
            n == all.len(),
            k <= n,
            entries@ == all.subrange(k as int, n as int),
            entries_valid(all),
            ids.next() == first + k,
            first + n <= usize::MAX,
            out@.len() == k,
            forall|k2: int|
                0 <= k2 < k ==> (#[trigger] out@[k2])@.id@ == first + k2 && out@[k2]@
                    == component_of(
                    all[k2].name@,
                    text_view(all[k2].extra.text),
                    all[k2].extra.interval,
                    merged(all[k2].settings@, defaults@),
                    out@[k2]@.id,
                ),
        decreases n - k,
    {
        let mut e = entries.remove(0);
        assert(e == all[k as int]);
        assert(entry_valid(all[k as int].name@, all[k as int].extra.interval));
        e.settings.fallback(defaults);
        let id = ids.next_id();
        let c = Component::from_config(e, id);
        let c = c.unwrap();
        out.push(c);
        k = k + 1;
        assert(entries@ =~= all.subrange(k as int, n as int));
    }
    out
}

/// An index into three lists laid end to end falls in exactly one of them.
proof fn lemma_concat_index(
    a: Seq<ComponentView>,
    b: Seq<ComponentView>,
    c: Seq<ComponentView>,
    k: int,
)
    requires
        0 <= k < a.len() + b.len() + c.len(),
    ensures
        k < a.len() ==> (a + b + c)[k] == a[k],
        a.len() <= k < a.len() + b.len() ==> (a + b + c)[k] == b[k - a.len()],
        a.len() + b.len() <= k ==> (a + b + c)[k] == c[k - a.len() - b.len()],
{
}

/// Updates the first component of the list with identifier `id`; `None` when there is none.
fn update_in(comps: &mut Vec<Component>, id: ComponentID) -> (r: Option<bool>)
    ensures
        views(final(comps)@) == views(old(comps)@),
        r is None <==> forall|k: int|
            0 <= k < old(comps)@.len() ==> (#[trigger] views(old(comps)@)[k]).id != id,
        r matches Some(b) ==> exists|k: int|
            0 <= k < old(comps)@.len() && (#[trigger] views(old(comps)@)[k]).id == id && b
                == update_result(views(old(comps)@)[k]),
{
    let ghost before = views(comps@);
    let mut k: usize = 0;
    while k < comps.len()
        invariant
            k <= comps@.len(),
            views(comps@) == before,
            before == views(old(comps)@),
            before.len() == old(comps)@.len(),
            forall|k2: int| 0 <= k2 < k ==> (#[trigger] before[k2]).id != id,
        decreases comps@.len() - k,
    {
        if comps[k].id() == id {
            let changed = comps[k].update();
            assert(views(comps@) =~= before);
            assert(before[k as int].id == id);
            return Some(changed);
        }
        k = k + 1;
    }
    None
}

/// Lets every component of the list react to `event`, appending the identifiers of those that
/// became dirty to `dirty_ids`.
fn notify_in(comps: &mut Vec<Component>, event: Event, dirty_ids: &mut Vec<ComponentID>)
    ensures
        views(final(comps)@) == views(old(comps)@),
        final(dirty_ids)@ == old(dirty_ids)@ + notified_ids(views(old(comps)@), event),
{
    let ghost before = views(comps@);
    let mut k: usize = 0;
    while k < comps.len()
        invariant
            k <= comps@.len(),
            views(comps@) == before,
            before.len() == comps@.len(),
            dirty_ids@ == old(dirty_ids)@ + notified_ids(before.subrange(0, k as int), event),
        decreases comps@.len() - k,
    {
        let ghost prefix = before.subrange(0, k + 1);
        assert(prefix.drop_last() =~= before.subrange(0, k as int));
        let id = comps[k].id();
        let marked = comps[k].notify(event);
        assert(views(comps@) =~= before);
        if marked {
            dirty_ids.push(id);
        }
        k = k + 1;
        assert(dirty_ids@ =~= old(dirty_ids)@ + notified_ids(before.subrange(0, k as int), event));
    }
    assert(before.subrange(0, k as int) =~= before);
}

/// Appends the trigger schedules of the list to `out`.
fn streams_in(comps: &Vec<Component>, out: &mut Vec<ComponentStream>)
    ensures
        final(out)@ == old(out)@ + streams(views(comps@)),
{
    let mut k: usize = 0;
    while k < comps.len()
        invariant
            k <= comps@.len(),
            out@ == old(out)@ + streams(views(comps@)).subrange(0, k as int),
        decreases comps@.len() - k,
    {
        out.push(comps[k].stream());
        k = k + 1;
        assert(out@ =~= old(out)@ + streams(views(comps@)).subrange(0, k as int));
    }
    assert(streams(views(comps@)).subrange(0, k as int) =~= streams(views(comps@)));
}

/// Relies on `time::precise_time_ns`: a reading of a high-resolution counter in nanoseconds
/// since an unspecified epoch. Nothing is assumed of the value.
#[verifier::external_body]
fn monotonic_ns() -> (ns: u64) {
    time::precise_time_ns()
}

/// Whole milliseconds from `origin` to `now`, both in nanoseconds; zero when `now` is earlier.
pub fn elapsed_ms(origin: u64, now: u64) -> (ms: u64)
    ensures
        ms == (if now >= origin {
            (now - origin) / 1_000_000
        } else {
            0
        }),
{
    if now >= origin {
        (now - origin) / 1_000_000
    } else {
        0
    }
}

impl Bar {
    /// Views of the left components.
    pub closed spec fn left_view(&self) -> Seq<ComponentView> {
        views(self.left@)
    }

    /// Views of the center components.
    pub closed spec fn center_view(&self) -> Seq<ComponentView> {
        views(self.center@)
    }

    /// Views of the right components.
    pub closed spec fn right_view(&self) -> Seq<ComponentView> {
        views(self.right@)
    }

    /// All components: left, then center, then right.
    pub open spec fn all(&self) -> Seq<ComponentView> {
        self.left_view() + self.center_view() + self.right_view()
    }

    /// The general settings.
    pub closed spec fn general_view(&self) -> General {
        self.general
    }

    /// Whether the update pipeline has started.
    pub closed spec fn started(&self) -> bool {
        self.events is Some
    }

    /// Deliveries queued by `notify` and not taken yet, oldest first.
    pub closed spec fn queue(&self) -> Seq<ComponentID> {
        self.events.unwrap().queue@
    }

    /// The timers of the pipeline.
    pub closed spec fn timers(&self) -> Seq<Timer> {
        self.events.unwrap().timers@
    }

    /// The queue a poll works on: the pipeline's, or an empty one when it starts with the poll.
    pub open spec fn queue_at_start(&self) -> Seq<ComponentID> {
        if self.started() {
            self.queue()
        } else {
            Seq::empty()
        }
    }

    /// The timers a poll works on: the pipeline's, or fresh ones when it starts with the poll.
    pub open spec fn timers_at_start(&self) -> Seq<Timer> {
        if self.started() {
            self.timers()
        } else {
            timers_of(streams(self.all()))
        }
    }

    /// Identifiers are unique, clocks have positive intervals, timers positive periods.
    pub closed spec fn wf(&self) -> bool {
        &&& unique_ids(self.all())
        &&& intervals_positive(self.all())
        &&& (self.events matches Some(p) ==> p.wf())
    }

    /// Loads a bar from its configuration tree. Each component's settings are merged over the
    /// bar-wide defaults once, here, and the components get consecutive identifiers in the
    /// order left, center, right. The update pipeline does not start yet.
    pub fn load(config: Config, ids: &mut IdAllocator) -> (r: Result<Bar, LoadError>)
        requires
            old(ids).next() + config.left@.len() + config.center@.len() + config.right@.len()
                <= usize::MAX,
        ensures
            config.monitors@.len() == 0 <==> r == Err::<Bar, LoadError>(LoadError::MissingMonitor),
            r == Err::<Bar, LoadError>(LoadError::ZeroInterval) <==> config.monitors@.len() > 0 && !(
            entries_valid(config.left@) && entries_valid(config.center@) && entries_valid(
                config.right@,
            )),
            config.monitors@.len() > 0 && entries_valid(config.left@) && entries_valid(config.center@)
                && entries_valid(config.right@) ==> r is Ok,
            r is Err ==> final(ids).next() == old(ids).next(),
            r matches Ok(bar) ==> {
                &&& bar.wf()
                &&& !bar.started()
                &&& bar.general_view() == (General {
                    height: config.height,
                    position: config.position,
                    background: config.background,
                    border: config.border,
                    monitors: config.monitors,
                })
                &&& loaded(config.left@, config.defaults@, old(ids).next(), bar.left_view())
                &&& loaded(
                    config.center@,
                    config.defaults@,
                    old(ids).next() + config.left@.len(),
                    bar.center_view(),
                )
                &&& loaded(
                    config.right@,
                    config.defaults@,
                    old(ids).next() + config.left@.len() + config.center@.len(),
                    bar.right_view(),
                )
                &&& final(ids).next() == old(ids).next() + bar.all().len()
            },
    {
        if config.monitors.len() == 0 {
            return Err(LoadError::MissingMonitor);
        }
        if !entries_ok(&config.left) || !entries_ok(&config.center) || !entries_ok(&config.right) {
            return Err(LoadError::ZeroInterval);
        }
        let ghost first = ids.next();
        let Config { height, position, background, border, monitors, defaults, left, center, right } =
            config;
        let left = convert(left, &defaults, ids);
        let center = convert(center, &defaults, ids);
        let right = convert(right, &defaults, ids);
        let general = General { height, position, background, border, monitors };
        let bar = Bar { general, left, center, right, events: None };
        proof {
            let all = bar.all();
            let nl = bar.left_view().len();
            let nc = bar.center_view().len();
            assert forall|k: int| 0 <= k < all.len() implies (#[trigger] all[k]).id@ == first + k by {
                lemma_concat_index(bar.left_view(), bar.center_view(), bar.right_view(), k);
            }
            assert forall|k: int| 0 <= k < all.len() implies ((#[trigger] all[k]).kind matches Kind::Clock { interval }
                ==> interval > 0) by {
                lemma_concat_index(bar.left_view(), bar.center_view(), bar.right_view(), k);
            }
            assert forall|i: int, j: int|
                0 <= i < all.len() && 0 <= j < all.len() && i != j implies (#[trigger] all[i]).id != (
                #[trigger] all[j]).id by {
                assert(all[i].id@ == first + i);
                assert(all[j].id@ == first + j);
            }
        }
        Ok(bar)
    }

    /// Updates the component with identifier `id`; returns whether it reported a change.
    fn update_component(&mut self, id: ComponentID) -> (changed: bool)
        requires
            unique_ids(old(self).all()),
        ensures
            final(self).all() == old(self).all(),
            final(self).left_view() == old(self).left_view(),
            final(self).center_view() == old(self).center_view(),
            final(self).right_view() == old(self).right_view(),
            final(self).general == old(self).general,
            final(self).events == old(self).events,
            changed == dirty(old(self).all(), id),
    {
        let ghost all = self.all();
        let ghost lv = self.left_view();
        let ghost cv = self.center_view();
        let ghost rv = self.right_view();
        let ghost nl = lv.len();
        let ghost nc = cv.len();
        assert(forall|k: int| 0 <= k < nl ==> all[k] == #[trigger] lv[k]);
        assert(forall|k: int| 0 <= k < nc ==> all[nl + k] == #[trigger] cv[k]);
        assert(forall|k: int| 0 <= k < rv.len() ==> all[nl + nc + k] == #[trigger] rv[k]);
        let r = match update_in(&mut self.left, id) {
            Some(b) => {
                proof {
                    let k = choose|k: int| 0 <= k < nl && (#[trigger] lv[k]).id == id && b
                        == update_result(lv[k]);
                    assert(all[k] == lv[k]);
                }
                b
            },
            None => match update_in(&mut self.center, id) {
                Some(b) => {
                    proof {
                        let k = choose|k: int| 0 <= k < nc && (#[trigger] cv[k]).id == id && b
                            == update_result(cv[k]);
                        assert(all[nl + k] == cv[k]);
                    }
                    b
                },
                None => match update_in(&mut self.right, id) {
                    Some(b) => {
                        proof {
                            let k = choose|k: int| 0 <= k < rv.len() && (#[trigger] rv[k]).id == id
                                && b == update_result(rv[k]);
                            assert(all[nl + nc + k] == rv[k]);
                        }
                        b
                    },
                    None => {
                        proof {
                            assert forall|k: int| 0 <= k < all.len() implies (#[trigger] all[k]).id
                                != id by {
                                lemma_concat_index(lv, cv, rv, k);
                            }
                        }
                        false
                    },
                },
            },
        };
        assert(self.all() == all);
        r
    }

    /// Starts the pipeline at `origin` (nanoseconds): one timer per periodic component, in the
    /// order left, center, right, and an empty queue.
    fn start_loop(&mut self, origin: u64)
        requires
            old(self).wf(),
            !old(self).started(),
        ensures
            final(self).wf(),
            final(self).started(),
            final(self).all() == old(self).all(),
            final(self).left_view() == old(self).left_view(),
            final(self).center_view() == old(self).center_view(),
            final(self).right_view() == old(self).right_view(),
            final(self).general == old(self).general,
            final(self).queue().len() == 0,
            final(self).timers() == timers_of(streams(old(self).all())),
            final(self).events.unwrap().origin == origin,
    {
        let mut list: Vec<ComponentStream> = Vec::new();
        streams_in(&self.left, &mut list);
        streams_in(&self.center, &mut list);
        streams_in(&self.right, &mut list);
        proof {
            let all = self.all();
            assert(list@ =~= streams(all));
            assert forall|i: int| 0 <= i < list@.len() implies (#[trigger] list@[i] matches ComponentStream::Interval {
                period,
                ..
            } ==> period > 0) by {
                assert(list@[i] == stream_of(all[i]));
            }
        }
        let p = Pipeline::new(origin, &list);
        self.events = Some(p);
    }

    /// Takes deliveries available at `now` (milliseconds since the pipeline started) until one
    /// whose component reports a change when updated, and returns its identifier; `None` when
    /// none is left. Queued deliveries come before timer ticks.
    pub fn poll_at(&mut self, now: u64) -> (r: Option<ComponentID>)
        requires
            old(self).wf(),
            old(self).started(),
        ensures
            final(self).wf(),
            final(self).started(),
            final(self).all() == old(self).all(),
            final(self).left_view() == old(self).left_view(),
            final(self).center_view() == old(self).center_view(),
            final(self).right_view() == old(self).right_view(),
            final(self).general_view() == old(self).general_view(),
            polled(
                old(self).all(),
                old(self).queue(),
                old(self).timers(),
                now,
                r,
                final(self).queue(),
                final(self).timers(),
            ),
    {
        let ghost all = self.all();
        let ghost q = self.queue();
        let ghost ts = self.timers();
        let mut p = self.events.take().unwrap();
        let ghost mut k: int = 0;
        while p.queue.len() > 0
            invariant
                self.events is None,
                all == old(self).all(),
                q == old(self).queue(),
                ts == old(self).timers(),
                self.all() == all,
                self.left_view() == old(self).left_view(),
                self.center_view() == old(self).center_view(),
                self.right_view() == old(self).right_view(),
                self.general == old(self).general,
                unique_ids(all),
                intervals_positive(all),
                p.wf(),
                p.timers@ == ts,
                0 <= k <= q.len(),
                p.queue@ == q.subrange(k, q.len() as int),
                forall|i: int| 0 <= i < k ==> !dirty(all, #[trigger] q[i]),
            decreases p.queue@.len(),
        {
            let id = p.queue.remove(0);
            assert(id == q[k]);
            let changed = self.update_component(id);
            if changed {
                assert(p.queue@ =~= q.subrange(k + 1, q.len() as int));
                assert(first_dirty(all, q, k));
                assert(dirty(all, q[k]));
                self.events = Some(p);
                assert(self.queue() == q.subrange(k + 1, q.len() as int));
                assert(self.timers() == ts);
                return Some(id);
            }
            proof {
                k = k + 1;
            }
            assert(p.queue@ =~= q.subrange(k, q.len() as int));
        }
        let n = p.timers.len();
        let mut j: usize = 0;
        while j < n
            invariant
                self.events is None,
                all == old(self).all(),
                q == old(self).queue(),
                ts == old(self).timers(),
                self.all() == all,
                self.left_view() == old(self).left_view(),
                self.center_view() == old(self).center_view(),
                self.right_view() == old(self).right_view(),
                self.general == old(self).general,
                unique_ids(all),
                intervals_positive(all),
                p.wf(),
                p.queue@.len() == 0,
                n == ts.len(),
                j <= n,
                p.timers@.len() == n,
                forall|i: int| 0 <= i < q.len() ==> !dirty(all, #[trigger] q[i]),
                drained_before(ts, p.timers@, now, j as int),
                none_ready_before(all, ts, now, j as int),
                forall|j2: int| j <= j2 < n ==> #[trigger] p.timers@[j2] == ts[j2],
            decreases n - j,
        {
            while p.timers[j].is_due(now)
                invariant
                    self.events is None,
                    all == old(self).all(),
                    q == old(self).queue(),
                    ts == old(self).timers(),
                    self.all() == all,
                    self.left_view() == old(self).left_view(),
                    self.center_view() == old(self).center_view(),
                    self.right_view() == old(self).right_view(),
                    self.general == old(self).general,
                    unique_ids(all),
                    intervals_positive(all),
                    p.wf(),
                    p.queue@.len() == 0,
                    n == ts.len(),
                    j < n,
                    p.timers@.len() == n,
                    forall|i: int| 0 <= i < q.len() ==> !dirty(all, #[trigger] q[i]),
                    drained_before(ts, p.timers@, now, j as int),
                none_ready_before(all, ts, now, j as int),
                    forall|j2: int| j < j2 < n ==> #[trigger] p.timers@[j2] == ts[j2],
                    p.timers@[j as int].id == ts[j as int].id,
                    p.timers@[j as int].period == ts[j as int].period,
                    drain(p.timers@[j as int], now) == drain(ts[j as int], now),
                    dirty(all, ts[j as int].id) ==> p.timers@[j as int] == ts[j as int],
                decreases u64::MAX - p.timers@[j as int].next_due,
            {
                let t = p.timers[j];
                let t2 = t.stepped();
                let ghost before = p.timers@;
                p.timers.set(j, t2);
                assert(p.timers@ == before.update(j as int, t2));
                let changed = self.update_component(t.id);
                if changed {
                    assert(t == ts[j as int]);
                    assert(ready(all, ts[j as int], now));
                    assert(first_ready(all, ts, now, j as int));
                    assert(forall|i: int| 0 <= i < q.len() ==> !dirty(all, #[trigger] q[i]));
                    self.events = Some(p);
                    assert(self.timers() == p.timers@);
                    assert(self.timers()[j as int] == step(ts[j as int]));
                    return Some(t.id);
                }
            }
            assert(drain(p.timers@[j as int], now) == p.timers@[j as int]);
            assert(!ready(all, ts[j as int], now));
            j = j + 1;
        }
        self.events = Some(p);
        assert(self.timers() == p.timers@);
        None
    }

    /// Non-blocking poll: starts the pipeline if it has not started, then returns the next
    /// component that changed, or `None` when no change is available now.
    pub fn try_recv(&mut self) -> (r: Option<ComponentID>)
        requires
            old(self).wf(),
        ensures
            final(self).wf(),
            final(self).started(),
            final(self).all() == old(self).all(),
            final(self).left_view() == old(self).left_view(),
            final(self).center_view() == old(self).center_view(),
            final(self).right_view() == old(self).right_view(),
            final(self).general_view() == old(self).general_view(),
            r matches Some(id) ==> dirty(old(self).all(), id),
            (forall|k: int| 0 <= k < old(self).all().len() ==> !update_result(
                #[trigger] old(self).all()[k],
            )) ==> r is None,
            old(self).started() && (exists|i: int|
                0 <= i < old(self).queue().len() && dirty(
                    old(self).all(),
                    #[trigger] old(self).queue()[i],
                )) ==> r is Some,
            exists|now: u64|
                #[trigger] polled(
                    old(self).all(),
                    old(self).queue_at_start(),
                    old(self).timers_at_start(),
                    now,
                    r,
                    final(self).queue(),
                    final(self).timers(),
                ),
    {
        let now_ns = monotonic_ns();
        if self.events.is_none() {
            self.start_loop(now_ns);
        }
        let origin = match &self.events {
            Some(p) => p.origin,
            None => now_ns,
        };
        let now = elapsed_ms(origin, now_ns);
        let r = self.poll_at(now);
        assert(polled(
            old(self).all(),
            old(self).queue_at_start(),
            old(self).timers_at_start(),
            now,
            r,
            self.queue(),
            self.timers(),
        ));
        r
    }

    /// How long, in milliseconds from `now`, until a delivery can be taken: zero when one is
    /// queued, else until the earliest tick; `None` when no delivery will ever come unless
    /// `notify` queues one.
    pub fn wait_at(&self, now: u64) -> (w: Option<u64>)
        requires
            self.started(),
        ensures
            w is None <==> self.queue().len() == 0 && forall|j: int|
                0 <= j < self.timers().len() ==> (#[trigger] self.timers()[j]).next_due
                    == u64::MAX,
            w matches Some(v) ==> exists|d: u64|
                deadline(self.queue(), self.timers(), Some(d)) && v == (if d > now {
                    d - now
                } else {
                    0
                }),
    {
        match &self.events {
            Some(p) => match p.next_deadline() {
                Some(d) => {
                    assert(deadline(self.queue(), self.timers(), Some(d)));
                    proof {
                        if self.queue().len() == 0 {
                            let j = choose|j: int|
                                0 <= j < self.timers().len() && (#[trigger] self.timers()[j]).next_due
                                    == d;
                            assert(self.timers()[j].next_due != u64::MAX);
                        }
                    }
                    if d > now {
                        Some(d - now)
                    } else {
                        Some(0)
                    }
                },
                None => None,
            },
            None => None,
        }
    }

    /// How long, in milliseconds from this moment, until a delivery can be taken; see
    /// `wait_at`. Starts the pipeline if it has not started.
    pub fn until_next_delivery(&mut self) -> (w: Option<u64>)
        requires
            old(self).wf(),
        ensures
            final(self).wf(),
            final(self).started(),
            final(self).all() == old(self).all(),
            final(self).left_view() == old(self).left_view(),
            final(self).center_view() == old(self).center_view(),
            final(self).right_view() == old(self).right_view(),
            final(self).general_view() == old(self).general_view(),
            old(self).started() ==> final(self).queue() == old(self).queue() && final(self).timers()
                == old(self).timers(),
            !old(self).started() ==> final(self).queue().len() == 0 && final(self).timers()
                == timers_of(streams(old(self).all())),
            w is None <==> final(self).queue().len() == 0 && forall|j: int|
                0 <= j < final(self).timers().len() ==> (#[trigger] final(self).timers()[j]).next_due
                    == u64::MAX,
            w matches Some(v) ==> exists|d: u64|
                deadline(final(self).queue(), final(self).timers(), Some(d)) && v <= d,
    {
        let now_ns = monotonic_ns();
        if self.events.is_none() {
            self.start_loop(now_ns);
        }
        let origin = match &self.events {
            Some(p) => p.origin,
            None => now_ns,
        };
        self.wait_at(elapsed_ms(origin, now_ns))
    }

    /// Sends an event to every component. The identifiers of the components that became dirty
    /// are queued for the pollers when the pipeline has started, in the order left, center,
    /// right; before that they are dropped.
    pub fn notify(&mut self, event: Event)
        requires
            old(self).wf(),
        ensures
            final(self).wf(),
            final(self).all() == old(self).all(),
            final(self).left_view() == old(self).left_view(),
            final(self).center_view() == old(self).center_view(),
            final(self).right_view() == old(self).right_view(),
            final(self).general_view() == old(self).general_view(),
            final(self).started() == old(self).started(),
            old(self).started() ==> final(self).timers() == old(self).timers() && final(self).queue()
                == old(self).queue() + notified_ids(old(self).left_view(), event) + notified_ids(
                old(self).center_view(),
                event,
            ) + notified_ids(old(self).right_view(), event),
    {
        let ghost all = self.all();
        let mut dirty_ids: Vec<ComponentID> = Vec::new();
        notify_in(&mut self.left, event, &mut dirty_ids);
        notify_in(&mut self.center, event, &mut dirty_ids);
        notify_in(&mut self.right, event, &mut dirty_ids);
        assert(self.all() == all);
        match self.events.take() {
            Some(p) => {
                let mut p = p;
                let ghost q0 = p.queue@;
                let mut i: usize = 0;
                while i < dirty_ids.len()
                    invariant
                        i <= dirty_ids@.len(),
                        p.queue@ == q0 + dirty_ids@.subrange(0, i as int),
                        p.timers@ == old(self).timers(),
                        p.wf(),
                    decreases dirty_ids@.len() - i,
                {
                    p.push(dirty_ids[i]);
                    i = i + 1;
                    assert(p.queue@ =~= q0 + dirty_ids@.subrange(0, i as int));
                }
                assert(dirty_ids@.subrange(0, i as int) =~= dirty_ids@);
                self.events = Some(p);
            },
            None => {},
        }
    }

    /// General bar settings.
    pub fn general(&self) -> (g: &General)
        ensures
            *g == self.general_view(),
    {
        &self.general
    }

    /// Components rendered at the left side of the bar.
    pub fn left(&self) -> (cs: &Vec<Component>)
        ensures
            views(cs@) == self.left_view(),
    {
        &self.left
    }

    /// Components rendered at the center of the bar.
    pub fn center(&self) -> (cs: &Vec<Component>)
        ensures
            views(cs@) == self.center_view(),
    {
        &self.center
    }

    /// Components rendered at the right side of the bar.
    pub fn right(&self) -> (cs: &Vec<Component>)
        ensures
            views(cs@) == self.right_view(),
    {
        &self.right
    }

    /// All components: left, then center, then right.
    pub fn components(&self) -> (cs: Vec<&Component>)
        ensures
            cs@.len() == self.all().len(),
            forall|k: int| 0 <= k < cs@.len() ==> (#[trigger] cs@[k])@ == self.all()[k],
    {
        let mut cs: Vec<&Component> = Vec::new();
        let ghost lv = self.left_view();
        let ghost cv = self.center_view();
        let mut k: usize = 0;
        while k < self.left.len()
            invariant
                k <= self.left@.len(),
                cs@.len() == k,
                forall|k2: int| 0 <= k2 < k ==> (#[trigger] cs@[k2])@ == self.all()[k2],
            decreases self.left@.len() - k,
        {
            cs.push(&self.left[k]);
            k = k + 1;
        }
        let mut k: usize = 0;
        while k < self.center.len()
            invariant
                k <= self.center@.len(),
                cs@.len() == lv.len() + k,
                lv == self.left_view(),
                forall|k2: int| 0 <= k2 < lv.len() + k ==> (#[trigger] cs@[k2])@ == self.all()[k2],
            decreases self.center@.len() - k,
        {
            cs.push(&self.center[k]);
            k = k + 1;
        }
        let mut k: usize = 0;
        while k < self.right.len()
            invariant
                k <= self.right@.len(),
                cs@.len() == lv.len() + cv.len() + k,
                lv == self.left_view(),
                cv == self.center_view(),
                forall|k2: int|
                    0 <= k2 < lv.len() + cv.len() + k ==> (#[trigger] cs@[k2])@ == self.all()[k2],
            decreases self.right@.len() - k,
        {
            cs.push(&self.right[k]);
            k = k + 1;
        }
        cs
    }
}

/// A static text component is never delivered: its trigger never fires, its update reports no
/// change, and it ignores every event.
pub proof fn lemma_undynamic_never_delivered(bar: Bar, k: int, event: Event)
    requires
        bar.wf(),
        0 <= k < bar.all().len(),
        bar.all()[k].kind is Undynamic,
    ensures
        stream_of(bar.all()[k]) == ComponentStream::Empty,
        !dirty(bar.all(), bar.all()[k].id),
        !notify_result(bar.all()[k], event),
{
    let all = bar.all();
    if dirty(all, all[k].id) {
        let k2 = choose|k2: int|
            0 <= k2 < all.len() && (#[trigger] all[k2]).id == all[k].id && update_result(all[k2]);
        assert(k2 != k);
    }
}

} // verus!
