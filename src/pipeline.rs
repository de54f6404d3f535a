//! The update schedule: one timer per periodic component and a queue of pending deliveries,
//! all measured in milliseconds since the pipeline started.

use vstd::prelude::*;

use crate::components::{ComponentID, ComponentStream};

verus! {

/// Periodic trigger of one component. A `next_due` of `u64::MAX` means it never fires again.
#[derive(Copy, Clone, PartialEq, Eq, Debug, Structural)]
pub struct Timer {
    pub id: ComponentID,
    pub period: u64,
    pub next_due: u64,
}

/// Whether the timer has a tick due at `now`.
pub open spec fn due(t: Timer, now: u64) -> bool {
    t.next_due <= now && t.next_due < u64::MAX
}

/// The timer after one tick; it retires when the next tick would not fit in a `u64`.
pub open spec fn step(t: Timer) -> Timer {
    Timer {
        next_due: if t.next_due + t.period < u64::MAX {
            (t.next_due + t.period) as u64
        } else {
            u64::MAX
        },
        ..t
    }
}

/// The timer after every tick due at `now` has been taken.
pub open spec fn drain(t: Timer, now: u64) -> Timer
    decreases u64::MAX - t.next_due,
{
    if due(t, now) && t.period > 0 {
        drain(step(t), now)
    } else {
        t
    }
}

/// The timers of a list of trigger schedules, in order; an empty schedule has none. The first
/// tick of each is one period after the start.
pub open spec fn timers_of(streams: Seq<ComponentStream>) -> Seq<Timer>
    decreases streams.len(),
{
    if streams.len() == 0 {
        Seq::empty()
    } else {
        let rest = timers_of(streams.drop_last());
        match streams.last() {
            ComponentStream::Interval { id, period } => rest.push(
                Timer { id, period, next_due: period },
            ),
            ComponentStream::Empty => rest,
        }
    }
}

/// Every periodic schedule in the list has a positive period.
pub open spec fn streams_valid(streams: Seq<ComponentStream>) -> bool {
    forall|i: int|
        0 <= i < streams.len() ==> (#[trigger] streams[i] matches ComponentStream::Interval {
            period,
            ..
        } ==> period > 0)
}

impl Timer {
    pub fn stepped(&self) -> (t: Timer)
        ensures
            t == step(*self),
    {
        let next_due = if self.next_due < u64::MAX - self.period {
            self.next_due + self.period
        } else {
            u64::MAX
        };
        Timer { id: self.id, period: self.period, next_due }
    }

    pub fn is_due(&self, now: u64) -> (r: bool)
        ensures
            r == due(*self, now),
    {
        self.next_due <= now && self.next_due < u64::MAX
    }
}

/// Running update pipeline: the start time, the timers and the deliveries that `notify`
/// queued, oldest first.
pub struct Pipeline {
    pub origin: u64,
    pub timers: Vec<Timer>,
    pub queue: Vec<ComponentID>,
}

/// When the next delivery can be taken: at once when the queue holds one, else at the earliest
/// tick of a timer that has not retired; `None` when neither exists.
pub open spec fn deadline(queue: Seq<ComponentID>, timers: Seq<Timer>, d: Option<u64>) -> bool {
    if queue.len() > 0 {
        d == Some(0u64)
    } else {
        match d {
            None => forall|j: int| 0 <= j < timers.len() ==> (#[trigger] timers[j]).next_due
                == u64::MAX,
            Some(v) => v < u64::MAX && (exists|j: int|
                0 <= j < timers.len() && (#[trigger] timers[j]).next_due == v) && forall|j: int|
                0 <= j < timers.len() ==> v <= (#[trigger] timers[j]).next_due,
        }
    }
}

impl Pipeline {
    /// Every timer has a positive period.
    pub open spec fn wf(&self) -> bool {
        forall|j: int| 0 <= j < self.timers@.len() ==> (#[trigger] self.timers@[j]).period > 0
    }

    /// Starts a pipeline at `origin` with one timer per periodic schedule and an empty queue.
    pub fn new(origin: u64, streams: &Vec<ComponentStream>) -> (p: Pipeline)
        requires
            streams_valid(streams@),
        ensures
            p.origin == origin,
            p.timers@ == timers_of(streams@),
            p.queue@.len() == 0,
            p.wf(),
    {
        let mut timers: Vec<Timer> = Vec::new();
        let mut i: usize = 0;
        while i < streams.len()
            invariant
                i <= streams@.len(),
                streams_valid(streams@),
                timers@ == timers_of(streams@.subrange(0, i as int)),
                forall|j: int| 0 <= j < timers@.len() ==> (#[trigger] timers@[j]).period > 0,
            decreases streams@.len() - i,
        {
            let ghost before = streams@.subrange(0, i as int);
            assert(streams@.subrange(0, i + 1).drop_last() =~= before);
            match streams[i] {
                ComponentStream::Interval { id, period } => {
                    assert(streams@[i as int] matches ComponentStream::Interval { period, .. }
                        ==> period > 0);
                    timers.push(Timer { id, period, next_due: period });
                },
                ComponentStream::Empty => {},
            }
            i = i + 1;
        }
        assert(streams@.subrange(0, i as int) =~= streams@);
        Pipeline { origin, timers, queue: Vec::new() }
    }

    /// Queues a delivery.
    pub fn push(&mut self, id: ComponentID)
        ensures
            final(self).origin == old(self).origin,
            final(self).timers@ == old(self).timers@,
            final(self).queue@ == old(self).queue@.push(id),
    {
        self.queue.push(id);
    }

    /// When the next delivery can be taken, in milliseconds since the start.
    pub fn next_deadline(&self) -> (d: Option<u64>)
        ensures
            deadline(self.queue@, self.timers@, d),
    {
        if self.queue.len() > 0 {
            return Some(0);
        }
        let mut best: Option<u64> = None;
        let mut j: usize = 0;
        while j < self.timers.len()
            invariant
                j <= self.timers@.len(),
                self.queue@.len() == 0,
                deadline(self.queue@, self.timers@.subrange(0, j as int), best),
            decreases self.timers@.len() - j,
        {
            let ghost pre = self.timers@.subrange(0, j as int);
            let ghost post = self.timers@.subrange(0, j + 1);
            assert(post =~= pre.push(self.timers@[j as int]));
            let d = self.timers[j].next_due;
            if d < u64::MAX {
                match best {
                    None => {
                        best = Some(d);
                        assert(post[j as int].next_due == d);
                    },
                    Some(b) => {
                        if d < b {
                            best = Some(d);
                            assert(post[j as int].next_due == d);
                        } else {
                            let ghost w = choose|w: int| 0 <= w < pre.len() && pre[w].next_due == b;
                            assert(post[w].next_due == b);
                        }
                    },
                }
            } else {
                match best {
                    None => {},
                    Some(b) => {
                        let ghost w = choose|w: int| 0 <= w < pre.len() && pre[w].next_due == b;
                        assert(post[w].next_due == b);
                    },
                }
            }
            j = j + 1;
        }
        assert(self.timers@.subrange(0, j as int) =~= self.timers@);
        best
    }
}

} // verus!
