//! The audio-synchronized event timeline: a fixed ordered table of
//! `(timestamp, event)` pairs, fired at most once each when playback time
//! crosses the timestamp.  Events with ordinal zero drive the narrative state
//! machine directly; all others are broadcast to per-state listeners.

use vstd::prelude::*;

verus! {

use crate::narrative::GameState;

/// A story beat: the narrative phase it belongs to and its ordinal within
/// that phase.  Ordinal zero is the phase transition itself.
#[derive(Clone, Copy, Debug, PartialEq, Eq, Structural)]
pub struct MusicEvent(pub GameState, pub usize);

/// Whether the soundtrack clock is running.
#[derive(Clone, Copy, Debug, PartialEq, Eq, Hash, Default, Structural)]
pub enum MusicState {
    #[default]
    Stopped,
    Playing,
}

/// One row of the timeline table: a playback-relative timestamp in
/// milliseconds, the irreversible idempotence guard, and the payload.
#[derive(Clone, Copy, Debug, PartialEq, Eq, Structural)]
pub struct TimelineEntry {
    pub timestamp: u64,
    pub fired: bool,
    pub event: MusicEvent,
}

/// What the scheduler does with a fired event.
#[derive(Clone, Copy, Debug, PartialEq, Eq, Structural)]
pub enum Dispatch {
    SetState(GameState),
    Broadcast(MusicEvent),
}

/// An unfired entry whose timestamp the playback time has crossed fires now.
pub open spec fn fires(e: TimelineEntry, playtime: int) -> bool {
    !e.fired && playtime > e.timestamp
}

/// All entries after one evaluation at `playtime`: fired flags flip
/// irreversibly, nothing else changes.
pub open spec fn fire_all(entries: Seq<TimelineEntry>, playtime: int) -> Seq<TimelineEntry> {
    entries.map_values(
        |e: TimelineEntry|
            TimelineEntry { fired: e.fired || playtime > e.timestamp, ..e },
    )
}

/// Ordinal zero drives the state machine; everything else is broadcast.
pub open spec fn dispatch_of(ev: MusicEvent) -> Dispatch {
    if ev.1 == 0 {
        Dispatch::SetState(ev.0)
    } else {
        Dispatch::Broadcast(ev)
    }
}

/// The dispatches one evaluation at `playtime` produces, in table order.
pub open spec fn dispatches_model(entries: Seq<TimelineEntry>, playtime: int) -> Seq<Dispatch>
    decreases entries.len(),
{
    if entries.len() == 0 {
        Seq::empty()
    } else {
        dispatches_model(entries.drop_last(), playtime) + if fires(entries.last(), playtime) {
            seq![dispatch_of(entries.last().event)]
        } else {
            Seq::empty()
        }
    }
}

/// The timeline scheduler: inert until `begin` anchors the playback clock.
#[derive(Debug)]
pub struct MusicTimeline {
    pub start: Option<u64>,
    pub events: Vec<TimelineEntry>,
}

impl MusicTimeline {
    /// A fresh, not yet started timeline over the given table.
    pub fn new(events: Vec<TimelineEntry>) -> (tl: MusicTimeline)
        ensures
            tl.start is None,
            tl.events@ == events@,
    {
        MusicTimeline { start: None, events }
    }

    /// Anchor the playback clock (the `beginTimeline` command).  The start
    /// time is set exactly once, when playback begins.
    pub fn begin(&mut self, now: u64)
        requires
            old(self).start is None,
        ensures
            final(self).start == Some(now),
            final(self).events@ == old(self).events@,
    {
        self.start = Some(now);
    }

    /// One fixed-rate evaluation: fire every unfired entry whose timestamp
    /// the playback time has crossed, in table order, each at most once.
    /// Before `begin` the scheduler is inert.
    pub fn step(&mut self, now: u64) -> (dispatches: Vec<Dispatch>)
        ensures
            final(self).start == old(self).start,
            match old(self).start {
                None => final(self).events@ == old(self).events@ && dispatches@ == Seq::<
                    Dispatch,
                >::empty(),
                Some(t0) => {
                    &&& final(self).events@ == fire_all(old(self).events@, now - t0)
                    &&& dispatches@ == dispatches_model(old(self).events@, now - t0)
                },
            },
    {
        let mut dispatches: Vec<Dispatch> = Vec::new();
        let t0 = match self.start {
            Some(t0) => t0,
            None => {
                return dispatches;
            },
        };
        let ghost orig = self.events@;
        let ghost playtime = now as int - t0 as int;
        let mut i: usize = 0;
        while i < self.events.len()
            invariant
                i <= orig.len(),
                self.start == Some(t0),
                old(self).start == Some(t0),
                orig == old(self).events@,
                self.events@.len() == orig.len(),
                playtime == now as int - t0 as int,
                forall|j: int| i <= j < orig.len() ==> #[trigger] self.events@[j] == orig[j],
                forall|j: int|
                    0 <= j < i ==> #[trigger] self.events@[j] == (TimelineEntry {
                        fired: orig[j].fired || playtime > orig[j].timestamp,
                        ..orig[j]
                    }),
                dispatches@ == dispatches_model(orig.take(i as int), playtime),
            decreases orig.len() - i,
        {
            let e = self.events[i];
            if !e.fired && now >= t0 && now - t0 > e.timestamp {
                self.events.set(
                    i,
                    TimelineEntry { timestamp: e.timestamp, fired: true, event: e.event },
                );
                dispatches.push(
                    if e.event.1 == 0 {
                        Dispatch::SetState(e.event.0)
                    } else {
                        Dispatch::Broadcast(e.event)
                    },
                );
            }
            proof {
                assert(orig.take(i as int + 1).drop_last() =~= orig.take(i as int));
                assert(orig.take(i as int + 1).last() == orig[i as int]);
            }
            i = i + 1;
        }
        proof {
            assert(orig.take(orig.len() as int) =~= orig);
            assert(self.events@ =~= fire_all(orig, playtime));
        }
        dispatches
    }
}

/// Once fired, always fired: evaluation never clears an idempotence guard.
pub proof fn lemma_fired_is_permanent(entries: Seq<TimelineEntry>, playtime: int, i: int)
    requires
        0 <= i < entries.len(),
        entries[i].fired,
    ensures
        fire_all(entries, playtime)[i].fired,
{
}

/// An entry that has fired never dispatches again, no matter how many later
/// evaluations cross its timestamp: after an evaluation at `p1`, a second
/// evaluation at any `p2 <= p1` produces no dispatch at all.
pub proof fn lemma_step_idempotent(entries: Seq<TimelineEntry>, p1: int, p2: int)
    requires
        p2 <= p1,
    ensures
        dispatches_model(fire_all(entries, p1), p2) =~= Seq::<Dispatch>::empty(),
    decreases entries.len(),
{
    let fired = fire_all(entries, p1);
    if entries.len() > 0 {
        assert(fired.drop_last() =~= fire_all(entries.drop_last(), p1));
        lemma_step_idempotent(entries.drop_last(), p1, p2);
        assert(!fires(fired.last(), p2));
    }
}

/// The fired set is downward closed over timestamps: whenever an event is
/// fired, every event with a strictly earlier timestamp is fired too.
pub open spec fn firing_monotone(entries: Seq<TimelineEntry>) -> bool {
    forall|i: int, j: int|
        #![trigger entries[i], entries[j]]
        0 <= i < entries.len() && 0 <= j < entries.len() && entries[i].timestamp
            < entries[j].timestamp && entries[j].fired ==> entries[i].fired
}

/// A table with no entry fired yet is trivially downward closed.
pub proof fn lemma_unfired_is_monotone(entries: Seq<TimelineEntry>)
    requires
        forall|i: int| 0 <= i < entries.len() ==> !(#[trigger] entries[i]).fired,
    ensures
        firing_monotone(entries),
{
}

/// Monotonic firing order: evaluation preserves downward closure, so for any
/// two events A and B with an earlier timestamp on A, if both ever fire then
/// A has fired by the evaluation in which B fires, never after it.
pub proof fn lemma_firing_order_preserved(entries: Seq<TimelineEntry>, playtime: int)
    requires
        firing_monotone(entries),
    ensures
        firing_monotone(fire_all(entries, playtime)),
{
    let fired = fire_all(entries, playtime);
    assert forall|i: int, j: int|
        #![trigger fired[i], fired[j]]
        0 <= i < fired.len() && 0 <= j < fired.len() && fired[i].timestamp < fired[j].timestamp
            && fired[j].fired implies fired[i].fired by {
        assert(entries[i].timestamp == fired[i].timestamp);
        assert(entries[j].timestamp == fired[j].timestamp);
        if entries[j].fired {
            assert(entries[i].fired);
        }
    };
}

/// The scene ends when the finale's closing beat is broadcast.
pub fn the_end(ev: MusicEvent) -> (quit: bool)
    ensures
        quit == (ev == MusicEvent(GameState::Finish, 1)),
{
    ev == MusicEvent(GameState::Finish, 1)
}

/// The story's timeline: every beat of the soundtrack, in milliseconds from
/// playback start, none fired yet.
pub fn standard_timeline() -> (tl: MusicTimeline)
    ensures
        tl.start is None,
        tl.events@ == standard_schedule(),
{
    let rows: Vec<(u64, MusicEvent)> = vec![
        (3700u64, MusicEvent(GameState::Portal, 0)),
        (10800u64, MusicEvent(GameState::Portal, 1)),
        (14300u64, MusicEvent(GameState::Portal, 2)),
        (16000u64, MusicEvent(GameState::Portal, 3)),
        (17230u64, MusicEvent(GameState::Portal, 4)),
        (21000u64, MusicEvent(GameState::Portal, 5)),
        (25100u64, MusicEvent(GameState::Portal, 6)),
        (28100u64, MusicEvent(GameState::Portal, 7)),
        (30300u64, MusicEvent(GameState::Portal, 8)),
        (32250u64, MusicEvent(GameState::Speak, 0)),
        (45138u64, MusicEvent(GameState::Sing, 0)),
        (46100u64, MusicEvent(GameState::Sing, 1)),
        (56700u64, MusicEvent(GameState::Sing, 2)),
        (60290u64, MusicEvent(GameState::Sing, 3)),
        (65000u64, MusicEvent(GameState::Sing, 4)),
        (68000u64, MusicEvent(GameState::Sing, 5)),
        (76000u64, MusicEvent(GameState::Raining, 0)),
        (120000u64, MusicEvent(GameState::Finish, 0)),
    ];
    let mut events: Vec<TimelineEntry> = Vec::new();
    let mut i: usize = 0;
    while i < rows.len()
        invariant
            i <= rows@.len(),
            events@.len() == i,
            forall|j: int|
                0 <= j < i ==> #[trigger] events@[j] == (TimelineEntry {
                    timestamp: rows@[j].0,
                    fired: false,
                    event: rows@[j].1,
                }),
        decreases rows@.len() - i,
    {
        let (t, ev) = rows[i];
        events.push(TimelineEntry { timestamp: t, fired: false, event: ev });
        i = i + 1;
    }
    proof {
        assert(events@ =~= standard_schedule());
    }
    MusicTimeline { start: None, events }
}

/// The table `standard_timeline` builds.
pub open spec fn standard_schedule() -> Seq<TimelineEntry> {
    seq![
        TimelineEntry { timestamp: 3700, fired: false, event: MusicEvent(GameState::Portal, 0) },
        TimelineEntry { timestamp: 10800, fired: false, event: MusicEvent(GameState::Portal, 1) },
        TimelineEntry { timestamp: 14300, fired: false, event: MusicEvent(GameState::Portal, 2) },
        TimelineEntry { timestamp: 16000, fired: false, event: MusicEvent(GameState::Portal, 3) },
        TimelineEntry { timestamp: 17230, fired: false, event: MusicEvent(GameState::Portal, 4) },
        TimelineEntry { timestamp: 21000, fired: false, event: MusicEvent(GameState::Portal, 5) },
        TimelineEntry { timestamp: 25100, fired: false, event: MusicEvent(GameState::Portal, 6) },
        TimelineEntry { timestamp: 28100, fired: false, event: MusicEvent(GameState::Portal, 7) },
        TimelineEntry { timestamp: 30300, fired: false, event: MusicEvent(GameState::Portal, 8) },
        TimelineEntry { timestamp: 32250, fired: false, event: MusicEvent(GameState::Speak, 0) },
        TimelineEntry { timestamp: 45138, fired: false, event: MusicEvent(GameState::Sing, 0) },
        TimelineEntry { timestamp: 46100, fired: false, event: MusicEvent(GameState::Sing, 1) },
        TimelineEntry { timestamp: 56700, fired: false, event: MusicEvent(GameState::Sing, 2) },
        TimelineEntry { timestamp: 60290, fired: false, event: MusicEvent(GameState::Sing, 3) },
        TimelineEntry { timestamp: 65000, fired: false, event: MusicEvent(GameState::Sing, 4) },
        TimelineEntry { timestamp: 68000, fired: false, event: MusicEvent(GameState::Sing, 5) },
        TimelineEntry { timestamp: 76000, fired: false, event: MusicEvent(GameState::Raining, 0) },
        TimelineEntry { timestamp: 120000, fired: false, event: MusicEvent(GameState::Finish, 0) },
    ]
}

} // verus!
