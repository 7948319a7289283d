use choreo::music::{
    standard_timeline, the_end, Dispatch, MusicEvent, MusicTimeline, TimelineEntry,
};
use choreo::narrative::GameState;

fn table() -> Vec<TimelineEntry> {
    vec![
        TimelineEntry {
            timestamp: 2_000,
            fired: false,
            event: MusicEvent(GameState::Sing, 1),
        },
        TimelineEntry {
            timestamp: 5_000,
            fired: false,
            event: MusicEvent(GameState::Sing, 2),
        },
    ]
}

/// Scenario: stepping to three seconds fires the first event only, stepping
/// to six fires the second, and re-evaluating back at three fires nothing.
#[test]
fn fires_each_event_once_in_order() {
    let mut tl = MusicTimeline::new(table());
    tl.begin(0);
    let d = tl.step(3_000);
    assert_eq!(d, vec![Dispatch::Broadcast(MusicEvent(GameState::Sing, 1))]);
    let d = tl.step(6_000);
    assert_eq!(d, vec![Dispatch::Broadcast(MusicEvent(GameState::Sing, 2))]);
    let d = tl.step(3_000);
    assert!(d.is_empty());
    let d = tl.step(6_000);
    assert!(d.is_empty());
}

/// The scheduler is inert before playback begins.
#[test]
fn inert_before_begin() {
    let mut tl = MusicTimeline::new(table());
    let d = tl.step(10_000);
    assert!(d.is_empty());
    assert!(!tl.events[0].fired && !tl.events[1].fired);
}

/// When one evaluation crosses several timestamps at once, the dispatches
/// come in table order, earliest timestamp first.
#[test]
fn crossing_both_fires_in_table_order() {
    let mut tl = MusicTimeline::new(table());
    tl.begin(1_000);
    let d = tl.step(7_500);
    assert_eq!(
        d,
        vec![
            Dispatch::Broadcast(MusicEvent(GameState::Sing, 1)),
            Dispatch::Broadcast(MusicEvent(GameState::Sing, 2)),
        ]
    );
}

/// Ordinal zero drives the narrative state machine instead of broadcasting.
#[test]
fn ordinal_zero_becomes_state_transition() {
    let mut tl = MusicTimeline::new(vec![TimelineEntry {
        timestamp: 100,
        fired: false,
        event: MusicEvent(GameState::Portal, 0),
    }]);
    tl.begin(0);
    let d = tl.step(101);
    assert_eq!(d, vec![Dispatch::SetState(GameState::Portal)]);
}

/// The story's own timeline starts with the portal transition and ends at the
/// finale, two minutes in.
#[test]
fn standard_timeline_beats() {
    let mut tl = standard_timeline();
    assert_eq!(tl.events.len(), 18);
    assert_eq!(tl.events[0].timestamp, 3_700);
    assert_eq!(tl.events[10].timestamp, 45_138);
    assert_eq!(tl.events[17].timestamp, 120_000);
    tl.begin(0);
    let d = tl.step(3_701);
    assert_eq!(d, vec![Dispatch::SetState(GameState::Portal)]);
    // an event fires only when playtime strictly exceeds its timestamp
    let d = tl.step(10_800);
    assert!(d.is_empty());
    let d = tl.step(10_801);
    assert_eq!(d, vec![Dispatch::Broadcast(MusicEvent(GameState::Portal, 1))]);
}

/// The scene quits on the finale's closing beat and on nothing else.
#[test]
fn the_end_matches_only_the_closing_beat() {
    assert!(the_end(MusicEvent(GameState::Finish, 1)));
    assert!(!the_end(MusicEvent(GameState::Finish, 0)));
    assert!(!the_end(MusicEvent(GameState::Sing, 1)));
}
