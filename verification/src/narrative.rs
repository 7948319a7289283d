//! The narrative state machine: a fixed set of mutually exclusive story
//! phases, changed only by explicit `set` requests.  Requests made during a
//! tick are applied between ticks, last write wins.

use vstd::prelude::*;

verus! {

/// The story phases, in narrative order.
#[derive(Clone, Copy, Debug, PartialEq, Eq, Hash, Default, Structural)]
pub enum GameState {
    #[default]
    Loading,
    Intro,
    Thunder,
    Portal,
    Speak,
    Sing,
    Raining,
    TakeOff,
    Finish,
}

/// The process-wide narrative state and the transition requested this tick.
#[derive(Clone, Copy, Debug)]
pub struct Narrative {
    pub current: GameState,
    pub pending: Option<GameState>,
}

impl Narrative {
    pub fn new() -> (n: Narrative)
        ensures
            n.current == GameState::Loading,
            n.pending is None,
    {
        Narrative { current: GameState::Loading, pending: None }
    }

    /// Request a transition (the `setState` command).  A second request in
    /// the same tick overwrites the first: last write wins.
    pub fn set(&mut self, next: GameState)
        ensures
            final(self).current == old(self).current,
            final(self).pending == Some(next),
    {
        self.pending = Some(next);
    }

    /// Apply the pending transition between ticks; reports the phase change
    /// as `(left, entered)` so enter and exit hooks can run.
    pub fn apply(&mut self) -> (change: Option<(GameState, GameState)>)
        ensures
            final(self).pending is None,
            final(self).current == match old(self).pending {
                Some(next) => next,
                None => old(self).current,
            },
            change == match old(self).pending {
                Some(next) => Some((old(self).current, next)),
                None => None::<(GameState, GameState)>,
            },
    {
        match self.pending {
            Some(next) => {
                let was = self.current;
                self.current = next;
                self.pending = None;
                Some((was, next))
            },
            None => None,
        }
    }
}

/// Loading is over once no entity is still marked not-ready: the scene then
/// moves to the intro.
pub fn check_ready(not_ready: usize) -> (next: Option<GameState>)
    ensures
        next == if not_ready == 0 {
            Some(GameState::Intro)
        } else {
            None::<GameState>
        },
{
    if not_ready == 0 {
        Some(GameState::Intro)
    } else {
        None
    }
}

/// The lift screws: still, or spinning from the portal phase on.
#[derive(Clone, Copy, Debug, PartialEq, Eq, Default, Structural)]
pub enum ScrewState {
    #[default]
    Idle,
    Moving,
}

/// Entering the portal phase starts the lift screws.
pub fn screws_on_enter(entered: GameState, cur: ScrewState) -> (next: ScrewState)
    ensures
        next == if entered is Portal {
            ScrewState::Moving
        } else {
            cur
        },
{
    if let GameState::Portal = entered {
        ScrewState::Moving
    } else {
        cur
    }
}

} // verus!
