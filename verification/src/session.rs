//! The session: one driving context owning the game-flow controller,
//! the entity registry, the scoreboard and the splash timer, so that
//! every transition carries its entry and exit effects exactly once.

use vstd::prelude::*;

use crate::flow::{allowed_next, GameFlowController, GameState, Trigger};
use crate::registry::EntityRegistry;
use crate::score::Scoreboard;
use crate::GameError;

verus! {

/// What one transition asks of the outside engine: the state that was
/// entered, and the handles of the entities the left state owned,
/// which the engine must now despawn.
pub struct TransitionEffects {
    pub entered: GameState,
    pub despawned: Vec<u64>,
}

/// One application run: the current state, the per-state entity
/// handles, the score, and the splash timer.
pub struct Session {
    flow: GameFlowController,
    registry: EntityRegistry,
    scoreboard: Scoreboard,
    splash_duration_ms: u64,
    splash_elapsed_ms: u64,
}

impl Session {
    pub closed spec fn spec_state(self) -> GameState {
        self.flow.spec_state()
    }

    pub closed spec fn spec_score(self) -> u64 {
        self.scoreboard.spec_score()
    }

    pub closed spec fn spec_scoped(self, s: GameState) -> Seq<u64> {
        self.registry.scoped(s)
    }

    pub closed spec fn spec_persistent(self) -> Seq<u64> {
        self.registry.persistent()
    }

    pub closed spec fn spec_splash_duration_ms(self) -> u64 {
        self.splash_duration_ms
    }

    pub closed spec fn spec_splash_elapsed_ms(self) -> u64 {
        self.splash_elapsed_ms
    }

    /// A fresh session: on the splash screen, with an untouched timer,
    /// an empty registry and a zero score.
    pub fn new(splash_duration_ms: u64) -> (s: Session)
        ensures
            s.spec_state() == GameState::Splash,
            s.spec_splash_duration_ms() == splash_duration_ms,
            s.spec_splash_elapsed_ms() == 0,
            s.spec_score() == 0,
            forall|st: GameState| #[trigger] s.spec_scoped(st) == Seq::<u64>::empty(),
            s.spec_persistent() == Seq::<u64>::empty(),
    {
        Session {
            flow: GameFlowController::new(),
            registry: EntityRegistry::new(),
            scoreboard: Scoreboard::new(),
            splash_duration_ms,
            splash_elapsed_ms: 0,
        }
    }

    pub fn state(&self) -> (s: GameState)
        ensures
            s == self.spec_state(),
    {
        self.flow.state()
    }

    pub fn score(&self) -> (r: u64)
        ensures
            r == self.spec_score(),
    {
        self.scoreboard.score()
    }

    /// The display string for the current score.
    pub fn render_score(&self) -> (r: String)
        ensures
            r@ == crate::score::score_text(self.spec_score() as nat),
    {
        self.scoreboard.render()
    }

    /// Adds points for a scoring event, saturating at the ceiling.
    pub fn increment_score(&mut self, by: u64)
        ensures
            old(self).spec_score() + by <= u64::MAX ==> final(self).spec_score()
                == old(self).spec_score() + by,
            old(self).spec_score() + by > u64::MAX ==> final(self).spec_score() == u64::MAX,
            final(self).spec_state() == old(self).spec_state(),
            forall|st: GameState|
                #[trigger] final(self).spec_scoped(st) == old(self).spec_scoped(st),
            final(self).spec_persistent() == old(self).spec_persistent(),
            final(self).spec_splash_elapsed_ms() == old(self).spec_splash_elapsed_ms(),
            final(self).spec_splash_duration_ms() == old(self).spec_splash_duration_ms(),
    {
        self.scoreboard.increment(by);
    }

    /// The handles currently owned by one state, oldest first.
    pub fn scoped_handles(&self, s: GameState) -> (v: &Vec<u64>)
        ensures
            v@ == self.spec_scoped(s),
    {
        self.registry.scoped_handles(s)
    }

    /// The handles that survive every transition.
    pub fn persistent_handles(&self) -> (v: &Vec<u64>)
        ensures
            v@ == self.spec_persistent(),
    {
        self.registry.persistent_handles()
    }

    /// Records a handle as owned by the given state, to be despawned
    /// when that state is next left.
    pub fn register_entity(&mut self, s: GameState, handle: u64)
        ensures
            final(self).spec_scoped(s) == old(self).spec_scoped(s).push(handle),
            forall|s2: GameState|
                s2 != s ==> #[trigger] final(self).spec_scoped(s2) == old(self).spec_scoped(s2),
            final(self).spec_persistent() == old(self).spec_persistent(),
            final(self).spec_state() == old(self).spec_state(),
            final(self).spec_score() == old(self).spec_score(),
            final(self).spec_splash_elapsed_ms() == old(self).spec_splash_elapsed_ms(),
            final(self).spec_splash_duration_ms() == old(self).spec_splash_duration_ms(),
    {
        self.registry.register(s, handle);
    }

    /// Records a handle that survives every transition (a camera).
    pub fn register_persistent(&mut self, handle: u64)
        ensures
            final(self).spec_persistent() == old(self).spec_persistent().push(handle),
            forall|st: GameState|
                #[trigger] final(self).spec_scoped(st) == old(self).spec_scoped(st),
            final(self).spec_state() == old(self).spec_state(),
            final(self).spec_score() == old(self).spec_score(),
            final(self).spec_splash_elapsed_ms() == old(self).spec_splash_elapsed_ms(),
            final(self).spec_splash_duration_ms() == old(self).spec_splash_duration_ms(),
    {
        self.registry.register_persistent(handle);
    }

    /// Applies one trigger to the game flow. On an allowed edge the
    /// left state's entities are handed back for despawning — exactly
    /// once, since they leave the registry — and entering play resets
    /// the score. On a forbidden edge nothing changes and the attempt
    /// is reported.
    pub fn handle_trigger(&mut self, t: Trigger) -> (r: Result<
        TransitionEffects,
        GameError,
    >)
        ensures
            match allowed_next(old(self).spec_state(), t) {
                Some(next) => {
                    &&& r matches Ok(fx)
                    &&& fx.entered == next
                    &&& final(self).spec_state() == next
                    &&& fx.despawned@ == old(self).spec_scoped(old(self).spec_state())
                    &&& final(self).spec_scoped(old(self).spec_state())
                        == Seq::<u64>::empty()
                    &&& forall|s2: GameState|
                        s2 != old(self).spec_state() ==> #[trigger] final(self).spec_scoped(s2)
                            == old(self).spec_scoped(s2)
                    &&& final(self).spec_persistent() == old(self).spec_persistent()
                    &&& next == GameState::Playing ==> final(self).spec_score() == 0
                    &&& next != GameState::Playing ==> final(self).spec_score()
                        == old(self).spec_score()
                },
                None => {
                    &&& r == Err::<TransitionEffects, GameError>(GameError::ForbiddenTransition)
                    &&& *final(self) == *old(self)
                },
            },
            final(self).spec_splash_duration_ms() == old(self).spec_splash_duration_ms(),
            final(self).spec_splash_elapsed_ms() == old(self).spec_splash_elapsed_ms(),
    {
        let left = self.flow.state();
        match self.flow.transition(t) {
            Ok(next) => {
                let despawned = self.registry.take_scoped(left);
                if matches!(next, GameState::Playing) {
                    self.scoreboard.reset();
                }
                Ok(TransitionEffects { entered: next, despawned })
            },
            Err(e) => Err(e),
        }
    }

    /// Advances the splash timer. While the splash screen is up and
    /// the timer reaches its duration, the splash-to-menu edge fires —
    /// exactly once, since afterwards the state is no longer the
    /// splash — and the splash-scoped handles come back for
    /// despawning. In every other situation nothing happens.
    pub fn tick_splash(&mut self, dt_ms: u64) -> (r: Option<Vec<u64>>)
        ensures
            old(self).spec_state() != GameState::Splash ==> {
                &&& r is None
                &&& *final(self) == *old(self)
            },
            old(self).spec_state() == GameState::Splash
                && old(self).spec_splash_elapsed_ms() + dt_ms
                < old(self).spec_splash_duration_ms() ==> {
                &&& r is None
                &&& final(self).spec_state() == GameState::Splash
                &&& final(self).spec_splash_elapsed_ms()
                    == old(self).spec_splash_elapsed_ms() + dt_ms
                &&& forall|st: GameState|
                    #[trigger] final(self).spec_scoped(st) == old(self).spec_scoped(st)
                &&& final(self).spec_persistent() == old(self).spec_persistent()
                &&& final(self).spec_score() == old(self).spec_score()
            },
            old(self).spec_state() == GameState::Splash
                && old(self).spec_splash_elapsed_ms() + dt_ms
                >= old(self).spec_splash_duration_ms() ==> {
                &&& r matches Some(v)
                &&& v@ == old(self).spec_scoped(GameState::Splash)
                &&& final(self).spec_state() == GameState::Menu
                &&& final(self).spec_scoped(GameState::Splash) == Seq::<u64>::empty()
                &&& forall|s2: GameState|
                    s2 != GameState::Splash ==> #[trigger] final(self).spec_scoped(s2)
                        == old(self).spec_scoped(s2)
                &&& final(self).spec_persistent() == old(self).spec_persistent()
                &&& final(self).spec_score() == old(self).spec_score()
                &&& final(self).spec_splash_elapsed_ms()
                    == old(self).spec_splash_elapsed_ms()
            },
            final(self).spec_splash_duration_ms() == old(self).spec_splash_duration_ms(),
    {
        if !matches!(self.flow.state(), GameState::Splash) {
            return None;
        }
        let elapsed = if dt_ms <= u64::MAX - self.splash_elapsed_ms {
            self.splash_elapsed_ms + dt_ms
        } else {
            u64::MAX
        };
        if elapsed >= self.splash_duration_ms {
            let _ = self.flow.transition(Trigger::SplashDone);
            let despawned = self.registry.take_scoped(GameState::Splash);
            Some(despawned)
        } else {
            self.splash_elapsed_ms = elapsed;
            None
        }
    }
}

} // verus!
