//! The entity-handle registry: which spawned entities belong to which
//! game state, so that leaving a state can tear down exactly the
//! entities it owns while persistent ones (cameras) survive.

use vstd::prelude::*;

use crate::flow::GameState;

verus! {

/// Tracks, per game state, the opaque engine handles of the entities
/// spawned while that state was entered, plus the handles that survive
/// every transition.
pub struct EntityRegistry {
    splash: Vec<u64>,
    menu: Vec<u64>,
    playing: Vec<u64>,
    game_over: Vec<u64>,
    persistent: Vec<u64>,
}

impl EntityRegistry {
    /// The handles currently owned by one state, oldest first.
    pub closed spec fn scoped(self, s: GameState) -> Seq<u64> {
        match s {
            GameState::Splash => self.splash@,
            GameState::Menu => self.menu@,
            GameState::Playing => self.playing@,
            GameState::GameOver => self.game_over@,
        }
    }

    /// The handles that survive every transition.
    pub closed spec fn persistent(self) -> Seq<u64> {
        self.persistent@
    }

    /// An empty registry: nothing owned anywhere.
    pub fn new() -> (r: EntityRegistry)
        ensures
            forall|s: GameState| #[trigger] r.scoped(s) == Seq::<u64>::empty(),
            r.persistent() == Seq::<u64>::empty(),
    {
        EntityRegistry {
            splash: Vec::new(),
            menu: Vec::new(),
            playing: Vec::new(),
            game_over: Vec::new(),
            persistent: Vec::new(),
        }
    }

    /// The handles currently owned by one state, oldest first.
    pub fn scoped_handles(&self, s: GameState) -> (v: &Vec<u64>)
        ensures
            v@ == self.scoped(s),
    {
        match s {
            GameState::Splash => &self.splash,
            GameState::Menu => &self.menu,
            GameState::Playing => &self.playing,
            GameState::GameOver => &self.game_over,
        }
    }

    /// The handles that survive every transition.
    pub fn persistent_handles(&self) -> (v: &Vec<u64>)
        ensures
            v@ == self.persistent(),
    {
        &self.persistent
    }

    /// Records a handle as owned by `s`, to be released when `s` is
    /// next left.
    pub fn register(&mut self, s: GameState, handle: u64)
        ensures
            final(self).scoped(s) == old(self).scoped(s).push(handle),
            forall|s2: GameState|
                s2 != s ==> #[trigger] final(self).scoped(s2) == old(self).scoped(s2),
            final(self).persistent() == old(self).persistent(),
    {
        match s {
            GameState::Splash => self.splash.push(handle),
            GameState::Menu => self.menu.push(handle),
            GameState::Playing => self.playing.push(handle),
            GameState::GameOver => self.game_over.push(handle),
        }
    }

    /// Records a handle that must survive every transition.
    pub fn register_persistent(&mut self, handle: u64)
        ensures
            final(self).persistent() == old(self).persistent().push(handle),
            forall|s: GameState| #[trigger] final(self).scoped(s) == old(self).scoped(s),
    {
        self.persistent.push(handle);
    }

    /// Hands out every handle owned by `s`, for the caller to release,
    /// and forgets them: `s` owns nothing afterwards. No other state's
    /// handles move, and persistent handles never leave this way.
    pub fn take_scoped(&mut self, s: GameState) -> (v: Vec<u64>)
        ensures
            v@ == old(self).scoped(s),
            final(self).scoped(s) == Seq::<u64>::empty(),
            forall|s2: GameState|
                s2 != s ==> #[trigger] final(self).scoped(s2) == old(self).scoped(s2),
            final(self).persistent() == old(self).persistent(),
    {
        let mut out: Vec<u64> = Vec::new();
        match s {
            GameState::Splash => core::mem::swap(&mut self.splash, &mut out),
            GameState::Menu => core::mem::swap(&mut self.menu, &mut out),
            GameState::Playing => core::mem::swap(&mut self.playing, &mut out),
            GameState::GameOver => core::mem::swap(&mut self.game_over, &mut out),
        }
        out
    }
}

} // verus!
