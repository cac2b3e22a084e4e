use gridflow::flow::{GameFlowController, GameState, Trigger};
use gridflow::score::Scoreboard;
use gridflow::session::Session;
use gridflow::GameError;

fn controller_in(state: GameState) -> GameFlowController {
    let mut c = GameFlowController::new();
    match state {
        GameState::Splash => {}
        GameState::Menu => {
            c.transition(Trigger::SplashDone).unwrap();
        }
        GameState::Playing => {
            c.transition(Trigger::SplashDone).unwrap();
            c.transition(Trigger::PlaySelected).unwrap();
        }
        GameState::GameOver => {
            c.transition(Trigger::SplashDone).unwrap();
            c.transition(Trigger::PlaySelected).unwrap();
            c.transition(Trigger::LossConditionMet).unwrap();
        }
    }
    assert_eq!(c.state(), state);
    c
}

#[test]
fn only_the_documented_edges_fire() {
    let states = [
        GameState::Splash,
        GameState::Menu,
        GameState::Playing,
        GameState::GameOver,
    ];
    let triggers = [
        Trigger::SplashDone,
        Trigger::PlaySelected,
        Trigger::LossConditionMet,
        Trigger::RestartConfirmed,
        Trigger::ReturnToMenu,
    ];
    for state in states {
        for trigger in triggers {
            let mut c = controller_in(state);
            let expected = match (state, trigger) {
                (GameState::Splash, Trigger::SplashDone) => Some(GameState::Menu),
                (GameState::Menu, Trigger::PlaySelected) => Some(GameState::Playing),
                (GameState::Playing, Trigger::LossConditionMet) => Some(GameState::GameOver),
                (GameState::GameOver, Trigger::RestartConfirmed) => Some(GameState::Playing),
                (GameState::Playing, Trigger::ReturnToMenu) => Some(GameState::Menu),
                (GameState::GameOver, Trigger::ReturnToMenu) => Some(GameState::Menu),
                _ => None,
            };
            match expected {
                Some(next) => {
                    assert_eq!(c.transition(trigger), Ok(next));
                    assert_eq!(c.state(), next);
                }
                None => {
                    assert_eq!(c.transition(trigger), Err(GameError::ForbiddenTransition));
                    assert_eq!(c.state(), state);
                }
            }
        }
    }
}

#[test]
fn scoreboard_counts_and_renders() {
    let mut sb = Scoreboard::new();
    assert_eq!(sb.score(), 0);
    assert_eq!(sb.render(), "Score: 0");
    sb.increment(42);
    assert_eq!(sb.score(), 42);
    assert_eq!(sb.render(), "Score: 42");
    sb.increment(1_234_567_848);
    assert_eq!(sb.render(), "Score: 1234567890");
}

#[test]
fn scoreboard_saturates_at_the_ceiling() {
    let mut sb = Scoreboard::new();
    sb.increment(u64::MAX - 1);
    sb.increment(5);
    assert_eq!(sb.score(), u64::MAX);
    sb.increment(1);
    assert_eq!(sb.score(), u64::MAX);
}

#[test]
fn reset_clears_a_running_score() {
    let mut sb = Scoreboard::new();
    sb.increment(42);
    assert_eq!(sb.score(), 42);
    sb.reset();
    assert_eq!(sb.score(), 0);
    assert!(sb.render().contains('0'));
}

#[test]
fn entering_play_resets_the_session_score() {
    let mut s = Session::new(2_000);
    s.tick_splash(2_000).unwrap();
    let fx = s.handle_trigger(Trigger::PlaySelected).unwrap();
    assert_eq!(fx.entered, GameState::Playing);
    s.increment_score(42);
    assert_eq!(s.score(), 42);
    s.handle_trigger(Trigger::LossConditionMet).unwrap();
    assert_eq!(s.score(), 42, "game over leaves the score on display");
    let fx = s.handle_trigger(Trigger::RestartConfirmed).unwrap();
    assert_eq!(fx.entered, GameState::Playing);
    assert_eq!(s.score(), 0);
    assert!(s.render_score().contains('0'));
    assert_eq!(s.render_score(), "Score: 0");
}

#[test]
fn splash_timer_fires_exactly_once() {
    let mut s = Session::new(2_000);
    s.register_persistent(1);
    s.register_entity(GameState::Splash, 10);
    s.register_entity(GameState::Splash, 11);

    assert_eq!(s.tick_splash(500), None);
    assert_eq!(s.state(), GameState::Splash);
    assert_eq!(s.tick_splash(1_000), None);
    assert_eq!(s.state(), GameState::Splash);

    // The deltas now sum to the two-second duration: the transition
    // fires, and the splash-scoped entities come back for despawning.
    let despawned = s.tick_splash(500).unwrap();
    assert_eq!(despawned, vec![10, 11]);
    assert_eq!(s.state(), GameState::Menu);
    assert!(s.scoped_handles(GameState::Splash).is_empty());
    assert_eq!(s.persistent_handles(), &vec![1]);

    // Menu-scoped entities are set up; further ticks do nothing.
    s.register_entity(GameState::Menu, 20);
    assert_eq!(s.tick_splash(500), None);
    assert_eq!(s.state(), GameState::Menu);
    assert_eq!(s.scoped_handles(GameState::Menu), &vec![20]);
}

#[test]
fn forbidden_trigger_changes_nothing_in_a_session() {
    let mut s = Session::new(2_000);
    s.register_entity(GameState::Splash, 7);
    let r = s.handle_trigger(Trigger::RestartConfirmed);
    assert_eq!(r.err(), Some(GameError::ForbiddenTransition));
    assert_eq!(s.state(), GameState::Splash);
    assert_eq!(s.scoped_handles(GameState::Splash), &vec![7]);
}

#[test]
fn leaving_a_state_despawns_only_its_entities() {
    let mut s = Session::new(0);
    s.register_persistent(99);
    s.tick_splash(0).unwrap();
    s.handle_trigger(Trigger::PlaySelected).unwrap();
    s.register_entity(GameState::Playing, 30);
    s.register_entity(GameState::Playing, 31);
    s.register_entity(GameState::GameOver, 40);
    let fx = s.handle_trigger(Trigger::LossConditionMet).unwrap();
    assert_eq!(fx.entered, GameState::GameOver);
    assert_eq!(fx.despawned, vec![30, 31]);
    assert_eq!(s.scoped_handles(GameState::GameOver), &vec![40]);
    assert_eq!(s.persistent_handles(), &vec![99]);
}
