use dodge_session::geometry::EnemyProfile;
use dodge_session::session::Action;
use dodge_session::session::ConfigError;
use dodge_session::session::Event;
use dodge_session::session::GameSessionController;
use dodge_session::session::Phase;
use dodge_session::session::RESTART_DELAY_FX;

fn controller() -> GameSessionController {
    let profile = EnemyProfile { min_speed: 150_000_000, max_speed: 400_000_000 };
    GameSessionController::new(profile, 2_000_000, 1_000_000, 500_000, 7).unwrap()
}

fn despawn_count(actions: &[Action]) -> usize {
    actions.iter().filter(|a| matches!(a, Action::DespawnEnemies)).count()
}

#[test]
fn end_to_end_match() {
    let mut c = controller();
    assert_eq!(c.session.phase, Phase::Idle);

    c.handle_event(Event::StartRequested);
    assert_eq!(c.session.phase, Phase::Countdown);
    assert_eq!(c.session.score, 0);

    c.handle_event(Event::CountdownFired);
    assert_eq!(c.session.phase, Phase::Playing);

    c.handle_event(Event::ScoreTickFired);
    c.handle_event(Event::ScoreTickFired);
    c.handle_event(Event::ScoreTickFired);
    assert_eq!(c.session.score, 3);

    let actions = c.handle_event(Event::PlayerHit);
    assert_eq!(c.session.phase, Phase::GameOver);
    assert_eq!(despawn_count(&actions), 1);
}

#[test]
fn new_game_actions_in_order() {
    let mut c = controller();
    let actions = c.handle_event(Event::StartRequested);
    assert_eq!(
        actions,
        vec![
            Action::ResetPlayer,
            Action::StartCountdownTimer,
            Action::UpdateScore(0),
            Action::ShowGetReadyMessage,
            Action::PlayMusic,
        ]
    );
    assert!(c.clock.countdown.running);
    assert!(!c.clock.score_tick.running);
    assert!(!c.clock.spawn_tick.running);
}

#[test]
fn countdown_fire_starts_match_timers() {
    let mut c = controller();
    c.handle_event(Event::StartRequested);
    let actions = c.handle_event(Event::CountdownFired);
    assert_eq!(actions, vec![Action::StartScoreTimer, Action::StartSpawnTimer]);
    assert!(!c.clock.countdown.running);
    assert!(c.clock.score_tick.running);
    assert!(c.clock.spawn_tick.running);
}

#[test]
fn duplicate_start_in_countdown_ignored() {
    let mut c = controller();
    c.handle_event(Event::StartRequested);
    let clock_before = c.clock;
    let actions = c.handle_event(Event::StartRequested);
    assert!(actions.is_empty());
    assert_eq!(c.session.phase, Phase::Countdown);
    assert_eq!(c.session.score, 0);
    assert_eq!(c.clock, clock_before);
}

#[test]
fn duplicate_start_in_playing_ignored() {
    let mut c = controller();
    c.handle_event(Event::StartRequested);
    c.handle_event(Event::CountdownFired);
    c.handle_event(Event::ScoreTickFired);
    let clock_before = c.clock;
    let actions = c.handle_event(Event::StartRequested);
    assert!(actions.is_empty());
    assert_eq!(c.session.phase, Phase::Playing);
    assert_eq!(c.session.score, 1);
    assert_eq!(c.clock, clock_before);
}

#[test]
fn score_tick_updates_hud_by_one() {
    let mut c = controller();
    c.handle_event(Event::StartRequested);
    c.handle_event(Event::CountdownFired);
    let first = c.handle_event(Event::ScoreTickFired);
    assert_eq!(first, vec![Action::UpdateScore(1)]);
    let second = c.handle_event(Event::ScoreTickFired);
    assert_eq!(second, vec![Action::UpdateScore(2)]);
    assert_eq!(c.session.score, 2);
}

#[test]
fn score_tick_outside_playing_ignored() {
    let mut c = controller();
    let actions = c.handle_event(Event::ScoreTickFired);
    assert!(actions.is_empty());
    assert_eq!(c.session.score, 0);
    c.handle_event(Event::StartRequested);
    let actions = c.handle_event(Event::ScoreTickFired);
    assert!(actions.is_empty());
    assert_eq!(c.session.score, 0);
}

#[test]
fn spawn_tick_emits_one_sample_in_bounds() {
    let mut c = controller();
    c.handle_event(Event::StartRequested);
    c.handle_event(Event::CountdownFired);
    let actions = c.handle_event(Event::SpawnTickFired);
    assert_eq!(actions.len(), 1);
    match actions[0] {
        Action::SpawnEnemy(s) => {
            assert!(0 <= s.progress && s.progress < 1_000_000);
            assert!(-785_398 <= s.jitter && s.jitter < 785_398);
            assert!(150_000_000 <= s.speed && s.speed <= 400_000_000);
        }
        ref other => panic!("expected a spawn action, got {:?}", other),
    }
    assert_eq!(c.session.phase, Phase::Playing);
}

#[test]
fn spawn_tick_outside_playing_ignored() {
    let mut c = controller();
    let actions = c.handle_event(Event::SpawnTickFired);
    assert!(actions.is_empty());
}

#[test]
fn player_hit_stops_timers_and_despawns_once() {
    let mut c = controller();
    c.handle_event(Event::StartRequested);
    c.handle_event(Event::CountdownFired);
    c.handle_event(Event::ScoreTickFired);
    let actions = c.handle_event(Event::PlayerHit);
    assert_eq!(
        actions,
        vec![
            Action::StopScoreTimer,
            Action::StopSpawnTimer,
            Action::DespawnEnemies,
            Action::ShowGameOverMessage,
            Action::StartRestartDelay,
            Action::StopMusic,
            Action::PlayDeathSound,
        ]
    );
    assert_eq!(despawn_count(&actions), 1);
    assert_eq!(c.session.phase, Phase::GameOver);
    assert_eq!(c.session.score, 1);
    assert!(!c.clock.score_tick.running);
    assert!(!c.clock.spawn_tick.running);
}

#[test]
fn player_hit_outside_playing_ignored() {
    let mut c = controller();
    let actions = c.handle_event(Event::PlayerHit);
    assert!(actions.is_empty());
    assert_eq!(c.session.phase, Phase::Idle);

    c.handle_event(Event::StartRequested);
    c.handle_event(Event::CountdownFired);
    c.handle_event(Event::PlayerHit);
    let again = c.handle_event(Event::PlayerHit);
    assert!(again.is_empty());
    assert_eq!(c.session.phase, Phase::GameOver);
}

#[test]
fn delay_elapsed_shows_restart_affordance() {
    let mut c = controller();
    c.handle_event(Event::StartRequested);
    c.handle_event(Event::CountdownFired);
    c.handle_event(Event::PlayerHit);
    let actions = c.handle_event(Event::DelayElapsed);
    assert_eq!(actions, vec![Action::ShowRestartAffordance]);
    assert_eq!(c.session.phase, Phase::GameOver);
}

#[test]
fn restart_delay_is_two_time_units() {
    assert_eq!(RESTART_DELAY_FX, 2_000_000);
}

#[test]
fn delay_elapsed_outside_game_over_ignored() {
    let mut c = controller();
    let actions = c.handle_event(Event::DelayElapsed);
    assert!(actions.is_empty());
    assert_eq!(c.session.phase, Phase::Idle);
}

#[test]
fn restart_after_game_over_resets_score() {
    let mut c = controller();
    c.handle_event(Event::StartRequested);
    c.handle_event(Event::CountdownFired);
    c.handle_event(Event::ScoreTickFired);
    c.handle_event(Event::ScoreTickFired);
    c.handle_event(Event::PlayerHit);
    assert_eq!(c.session.score, 2);

    let actions = c.handle_event(Event::StartRequested);
    assert_eq!(c.session.phase, Phase::Countdown);
    assert_eq!(c.session.score, 0);
    assert_eq!(actions[2], Action::UpdateScore(0));
    assert!(c.clock.countdown.running);
}

#[test]
fn empty_speed_range_rejected_at_load() {
    let profile = EnemyProfile { min_speed: 400_000_000, max_speed: 150_000_000 };
    let r = GameSessionController::new(profile, 2_000_000, 1_000_000, 500_000, 7);
    match r {
        Err(e) => assert_eq!(e, ConfigError::InvalidSpeedRange),
        Ok(_) => panic!("an empty speed range must be rejected"),
    }
}

#[test]
fn valid_profile_accepted_at_load() {
    let profile = EnemyProfile { min_speed: 150_000_000, max_speed: 150_000_000 };
    let c = GameSessionController::new(profile, 2_000_000, 1_000_000, 500_000, 7).unwrap();
    assert_eq!(c.session.phase, Phase::Idle);
    assert_eq!(c.session.score, 0);
    assert_eq!(c.clock.countdown.interval, 2_000_000);
    assert_eq!(c.clock.score_tick.interval, 1_000_000);
    assert_eq!(c.clock.spawn_tick.interval, 500_000);
    assert!(!c.clock.countdown.running);
}
