//! The game-session controller: owns score and phase, reacts to timer
//! fires and external signals, and answers each event with the list of
//! actions the collaborators must perform (start or stop a timer, reset
//! the player, spawn an enemy, update the HUD, drive the audio).
//!
//! The whole state machine is captured by the transition relation
//! [`step_ok`], which [`GameSessionController::handle_event`] is proved
//! to satisfy: every accepted transition, every ignored event, and the
//! exact action list of each, for every reachable state.

use vstd::prelude::*;

use crate::clock::clock_after_countdown;
use crate::clock::clock_after_hit;
use crate::clock::clock_after_start;
use crate::clock::SessionClock;
use crate::geometry::sample_spawn;
use crate::geometry::EnemyProfile;
use crate::geometry::SpawnSample;
use crate::rng::RandomSource;

verus! {

/// Fixed delay, in micro time units, between entering game over and
/// showing the restart affordance: two time units.
pub const RESTART_DELAY_FX: i64 = 2_000_000;

/// The session's coarse lifecycle state.
#[derive(Clone, Copy, PartialEq, Eq, Structural, Debug)]
pub enum Phase {
    Idle,
    Countdown,
    Playing,
    GameOver,
}

/// Everything the controller reacts to: the two external signals and the
/// four scheduled fires.
#[derive(Clone, Copy, PartialEq, Eq, Structural, Debug)]
pub enum Event {
    /// The player asked for a new game (start button).
    StartRequested,
    /// The one-shot countdown timer fired: the match proper begins.
    CountdownFired,
    /// The repeating score timer fired: one point is due.
    ScoreTickFired,
    /// The repeating spawn timer fired: one enemy is due.
    SpawnTickFired,
    /// A collision report: the player touched an enemy.
    PlayerHit,
    /// The fixed post-game delay elapsed: the restart affordance is due.
    DelayElapsed,
}

/// What the controller asks its collaborators to do after an event.
/// The controller never performs these itself; it only decides them.
#[derive(Clone, Copy, PartialEq, Eq, Structural, Debug)]
pub enum Action {
    /// Move the player back to the start position.
    ResetPlayer,
    /// Schedule the countdown timer with its configured interval.
    StartCountdownTimer,
    /// Show the configured score on the HUD.
    UpdateScore(u64),
    /// Show the pre-match message on the HUD.
    ShowGetReadyMessage,
    /// Start the background music.
    PlayMusic,
    /// Schedule the repeating score timer.
    StartScoreTimer,
    /// Schedule the repeating spawn timer.
    StartSpawnTimer,
    /// Instantiate one enemy; the host resolves the path point at the
    /// sample's progress and builds the transform from it.
    SpawnEnemy(SpawnSample),
    /// Cancel the repeating score timer.
    StopScoreTimer,
    /// Cancel the repeating spawn timer.
    StopSpawnTimer,
    /// Remove every live enemy, as one broadcast to the entity registry.
    DespawnEnemies,
    /// Show the game-over message on the HUD.
    ShowGameOverMessage,
    /// Schedule the fixed post-game one-shot delay of
    /// [`RESTART_DELAY_FX`] micro time units.
    StartRestartDelay,
    /// Stop the background music.
    StopMusic,
    /// Play the death sound once.
    PlayDeathSound,
    /// Show the restart affordance (start button) on the HUD.
    ShowRestartAffordance,
}

/// Why a controller could not be configured.
#[derive(Clone, Copy, PartialEq, Eq, Structural, Debug)]
pub enum ConfigError {
    /// The enemy profile has `min_speed > max_speed`.
    InvalidSpeedRange,
}

/// The match state proper: created once, reset (not recreated) on each
/// new game.
#[derive(Clone, Copy, PartialEq, Eq, Structural, Debug)]
pub struct GameSession {
    /// Points scored in the current match; one per score tick.
    pub score: u64,
    pub phase: Phase,
}

/// Owns the match state, the three timers' control state, the enemy
/// profile and the random source; consumes events, decides actions.
pub struct GameSessionController {
    pub session: GameSession,
    pub clock: SessionClock,
    pub profile: EnemyProfile,
    pub rng: RandomSource,
}

impl GameSessionController {
    /// Which running flags each phase allows: timers are started and
    /// stopped only at the transitions that own them, so no phase can
    /// see a stale timer running.
    pub open spec fn clock_matches_phase(self) -> bool {
        &&& self.session.phase is Idle ==> self.clock.all_stopped()
        &&& self.session.phase is Countdown ==> self.clock.countdown.running
            && !self.clock.score_tick.running && !self.clock.spawn_tick.running
        &&& self.session.phase is Playing ==> !self.clock.countdown.running
            && self.clock.score_tick.running && self.clock.spawn_tick.running
        &&& self.session.phase is GameOver ==> self.clock.all_stopped()
    }

    /// The controller's invariant: a valid configuration and a clock
    /// whose running flags match the phase.
    pub open spec fn wf(self) -> bool {
        &&& self.clock.wf()
        &&& self.profile.wf()
        &&& self.clock_matches_phase()
    }

    /// Configures a controller: rejects a profile whose speed range is
    /// empty the moment it is loaded, before any session can start;
    /// otherwise the session begins idle with score zero and no timer
    /// running, drawing randomness from `seed`.
    pub fn new(
        profile: EnemyProfile,
        countdown_interval: i64,
        score_interval: i64,
        spawn_interval: i64,
        seed: u64,
    ) -> (r: Result<GameSessionController, ConfigError>)
        ensures
            r is Ok <==> profile.wf(),
            r matches Ok(c) ==> {
                &&& c.wf()
                &&& c.session.phase is Idle
                &&& c.session.score == 0
                &&& c.profile == profile
                &&& c.clock.all_stopped()
                &&& c.clock.countdown.interval == countdown_interval
                &&& c.clock.score_tick.interval == score_interval
                &&& c.clock.spawn_tick.interval == spawn_interval
            },
            r matches Err(e) ==> e is InvalidSpeedRange && profile.min_speed > profile.max_speed,
    {
        if profile.min_speed > profile.max_speed {
            Err(ConfigError::InvalidSpeedRange)
        } else {
            Ok(GameSessionController {
                session: GameSession { score: 0, phase: Phase::Idle },
                clock: SessionClock::new(countdown_interval, score_interval, spawn_interval),
                profile,
                rng: RandomSource::from_seed(seed),
            })
        }
    }

    /// Consumes one event: updates score, phase and timer flags as the
    /// state machine prescribes and returns the actions the collaborators
    /// must perform, in order. An event with no handler in the current
    /// phase is ignored: no state change, no actions.
    pub fn handle_event(&mut self, event: Event) -> (actions: Vec<Action>)
        requires
            old(self).wf(),
            event is ScoreTickFired && old(self).session.phase is Playing
                ==> old(self).session.score < u64::MAX,
        ensures
            final(self).wf(),
            step_ok(*old(self), event, *final(self), actions@),
    {
        let mut actions: Vec<Action> = Vec::new();
        match (self.session.phase, event) {
            (Phase::Idle, Event::StartRequested) | (Phase::GameOver, Event::StartRequested) => {
                self.session.score = 0;
                self.session.phase = Phase::Countdown;
                self.clock.countdown.start();
                actions.push(Action::ResetPlayer);
                actions.push(Action::StartCountdownTimer);
                actions.push(Action::UpdateScore(0));
                actions.push(Action::ShowGetReadyMessage);
                actions.push(Action::PlayMusic);
            }
            (Phase::Countdown, Event::CountdownFired) => {
                self.session.phase = Phase::Playing;
                self.clock.countdown.stop();
                self.clock.score_tick.start();
                self.clock.spawn_tick.start();
                actions.push(Action::StartScoreTimer);
                actions.push(Action::StartSpawnTimer);
            }
            (Phase::Playing, Event::ScoreTickFired) => {
                self.session.score = self.session.score + 1;
                actions.push(Action::UpdateScore(self.session.score));
            }
            (Phase::Playing, Event::SpawnTickFired) => {
                let sample = sample_spawn(&self.profile, &mut self.rng);
                actions.push(Action::SpawnEnemy(sample));
            }
            (Phase::Playing, Event::PlayerHit) => {
                self.session.phase = Phase::GameOver;
                self.clock.score_tick.stop();
                self.clock.spawn_tick.stop();
                actions.push(Action::StopScoreTimer);
                actions.push(Action::StopSpawnTimer);
                actions.push(Action::DespawnEnemies);
                actions.push(Action::ShowGameOverMessage);
                actions.push(Action::StartRestartDelay);
                actions.push(Action::StopMusic);
                actions.push(Action::PlayDeathSound);
            }
            (Phase::GameOver, Event::DelayElapsed) => {
                actions.push(Action::ShowRestartAffordance);
            }
            _ => {}
        }
        actions
    }
}

/// An event the current phase has no handler for: silently ignored,
/// never fatal — no state change, no actions.
pub open spec fn step_ignored(
    pre: GameSessionController,
    post: GameSessionController,
    actions: Seq<Action>,
) -> bool {
    &&& post == pre
    &&& actions.len() == 0
}

/// The complete transition relation of the session state machine: for
/// each event, what the next state is and which actions are issued. The
/// spawned sample is the one nondeterministic part (it comes from the
/// random source), so the spawn branch states its bounds rather than its
/// value.
pub open spec fn step_ok(
    pre: GameSessionController,
    event: Event,
    post: GameSessionController,
    actions: Seq<Action>,
) -> bool {
    &&& post.profile == pre.profile
    &&& match event {
        Event::StartRequested => {
            if pre.session.phase is Idle || pre.session.phase is GameOver {
                &&& post.session.phase is Countdown
                &&& post.session.score == 0
                &&& post.clock == clock_after_start(pre.clock)
                &&& actions =~= seq![
                    Action::ResetPlayer,
                    Action::StartCountdownTimer,
                    Action::UpdateScore(0u64),
                    Action::ShowGetReadyMessage,
                    Action::PlayMusic,
                ]
            } else {
                step_ignored(pre, post, actions)
            }
        },
        Event::CountdownFired => {
            if pre.session.phase is Countdown {
                &&& post.session.phase is Playing
                &&& post.session.score == pre.session.score
                &&& post.clock == clock_after_countdown(pre.clock)
                &&& actions =~= seq![Action::StartScoreTimer, Action::StartSpawnTimer]
            } else {
                step_ignored(pre, post, actions)
            }
        },
        Event::ScoreTickFired => {
            if pre.session.phase is Playing {
                &&& post.session.phase is Playing
                &&& post.session.score == pre.session.score + 1
                &&& post.clock == pre.clock
                &&& actions =~= seq![Action::UpdateScore((pre.session.score + 1) as u64)]
            } else {
                step_ignored(pre, post, actions)
            }
        },
        Event::SpawnTickFired => {
            if pre.session.phase is Playing {
                &&& post.session == pre.session
                &&& post.clock == pre.clock
                &&& actions.len() == 1
                &&& actions[0] matches Action::SpawnEnemy(s) && s.valid_for(pre.profile)
            } else {
                step_ignored(pre, post, actions)
            }
        },
        Event::PlayerHit => {
            if pre.session.phase is Playing {
                &&& post.session.phase is GameOver
                &&& post.session.score == pre.session.score
                &&& post.clock == clock_after_hit(pre.clock)
                &&& actions =~= seq![
                    Action::StopScoreTimer,
                    Action::StopSpawnTimer,
                    Action::DespawnEnemies,
                    Action::ShowGameOverMessage,
                    Action::StartRestartDelay,
                    Action::StopMusic,
                    Action::PlayDeathSound,
                ]
            } else {
                step_ignored(pre, post, actions)
            }
        },
        Event::DelayElapsed => {
            if pre.session.phase is GameOver {
                &&& post == pre
                &&& actions =~= seq![Action::ShowRestartAffordance]
            } else {
                step_ignored(pre, post, actions)
            }
        },
    }
}

/// Law: while the session is playing, the score never decreases, and it
/// changes only on a score tick, then by exactly one. (Outside of play
/// the score changes only when a start request begins a new game, which
/// resets it to zero.)
pub proof fn lemma_score_monotonic(
    pre: GameSessionController,
    event: Event,
    post: GameSessionController,
    actions: Seq<Action>,
)
    requires
        step_ok(pre, event, post, actions),
        pre.session.phase is Playing,
    ensures
        post.session.score >= pre.session.score,
        post.session.score != pre.session.score ==> {
            &&& event is ScoreTickFired
            &&& post.session.score == pre.session.score + 1
        },
{
}

/// Law: outside of play, no event but a new-game start request ever
/// touches the score, and that one sets it to zero.
pub proof fn lemma_score_untouched_outside_play(
    pre: GameSessionController,
    event: Event,
    post: GameSessionController,
    actions: Seq<Action>,
)
    requires
        step_ok(pre, event, post, actions),
        !(pre.session.phase is Playing),
    ensures
        post.session.score != pre.session.score ==> {
            &&& event is StartRequested
            &&& post.session.score == 0
        },
{
}

/// Law: a spawn request is issued only while the session is playing and
/// only by a spawn tick, and then it is the only action of the step.
pub proof fn lemma_spawn_only_while_playing(
    pre: GameSessionController,
    event: Event,
    post: GameSessionController,
    actions: Seq<Action>,
)
    requires
        step_ok(pre, event, post, actions),
    ensures
        forall|i: int|
            0 <= i < actions.len() && actions[i] is SpawnEnemy ==> {
                &&& pre.session.phase is Playing
                &&& event is SpawnTickFired
                &&& actions.len() == 1
            },
{
}

/// Law: a start request while counting down or playing is a duplicate
/// and changes nothing — no state change, no actions, so in particular
/// no timer is started twice.
pub proof fn lemma_duplicate_start_ignored(
    pre: GameSessionController,
    post: GameSessionController,
    actions: Seq<Action>,
)
    requires
        step_ok(pre, Event::StartRequested, post, actions),
        pre.session.phase is Countdown || pre.session.phase is Playing,
    ensures
        post == pre,
        actions.len() == 0,
{
}

/// Law: a player hit while playing ends the match: the session is in
/// game over, both match timers are stopped, the score is kept, and the
/// action list contains exactly one despawn broadcast.
pub proof fn lemma_player_hit_ends_game(
    pre: GameSessionController,
    post: GameSessionController,
    actions: Seq<Action>,
)
    requires
        step_ok(pre, Event::PlayerHit, post, actions),
        pre.session.phase is Playing,
    ensures
        post.session.phase is GameOver,
        !post.clock.score_tick.running,
        !post.clock.spawn_tick.running,
        post.session.score == pre.session.score,
        actions.len() == 7,
        actions[2] is DespawnEnemies,
        forall|i: int| 0 <= i < actions.len() && i != 2 ==> !(actions[i] is DespawnEnemies),
{
}

} // verus!
