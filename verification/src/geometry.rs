//! Randomized spawn geometry: from a path-progress sample, a heading
//! jitter and a speed drawn from an enemy profile, compute the transform
//! (position, rotation, velocity) of one newly spawned enemy.
//!
//! All quantities are fixed-point: an `i64` counts millionths of the
//! host's unit (micro-units), and angles count micro-radians. A velocity
//! is kept in polar form (magnitude and heading); the host rotates
//! `(speed, 0)` by the heading when it needs cartesian components.

use vstd::prelude::*;

use crate::rng::RandomSource;

verus! {

/// One fixed-point unit: 1.0 is one million micro-units.
pub const FX_ONE: i64 = 1_000_000;

/// Half pi in micro-radians, rounded to the nearest micro-radian.
pub const HALF_PI_FX: i64 = 1_570_796;

/// Quarter pi in micro-radians; exactly half of `HALF_PI_FX`.
pub const QUARTER_PI_FX: i64 = 785_398;

/// A two-dimensional point or vector in micro-units.
#[derive(Clone, Copy, PartialEq, Eq, Structural, Debug)]
pub struct Vector2Fx {
    pub x: i64,
    pub y: i64,
}

/// Speed range for one enemy kind, in micro-units per time unit.
/// Supplied by configuration; read-only to the core.
#[derive(Clone, Copy, PartialEq, Eq, Structural, Debug)]
pub struct EnemyProfile {
    pub min_speed: i64,
    pub max_speed: i64,
}

impl EnemyProfile {
    /// Configuration invariant: the speed range is non-empty.
    pub open spec fn wf(self) -> bool {
        self.min_speed <= self.max_speed
    }
}

/// The three random draws of one spawn event: a normalized path progress,
/// a heading jitter, and a speed. Produced and consumed within one spawn
/// tick; never persisted.
#[derive(Clone, Copy, PartialEq, Eq, Structural, Debug)]
pub struct SpawnSample {
    /// Path progress in `[0, FX_ONE)`, i.e. a normalized position along
    /// the closed spawn path.
    pub progress: i64,
    /// Heading jitter in `[-QUARTER_PI_FX, QUARTER_PI_FX)` micro-radians.
    pub jitter: i64,
    /// Speed drawn from the enemy profile's range.
    pub speed: i64,
}

impl SpawnSample {
    /// What the sampler guarantees of every sample it draws for `profile`.
    pub open spec fn valid_for(self, profile: EnemyProfile) -> bool {
        &&& 0 <= self.progress < FX_ONE
        &&& -QUARTER_PI_FX <= self.jitter < QUARTER_PI_FX
        &&& profile.min_speed <= self.speed <= profile.max_speed
    }
}

/// A velocity in polar form: its magnitude and the angle it points at.
/// The magnitude of the cartesian vector `rotate((speed, 0), heading)`
/// is exactly `speed`, so speed bounds transfer to the velocity.
#[derive(Clone, Copy, PartialEq, Eq, Structural, Debug)]
pub struct PolarVelocity {
    pub speed: i64,
    pub heading: i64,
}

/// The spawn transform handed to the entity factory: where the enemy
/// appears, which way it faces, and how it moves.
#[derive(Clone, Copy, PartialEq, Eq, Structural, Debug)]
pub struct SpawnTransform {
    pub position: Vector2Fx,
    /// Heading in micro-radians: the path's base rotation, turned a
    /// quarter turn inward, plus the sampled jitter.
    pub rotation: i64,
    pub velocity: PolarVelocity,
}

/// The heading derived from the path's base rotation and a jitter draw.
pub open spec fn heading_of(base_rotation: i64, jitter: i64) -> int {
    base_rotation + HALF_PI_FX + jitter
}

/// No-overflow bound on the base rotation handed in by the path
/// collaborator: the heading sum must fit in an `i64` for every jitter
/// the sampler can draw.
pub open spec fn rotation_in_range(base_rotation: i64) -> bool {
    &&& base_rotation + HALF_PI_FX + QUARTER_PI_FX <= i64::MAX
    &&& i64::MIN <= base_rotation + HALF_PI_FX - QUARTER_PI_FX
}

/// The exact transform of a spawn event, as a function of the resolved
/// path point and the sample.
pub open spec fn spawn_transform_of(
    position: Vector2Fx,
    base_rotation: i64,
    sample: SpawnSample,
) -> SpawnTransform {
    let heading = heading_of(base_rotation, sample.jitter) as i64;
    SpawnTransform {
        position: position,
        rotation: heading,
        velocity: PolarVelocity { speed: sample.speed, heading: heading },
    }
}

/// Builds the spawn transform from the path point resolved at the
/// sample's progress: the enemy appears at `position`, faces the path's
/// base rotation turned a quarter turn inward plus the jitter, and moves
/// in that direction at the sampled speed.
pub fn compute_transform(
    position: Vector2Fx,
    base_rotation: i64,
    sample: SpawnSample,
) -> (t: SpawnTransform)
    requires
        -QUARTER_PI_FX <= sample.jitter < QUARTER_PI_FX,
        rotation_in_range(base_rotation),
    ensures
        t == spawn_transform_of(position, base_rotation, sample),
        t.position == position,
        t.velocity.speed == sample.speed,
        t.rotation == heading_of(base_rotation, sample.jitter),
        t.velocity.heading == t.rotation,
{
    let heading: i64 = base_rotation + HALF_PI_FX + sample.jitter;
    SpawnTransform {
        position,
        rotation: heading,
        velocity: PolarVelocity { speed: sample.speed, heading },
    }
}

/// Draws the three random values of one spawn event: a path progress in
/// `[0, 1)`, a heading jitter in `[-pi/4, pi/4)`, and a speed from the
/// profile's range (exactly `min_speed` when the range is a single point).
pub fn sample_spawn(profile: &EnemyProfile, source: &mut RandomSource) -> (s: SpawnSample)
    requires
        profile.wf(),
    ensures
        s.valid_for(*profile),
{
    let progress = source.uniform(0, FX_ONE);
    let jitter = source.uniform(-QUARTER_PI_FX, QUARTER_PI_FX);
    let speed = source.uniform(profile.min_speed, profile.max_speed);
    SpawnSample { progress, jitter, speed }
}

/// Law: for every profile with a non-empty speed range and every sample
/// the sampler can produce for it, the spawned velocity's magnitude (the
/// `speed` of the polar velocity) lies within the profile's range,
/// whatever the path point was.
pub proof fn lemma_velocity_magnitude_within_profile(
    position: Vector2Fx,
    base_rotation: i64,
    sample: SpawnSample,
    profile: EnemyProfile,
)
    requires
        profile.wf(),
        sample.valid_for(profile),
    ensures
        profile.min_speed <= spawn_transform_of(position, base_rotation, sample).velocity.speed
            <= profile.max_speed,
{
}

/// Law: the spawned heading always lies within a quarter-pi band around
/// the path's base rotation turned a quarter turn inward.
pub proof fn lemma_heading_within_jitter_band(
    position: Vector2Fx,
    base_rotation: i64,
    sample: SpawnSample,
    profile: EnemyProfile,
)
    requires
        sample.valid_for(profile),
        rotation_in_range(base_rotation),
    ensures
        base_rotation + HALF_PI_FX - QUARTER_PI_FX
            <= spawn_transform_of(position, base_rotation, sample).rotation,
        spawn_transform_of(position, base_rotation, sample).rotation
            < base_rotation + HALF_PI_FX + QUARTER_PI_FX,
{
}

} // verus!
