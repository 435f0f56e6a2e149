//! Asteroids: drifting rocks that are scattered over a ring around the
//! player's starting point and nudged back when they stray.

use crate::fixed::{clamp_i64, clamp_u64, scale_signed, scaled_signed, shift};
use crate::random::{uniform_below, uniform_between};
use crate::vec3::{distance_squared, Vec3};
use vstd::prelude::*;

verus! {

/// How often a place for an asteroid is drawn before it is put on the outer
/// edge of the ring.
pub const MAX_PLACEMENT_ATTEMPTS: usize = 8;

/// The number of asteroids in an arena.
pub const ASTEROID_COUNT: usize = 20;

/// The smallest size of an asteroid.
pub const MIN_ASTEROID_SIZE: u32 = 500;

/// The size that no asteroid reaches.
pub const MAX_ASTEROID_SIZE: u32 = 3_000;

/// The radius around the player's starting point that is kept free.
pub const CLEAR_RADIUS: u64 = 50_000;

/// The radius of the field of asteroids.
pub const FIELD_RADIUS: u64 = 300_000;

/// Beyond this distance from an axis an asteroid is nudged back.
pub const SOFT_BOUNDARY: u64 = 450_000;

/// Beyond this distance from an axis an asteroid is all but stopped.
pub const HARD_BOUNDARY: u64 = 500_000;

/// The change of speed with which an asteroid is nudged back in one tick.
pub const NUDGE: i64 = 500;

/// The share of its speed that an asteroid keeps beyond the hard boundary.
pub const BRAKE: u64 = 100;

/// A rock.
#[derive(Clone, Copy, Debug, PartialEq, Eq, Structural)]
pub struct Asteroid {
    pub size: u64,
    pub mass: u64,
}

/// The origin of the arena, where the player starts.
pub open spec fn origin() -> Vec3 {
    Vec3 { x: 0, y: 0, z: 0 }
}

/// Whether a point lies on the ring between the two radii around the
/// origin, edges included.
pub open spec fn in_ring(point: Vec3, min_radius: u64, max_radius: u64) -> bool {
    &&& distance_squared(point, origin()) >= min_radius * min_radius
    &&& distance_squared(point, origin()) <= max_radius * max_radius
}

/// The place of an asteroid for which no drawn place would do: on the outer
/// edge of the ring.
pub open spec fn forced_place(max_radius: u64) -> Vec3 {
    Vec3 { x: if max_radius > i64::MAX { i64::MAX } else { max_radius as i64 }, y: 0, z: 0 }
}

/// The first candidate from position `from` on, among the first
/// `MAX_PLACEMENT_ATTEMPTS`, that lies on the ring; the forced place if there
/// is none.
pub open spec fn first_on_ring(
    candidates: Seq<Vec3>,
    min_radius: u64,
    max_radius: u64,
    from: int,
) -> Vec3
    decreases candidates.len() - from,
{
    if from < 0 || from >= candidates.len() || from >= MAX_PLACEMENT_ATTEMPTS {
        forced_place(max_radius)
    } else if in_ring(candidates[from], min_radius, max_radius) {
        candidates[from]
    } else {
        first_on_ring(candidates, min_radius, max_radius, from + 1)
    }
}

/// The place that a list of candidates yields: the first of the first
/// `MAX_PLACEMENT_ATTEMPTS` candidates that lies on the ring, and the forced
/// place if none of them does.
pub open spec fn chosen_place(candidates: Seq<Vec3>, min_radius: u64, max_radius: u64) -> Vec3 {
    first_on_ring(candidates, min_radius, max_radius, 0)
}

/// The mass of an asteroid of a size: half the square of the size.
pub open spec fn mass_of(size: u64) -> u64 {
    clamp_u64(size * size / 2000)
}

impl Asteroid {
    /// An asteroid of the given size.
    pub fn new(size: u64) -> (r: Asteroid)
        ensures
            r == (Asteroid { size, mass: mass_of(size) }),
    {
        assert(size * size <= 0xffff_ffff_ffff_ffff * 0xffff_ffff_ffff_ffff) by (nonlinear_arith)
            requires
                size <= 0xffff_ffff_ffff_ffff,
        ;
        let wide: u128 = (size as u128) * (size as u128) / 2000;
        let mass: u64 = if wide > u64::MAX as u128 {
            u64::MAX
        } else {
            wide as u64
        };
        Asteroid { size, mass }
    }
}

/// Whether a point lies on the ring between the two radii around the origin.
pub fn on_ring(point: Vec3, min_radius: u64, max_radius: u64) -> (r: bool)
    ensures
        r == in_ring(point, min_radius, max_radius),
{
    let centre = Vec3::zero();
    !point.closer_than(centre, min_radius) && point.within(centre, max_radius)
}

fn forced(max_radius: u64) -> (r: Vec3)
    ensures
        r == forced_place(max_radius),
{
    let x: i64 = if max_radius > i64::MAX as u64 {
        i64::MAX
    } else {
        max_radius as i64
    };
    Vec3 { x, y: 0, z: 0 }
}

/// Picks the place of an asteroid from candidates drawn beforehand: the
/// first of at most `MAX_PLACEMENT_ATTEMPTS` that lies on the ring, and the
/// forced place on the outer edge if none does.
pub fn place_from(candidates: &Vec<Vec3>, min_radius: u64, max_radius: u64) -> (place: Vec3)
    ensures
        place == chosen_place(candidates@, min_radius, max_radius),
        in_ring(place, min_radius, max_radius) || place == forced_place(max_radius),
{
    let tries: usize = if candidates.len() > MAX_PLACEMENT_ATTEMPTS {
        MAX_PLACEMENT_ATTEMPTS
    } else {
        candidates.len()
    };
    let mut i: usize = 0;
    while i < tries
        invariant
            i <= tries,
            tries <= MAX_PLACEMENT_ATTEMPTS,
            tries <= candidates@.len(),
            tries == MAX_PLACEMENT_ATTEMPTS || tries == candidates@.len(),
            chosen_place(candidates@, min_radius, max_radius) == first_on_ring(
                candidates@,
                min_radius,
                max_radius,
                i as int,
            ),
        decreases tries - i,
    {
        let candidate = candidates[i];
        if on_ring(candidate, min_radius, max_radius) {
            return candidate;
        }
        i += 1;
    }
    forced(max_radius)
}

/// Draws `MAX_PLACEMENT_ATTEMPTS` points in the square that holds the ring.
fn draw_candidates(max_radius: u64) -> (candidates: Vec<Vec3>)
    ensures
        candidates@.len() == MAX_PLACEMENT_ATTEMPTS,
{
    let reach: i64 = if max_radius >= i64::MAX as u64 {
        i64::MAX - 1
    } else {
        max_radius as i64
    };
    let mut candidates: Vec<Vec3> = Vec::new();
    while candidates.len() < MAX_PLACEMENT_ATTEMPTS
        invariant
            candidates@.len() <= MAX_PLACEMENT_ATTEMPTS,
            0 <= reach < i64::MAX,
        decreases MAX_PLACEMENT_ATTEMPTS - candidates@.len(),
    {
        let x = uniform_between(-reach, reach + 1);
        let z = uniform_between(-reach, reach + 1);
        candidates.push(Vec3 { x, y: 0, z });
    }
    candidates
}

/// Draws a place for an asteroid on the ring between the two radii: up to
/// `MAX_PLACEMENT_ATTEMPTS` points are drawn, and if none lies on the ring
/// the asteroid is put on its outer edge.
pub fn scatter_position(min_radius: u64, max_radius: u64) -> (place: Vec3)
    ensures
        exists|candidates: Seq<Vec3>|
            candidates.len() == MAX_PLACEMENT_ATTEMPTS && place == #[trigger] chosen_place(
                candidates,
                min_radius,
                max_radius,
            ),
        in_ring(place, min_radius, max_radius) || place == forced_place(max_radius),
{
    let candidates = draw_candidates(max_radius);
    place_from(&candidates, min_radius, max_radius)
}

/// Draws the asteroids of an arena, each with its place on the ring between
/// `CLEAR_RADIUS` and `FIELD_RADIUS`.
pub fn scatter_asteroids() -> (field: Vec<(Asteroid, Vec3)>)
    ensures
        field@.len() == ASTEROID_COUNT,
        forall|i: int|
            0 <= i < field@.len() ==> {
                &&& MIN_ASTEROID_SIZE <= (#[trigger] field@[i]).0.size < MAX_ASTEROID_SIZE
                &&& field@[i].0.mass == mass_of(field@[i].0.size)
                &&& in_ring(field@[i].1, CLEAR_RADIUS, FIELD_RADIUS)
            },
{
    let mut field: Vec<(Asteroid, Vec3)> = Vec::new();
    while field.len() < ASTEROID_COUNT
        invariant
            field@.len() <= ASTEROID_COUNT,
            forall|i: int|
                0 <= i < field@.len() ==> {
                    &&& MIN_ASTEROID_SIZE <= (#[trigger] field@[i]).0.size < MAX_ASTEROID_SIZE
                    &&& field@[i].0.mass == mass_of(field@[i].0.size)
                    &&& in_ring(field@[i].1, CLEAR_RADIUS, FIELD_RADIUS)
                },
        decreases ASTEROID_COUNT - field@.len(),
    {
        let size: u32 = MIN_ASTEROID_SIZE + uniform_below(MAX_ASTEROID_SIZE - MIN_ASTEROID_SIZE);
        let place = scatter_position(CLEAR_RADIUS, FIELD_RADIUS);
        proof {
            lemma_forced_place_is_on_ring(CLEAR_RADIUS, FIELD_RADIUS);
        }
        field.push((Asteroid::new(size as u64), place));
    }
    field
}

/// On a ring whose radii are in order, the forced place lies on the ring,
/// so every asteroid does.
pub proof fn lemma_forced_place_is_on_ring(min_radius: u64, max_radius: u64)
    requires
        min_radius <= max_radius <= i64::MAX,
    ensures
        in_ring(forced_place(max_radius), min_radius, max_radius),
{
    let a = min_radius as int;
    let b = max_radius as int;
    assert(a * a <= b * b) by (nonlinear_arith)
        requires
            0 <= a <= b,
    ;
    let p = forced_place(max_radius);
    assert(distance_squared(p, origin()) == b * b) by (nonlinear_arith)
        requires
            p.x == b,
            p.y == 0,
            p.z == 0,
            origin().x == 0,
            origin().y == 0,
            origin().z == 0,
            distance_squared(p, origin()) == (p.x - origin().x) * (p.x - origin().x) + (p.y
                - origin().y) * (p.y - origin().y) + (p.z - origin().z) * (p.z - origin().z),
    ;
}

/// The speed along one axis after the boundaries have acted on it: beyond
/// the soft boundary the asteroid is nudged toward the centre.
pub open spec fn nudged(coordinate: i64, speed: i64) -> i64 {
    if coordinate > SOFT_BOUNDARY {
        clamp_i64(speed - NUDGE)
    } else if -coordinate > SOFT_BOUNDARY {
        clamp_i64(speed + NUDGE)
    } else {
        speed
    }
}

/// Whether a point lies beyond the hard boundary on a horizontal axis.
pub open spec fn beyond_hard_boundary(position: Vec3) -> bool {
    ||| position.x > HARD_BOUNDARY
    ||| -position.x > HARD_BOUNDARY
    ||| position.z > HARD_BOUNDARY
    ||| -position.z > HARD_BOUNDARY
}

/// The velocity of an asteroid at `position` after the boundaries have
/// acted on it: nudged toward the centre beyond the soft boundary, and cut
/// to a tenth beyond the hard one.
pub open spec fn contained(position: Vec3, velocity: Vec3) -> Vec3 {
    let steered = Vec3 {
        x: nudged(position.x, velocity.x),
        y: velocity.y,
        z: nudged(position.z, velocity.z),
    };
    if beyond_hard_boundary(position) {
        Vec3 {
            x: clamp_i64(scaled_signed(steered.x as int, BRAKE as int)),
            y: clamp_i64(scaled_signed(steered.y as int, BRAKE as int)),
            z: clamp_i64(scaled_signed(steered.z as int, BRAKE as int)),
        }
    } else {
        steered
    }
}

fn nudge(coordinate: i64, speed: i64) -> (r: i64)
    ensures
        r == nudged(coordinate, speed),
{
    if coordinate > SOFT_BOUNDARY as i64 {
        shift(speed, -NUDGE)
    } else if coordinate < -(SOFT_BOUNDARY as i64) {
        shift(speed, NUDGE)
    } else {
        speed
    }
}

/// Keeps an asteroid in the arena by acting on its velocity.
pub fn contain_velocity(position: Vec3, velocity: Vec3) -> (r: Vec3)
    ensures
        r == contained(position, velocity),
{
    let steered = Vec3 {
        x: nudge(position.x, velocity.x),
        y: velocity.y,
        z: nudge(position.z, velocity.z),
    };
    let edge: i64 = HARD_BOUNDARY as i64;
    if position.x > edge || position.x < -edge || position.z > edge || position.z < -edge {
        Vec3 {
            x: scale_signed(steered.x, BRAKE),
            y: scale_signed(steered.y, BRAKE),
            z: scale_signed(steered.z, BRAKE),
        }
    } else {
        steered
    }
}

} // verus!
