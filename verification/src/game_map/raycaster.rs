//! Where motion first touches solid terrain: along a straight ray, and along
//! the curve that a point of a turning, moving body follows.
//!
//! Both march in fixed steps until they leave their range or reach terrain,
//! then step back in ever smaller steps, a fixed number of times, to close
//! in on the place of first contact.

use crate::game_map::{get_voxel_pos, GameMap};
use crate::geometry::rotation::{Orientation, Rotation};
use crate::geometry::vec3d::Vec3;
use crate::scalar::{saturate, toward_zero, Scalar};
use vstd::prelude::*;

verus! {

/// The length of one step along a ray, in raw units: a tenth of a whole.
pub const PRECISION: i32 = 2048;

/// The number of times a march steps back to close in on the contact.
pub const REFINEMENT_ROUNDS: u32 = 8;

/// The length of the last step back along a ray, in raw units: one part in
/// 256 of a step of the march.
pub const FINEST_STEP: i32 = 8;

/// The parts that make up the whole of a curve.
pub const COEF_ONE: i32 = 25600;

/// The parts of one step along a curve: a hundredth of the whole.
pub const CURVE_PRECISION: i32 = 256;

/// A straight line of sight from a point, with or without an end.
#[derive(Clone, Copy, Debug, PartialEq, Eq, Structural)]
pub struct Ray {
    pub start: Vec3,
    pub direction: Vec3,
    pub max_length: Option<Scalar>,
}

/// Where a ray ended and how far it went.
#[derive(Clone, Copy, Debug, PartialEq, Eq, Structural)]
pub struct RayEnd {
    pub end: Vec3,
    pub final_length: Scalar,
}

impl Ray {
    /// The ray from `start` along `direction`, no longer than `max_length`
    /// where one is given.
    #[verifier::allow_in_spec]
    pub fn new(start: Vec3, direction: Vec3, max_length: Option<Scalar>) -> Ray
        returns
            (Ray { start, direction, max_length }),
    {
        Ray { start, direction, max_length }
    }

    /// Where the ray starts.
    #[verifier::allow_in_spec]
    pub fn get_start(&self) -> Vec3
        returns
            self.start,
    {
        self.start
    }

    /// The length that the ray does not reach: its greatest length, or the
    /// end of the range where it has none.
    #[verifier::allow_in_spec]
    pub fn limit(&self) -> Scalar
        returns
            (match self.max_length {
                Some(length) => length,
                None => Scalar { raw: i32::MAX },
            }),
    {
        match self.max_length {
            Some(length) => length,
            None => Scalar { raw: i32::MAX },
        }
    }

    /// The point of the ray at `length` from its start.
    #[verifier::allow_in_spec]
    pub fn point_at(&self, length: Scalar) -> Vec3
        returns
            self.start.add(self.direction.scale(length)),
    {
        self.start.add(self.direction.scale(length))
    }

    /// Whether a march that has come as far as `length` goes on: the ray
    /// reaches farther, and its point there lies in a voxel that the map
    /// has and whose six sides are all empty.
    pub open spec fn goes_on(&self, world: &GameMap, length: Scalar) -> bool {
        &&& length.raw < self.limit().raw
        &&& world.type_at(get_voxel_pos(self.point_at(length))) matches Some(voxel_type)
        &&& voxel_type.is_completely_empty()
    }

    /// How far a march gets that has come as far as `length`: it goes on
    /// step by step until it does not go on.
    pub open spec fn marched(&self, world: &GameMap, length: Scalar) -> Scalar
        decreases i32::MAX - length.raw,
    {
        if self.goes_on(world, length) {
            proof {
                reveal(saturate);
            }
            self.marched(world, length.add(Scalar { raw: PRECISION }))
        } else {
            length
        }
    }

    /// The length that is left after `rounds` more rounds of stepping back
    /// from `length`: a round steps back by `step` where the point there is
    /// solid, and the next round steps half as far.
    pub open spec fn refined(
        &self,
        world: &GameMap,
        length: Scalar,
        step: Scalar,
        rounds: nat,
    ) -> Scalar
        decreases rounds,
    {
        if rounds == 0 {
            length
        } else if world.solid_at(get_voxel_pos(self.point_at(length.sub(step)))) {
            self.refined(world, length.sub(step), step.mul_ratio(1, 2), (rounds - 1) as nat)
        } else {
            self.refined(world, length, step.mul_ratio(1, 2), (rounds - 1) as nat)
        }
    }

    /// Whether the point of the ray that lies `steps` finest steps short of
    /// `length` is solid.
    pub open spec fn solid_behind(&self, world: &GameMap, length: Scalar, steps: int) -> bool {
        world.solid_at(
            get_voxel_pos(self.point_at(Scalar { raw: (length.raw - steps * FINEST_STEP) as i32 })),
        )
    }

    /// How far the ray goes: as far as it marches, and where the march ended
    /// short of the limit and not at the start, less what the rounds of
    /// stepping back take off.
    pub open spec fn final_length(&self, world: &GameMap) -> Scalar {
        let length = self.marched(world, Scalar::zero());
        if length.raw < self.limit().raw && length.raw != 0 {
            self.refined(
                world,
                length,
                Scalar { raw: PRECISION }.mul_ratio(1, 2),
                REFINEMENT_ROUNDS as nat,
            )
        } else {
            length
        }
    }

    /// Where the ray ends and how far it goes.
    pub open spec fn end(&self, world: &GameMap) -> RayEnd {
        RayEnd {
            end: self.point_at(self.final_length(world)),
            final_length: self.final_length(world),
        }
    }

    /// Whether a march that has come as far as `length` goes on.
    fn march_goes_on(&self, world: &GameMap, length: Scalar) -> (r: bool)
        ensures
            r == self.goes_on(world, length),
    {
        if length.raw < self.limit().raw {
            match world.get_type_of_voxel_at(get_voxel_pos(self.point_at(length))) {
                Some(voxel_type) => voxel_type.is_completely_empty(),
                None => false,
            }
        } else {
            false
        }
    }

    /// Where the ray ends and how far it goes.
    pub fn get_end(&self, world: &GameMap) -> (r: RayEnd)
        ensures
            r == self.end(world),
    {
        let mut length = Scalar::zero();
        while self.march_goes_on(world, length)
            invariant
                self.marched(world, Scalar::zero()) == self.marched(world, length),
            decreases i32::MAX - length.raw,
        {
            proof {
                reveal(saturate);
            }
            length = length.add(Scalar::from_raw(PRECISION));
        }
        if length.raw < self.limit().raw && length.raw != 0 {
            let mut step = Scalar::from_raw(PRECISION).mul_ratio(1, 2);
            let ghost marched = length;
            let ghost first_step = step;
            let mut round: u32 = 0;
            while round < REFINEMENT_ROUNDS
                invariant
                    round <= REFINEMENT_ROUNDS,
                    self.refined(world, marched, first_step, REFINEMENT_ROUNDS as nat)
                        == self.refined(world, length, step, (REFINEMENT_ROUNDS - round) as nat),
                decreases REFINEMENT_ROUNDS - round,
            {
                let back = length.sub(step);
                if world.is_voxel_solid(get_voxel_pos(self.point_at(back))) {
                    length = back;
                }
                step = step.mul_ratio(1, 2);
                round += 1;
            }
        }
        RayEnd { end: self.point_at(length), final_length: length }
    }

    /// The place one step short of where a ray ended.
    #[verifier::allow_in_spec]
    pub fn step_back(&self, end: RayEnd) -> RayEnd
        returns
            (RayEnd {
                end: end.end.sub(self.direction.scale(Scalar { raw: PRECISION })),
                final_length: end.final_length.sub(Scalar { raw: PRECISION }),
            }),
    {
        RayEnd {
            end: end.end.sub(self.direction.scale(Scalar::from_raw(PRECISION))),
            final_length: end.final_length.sub(Scalar::from_raw(PRECISION)),
        }
    }

    /// The place one step short of `end`, or of where the ray ends if no
    /// end is given: the last place known to be free.
    pub fn get_first_back_different(&self, world: &GameMap, end: Option<RayEnd>) -> (r: RayEnd)
        ensures
            r == self.step_back(
                match end {
                    Some(end) => end,
                    None => self.end(world),
                },
            ),
    {
        match end {
            Some(end) => self.step_back(end),
            None => {
                let end = self.get_end(world);
                self.step_back(end)
            },
        }
    }
}

/// The march of a ray ends at the first step at which it does not go on:
/// it does not go on from where it ends, and it went on from every step
/// before.
pub proof fn lemma_march_ends_at_the_first_stop(ray: Ray, world: &GameMap, length: Scalar)
    ensures
        !ray.goes_on(world, ray.marched(world, length)),
        length.raw <= ray.marched(world, length).raw,
        forall|k: int|
            0 <= k && length.raw + k * PRECISION < ray.marched(world, length).raw
                ==> ray.goes_on(
                world,
                Scalar { raw: (length.raw + #[trigger] (k * PRECISION)) as i32 },
            ),
    decreases i32::MAX - length.raw,
{
    reveal(saturate);
    if ray.goes_on(world, length) {
        let next = length.add(Scalar { raw: PRECISION });
        lemma_march_ends_at_the_first_stop(ray, world, next);
        assert forall|k: int|
            0 <= k && length.raw + k * PRECISION < ray.marched(world, length).raw
            implies ray.goes_on(
            world,
            Scalar { raw: (length.raw + #[trigger] (k * PRECISION)) as i32 },
        ) by {
            if k == 0 {
                assert(Scalar { raw: (length.raw + 0 * PRECISION) as i32 } == length);
            } else {
                assert(length.raw + k * PRECISION == next.raw + (k - 1) * PRECISION) by {
                    assert(k * PRECISION == (k - 1) * PRECISION + PRECISION) by (nonlinear_arith);
                    if next.raw != length.raw + PRECISION {
                        // the range ended; nothing lies between
                        assert(next.raw == i32::MAX);
                        assert(ray.marched(world, next) == next);
                        assert(k * PRECISION >= PRECISION) by (nonlinear_arith)
                            requires
                                k >= 1,
                                PRECISION == 2048,
                        ;
                    }
                }
                assert(ray.goes_on(
                    world,
                    Scalar { raw: (next.raw + #[trigger] ((k - 1) * PRECISION)) as i32 },
                ));
            }
        }
    }
}

/// A ray that may have no length ends where it starts, having gone no way.
pub proof fn lemma_ray_of_no_length(ray: Ray, world: &GameMap)
    requires
        ray.max_length == Some(Scalar::zero()),
    ensures
        ray.end(world) == (RayEnd { end: ray.start, final_length: Scalar::zero() }),
{
    reveal(saturate);
    reveal(toward_zero);
    assert(!ray.goes_on(world, Scalar::zero()));
    assert(ray.marched(world, Scalar::zero()) == Scalar::zero());
    assert(ray.direction.x.raw * 0 == 0 && ray.direction.y.raw * 0 == 0 && ray.direction.z.raw * 0
        == 0) by (nonlinear_arith);
}

/// Two rays from one point in one direction step back alike, whatever their
/// limits.
proof fn lemma_refined_alike(
    a: Ray,
    b: Ray,
    world: &GameMap,
    length: Scalar,
    step: Scalar,
    rounds: nat,
)
    requires
        a.start == b.start,
        a.direction == b.direction,
    ensures
        a.refined(world, length, step, rounds) == b.refined(world, length, step, rounds),
    decreases rounds,
{
    if rounds > 0 {
        if world.solid_at(get_voxel_pos(a.point_at(length.sub(step)))) {
            lemma_refined_alike(
                a,
                b,
                world,
                length.sub(step),
                step.mul_ratio(1, 2),
                (rounds - 1) as nat,
            );
        } else {
            lemma_refined_alike(a, b, world, length, step.mul_ratio(1, 2), (rounds - 1) as nat);
        }
    }
}

/// Where the march of the shorter of two rays from one point in one
/// direction ends short of its limit, the march of the longer ends at the
/// same length.
proof fn lemma_marched_alike(short: Ray, long: Ray, world: &GameMap, length: Scalar)
    requires
        short.start == long.start,
        short.direction == long.direction,
        short.limit().raw <= long.limit().raw,
        short.marched(world, length).raw < short.limit().raw,
    ensures
        long.marched(world, length) == short.marched(world, length),
    decreases i32::MAX - length.raw,
{
    if short.goes_on(world, length) {
        reveal(saturate);
        lemma_marched_alike(short, long, world, length.add(Scalar { raw: PRECISION }));
    }
}

/// Once a ray has found terrain short of its limit, a longer ray from the
/// same point in the same direction finds it at the same place: lengthening
/// a ray never shortens the way to the contact.
pub proof fn lemma_longer_ray_keeps_contact(short: Ray, long: Ray, world: &GameMap)
    requires
        short.start == long.start,
        short.direction == long.direction,
        short.limit().raw <= long.limit().raw,
        short.end(world).final_length.raw < short.limit().raw,
    ensures
        long.end(world) == short.end(world),
{
    let marched = short.marched(world, Scalar::zero());
    if marched.raw < short.limit().raw {
        lemma_marched_alike(short, long, world, Scalar::zero());
        lemma_refined_alike(
            short,
            long,
            world,
            marched,
            Scalar { raw: PRECISION }.mul_ratio(1, 2),
            REFINEMENT_ROUNDS as nat,
        );
    }
}

/// The number of finest steps in the step back of a round that `rounds`
/// rounds, itself included, are left of.
pub open spec fn fine_steps(rounds: nat) -> int
    decreases rounds,
{
    if rounds <= 1 {
        1
    } else {
        2 * fine_steps((rounds - 1) as nat)
    }
}

/// Stepping back closes in on the place where the terrain begins: where the
/// ray is solid up to `boundary` finest steps behind `marched` and free
/// beyond, and the rounds so far have brought it `c` finest steps back, with
/// the place still within reach of the rounds that are left, the rounds end
/// exactly `boundary` finest steps behind `marched`.
proof fn lemma_refined_closes_in(
    ray: Ray,
    world: &GameMap,
    marched: Scalar,
    boundary: int,
    c: int,
    rounds: nat,
)
    requires
        marched.raw >= PRECISION,
        0 <= c <= boundary <= 255,
        rounds <= 8,
        rounds >= 1 ==> boundary < c + 2 * fine_steps(rounds) <= 256,
        rounds == 0 ==> boundary == c,
        forall|j: int|
            1 <= j <= 255 ==> (#[trigger] ray.solid_behind(world, marched, j)) == (j <= boundary),
    ensures
        ray.refined(
            world,
            Scalar { raw: (marched.raw - c * FINEST_STEP) as i32 },
            Scalar { raw: (fine_steps(rounds) * FINEST_STEP) as i32 },
            rounds,
        ) == (Scalar { raw: (marched.raw - boundary * FINEST_STEP) as i32 }),
    decreases rounds,
{
    if rounds >= 1 {
        reveal(saturate);
        reveal(toward_zero);
        reveal_with_fuel(fine_steps, 9);
        let s = fine_steps(rounds);
        assert(1 <= s <= 128);
        let length = Scalar { raw: (marched.raw - c * FINEST_STEP) as i32 };
        let step = Scalar { raw: (s * FINEST_STEP) as i32 };
        assert(length.sub(step) == Scalar { raw: (marched.raw - (c + s) * FINEST_STEP) as i32 });
        assert(ray.solid_behind(world, marched, c + s) == (c + s <= boundary));
        let half = step.mul_ratio(1, 2);
        assert(s * FINEST_STEP * 1 == s * 8);
        assert(half.raw == s * 4);
        let next = if c + s <= boundary {
            c + s
        } else {
            c
        };
        let next_length = Scalar { raw: (marched.raw - next * FINEST_STEP) as i32 };
        assert(world.solid_at(get_voxel_pos(ray.point_at(length.sub(step)))) == (c + s
            <= boundary));
        assert(ray.refined(world, length, step, rounds) == ray.refined(
            world,
            next_length,
            half,
            (rounds - 1) as nat,
        ));
        if rounds >= 2 {
            assert(s == 2 * fine_steps((rounds - 1) as nat));
            assert(half == Scalar {
                raw: (fine_steps((rounds - 1) as nat) * FINEST_STEP) as i32,
            });
            lemma_refined_closes_in(ray, world, marched, boundary, next, (rounds - 1) as nat);
        } else {
            assert(next == boundary);
            assert(ray.refined(world, next_length, half, 0) == next_length);
        }
    }
}

/// A ray ends within one finest step of where the terrain begins: where the
/// march has gone at least a step and ended short of the limit, and the ray
/// is solid up to `boundary` finest steps behind the end of the march and
/// free beyond, for as far back as the last step of the march, the ray ends
/// exactly `boundary` finest steps behind the end of the march.
pub proof fn lemma_ray_ends_where_terrain_begins(ray: Ray, world: &GameMap, boundary: int)
    requires
        PRECISION <= ray.marched(world, Scalar::zero()).raw < ray.limit().raw,
        0 <= boundary <= 255,
        forall|j: int|
            1 <= j <= 255 ==> (#[trigger] ray.solid_behind(
                world,
                ray.marched(world, Scalar::zero()),
                j,
            )) == (j <= boundary),
    ensures
        ray.final_length(world).raw == ray.marched(world, Scalar::zero()).raw - boundary
            * FINEST_STEP,
{
    reveal(saturate);
    reveal(toward_zero);
    reveal_with_fuel(fine_steps, 9);
    let marched = ray.marched(world, Scalar::zero());
    assert(fine_steps(8) == 128);
    assert(Scalar { raw: PRECISION }.mul_ratio(1, 2) == Scalar { raw: 1024 });
    assert(Scalar { raw: (marched.raw - 0 * FINEST_STEP) as i32 } == marched);
    lemma_refined_closes_in(ray, world, marched, boundary, 0, 8);
}

/// The path of a point of a body that turns about a centre while the centre
/// moves: at the part `coef` of the whole, the point has turned by that part
/// of `orient_diff` about the centre and moved by that part of
/// `speed_to_end`.
#[derive(Clone, Copy, Debug, PartialEq, Eq, Structural)]
pub struct Curve {
    pub start: Vec3,
    pub center_of_rotation: Vec3,
    pub speed_to_end: Vec3,
    pub orient_diff: Orientation,
    pub start_ccr_diff: Vec3,
}

/// Where a curve ended, which way it ran there, and at which part of the
/// whole, counted in parts of [`COEF_ONE`].
#[derive(Clone, Copy, Debug, PartialEq, Eq, Structural)]
pub struct ArcEnd {
    pub end: Vec3,
    pub tangent: Vec3,
    pub final_coef: i32,
}

impl Curve {
    /// Where the curve starts.
    #[verifier::allow_in_spec]
    pub fn get_start(&self) -> Vec3
        returns
            self.start,
    {
        self.start
    }

    /// The curve of the point `start` of a body that turns by `orient_diff`
    /// about `center_of_rotation` and moves by `speed_to_end`.
    #[verifier::allow_in_spec]
    pub fn new(
        start: Vec3,
        center_of_rotation: Vec3,
        speed_to_end: Vec3,
        orient_diff: Orientation,
    ) -> Curve
        returns
            (Curve {
                start,
                center_of_rotation,
                speed_to_end,
                orient_diff,
                start_ccr_diff: start.sub(center_of_rotation),
            }),
    {
        Curve {
            start,
            center_of_rotation,
            speed_to_end,
            orient_diff,
            start_ccr_diff: start.sub(center_of_rotation),
        }
    }

    /// The point of the curve at `coef` parts of [`COEF_ONE`].
    #[verifier::allow_in_spec]
    pub fn get_at(&self, coef: i32) -> Vec3
        returns
            Rotation::from_orientation(self.orient_diff.mul_ratio(coef, COEF_ONE)).rotate(
                self.start_ccr_diff,
            ).add(self.speed_to_end.mul_ratio(coef, COEF_ONE)).add(self.center_of_rotation),
    {
        let rotat = Rotation::from_orientation(self.orient_diff.mul_ratio(coef, COEF_ONE));
        rotat.rotate(self.start_ccr_diff).add(self.speed_to_end.mul_ratio(coef, COEF_ONE)).add(
            self.center_of_rotation,
        )
    }

    /// The direction of the curve at `coef`: from the point one step before
    /// to the point one step after, at length one.
    #[verifier::allow_in_spec]
    pub fn get_tangent_at(&self, coef: i32) -> Vec3
        returns
            self.get_at(
                if coef > i32::MAX - CURVE_PRECISION {
                    i32::MAX
                } else {
                    (coef + CURVE_PRECISION) as i32
                },
            ).sub(
                self.get_at(
                    if coef < i32::MIN + CURVE_PRECISION {
                        i32::MIN
                    } else {
                        (coef - CURVE_PRECISION) as i32
                    },
                ),
            ).normalise(),
    {
        let after: i32 = if coef > i32::MAX - CURVE_PRECISION {
            i32::MAX
        } else {
            coef + CURVE_PRECISION
        };
        let before: i32 = if coef < i32::MIN + CURVE_PRECISION {
            i32::MIN
        } else {
            coef - CURVE_PRECISION
        };
        self.get_at(after).sub(self.get_at(before)).normalise()
    }

    /// Whether a march that has come as far as `coef` goes on: the whole is
    /// not yet covered, and the point there is not solid.
    pub open spec fn goes_on(&self, world: &GameMap, coef: int) -> bool {
        &&& 0 <= coef < COEF_ONE
        &&& !world.solid_at(get_voxel_pos(self.get_at(coef as i32)))
    }

    /// How far a march gets that has come as far as `coef`.
    pub open spec fn marched(&self, world: &GameMap, coef: int) -> int
        decreases COEF_ONE + CURVE_PRECISION - coef,
    {
        if self.goes_on(world, coef) {
            self.marched(world, coef + CURVE_PRECISION)
        } else {
            coef
        }
    }

    /// The part that is left after `rounds` more rounds of stepping back
    /// from `coef`: a round steps back by `step` where the point there is
    /// solid, and the next round steps half as far.
    pub open spec fn refined(&self, world: &GameMap, coef: int, step: int, rounds: nat) -> int
        decreases rounds,
    {
        if rounds == 0 {
            coef
        } else if world.solid_at(get_voxel_pos(self.get_at((coef - step) as i32))) {
            self.refined(world, coef - step, step / 2, (rounds - 1) as nat)
        } else {
            self.refined(world, coef, step / 2, (rounds - 1) as nat)
        }
    }

    /// The part of the whole at which the curve ends: as far as it marches,
    /// and where the march ended short of the whole and not at the start,
    /// less what the rounds of stepping back take off.
    pub open spec fn final_coef(&self, world: &GameMap) -> int {
        let coef = self.marched(world, 0);
        if coef < COEF_ONE && coef != 0 {
            self.refined(world, coef, CURVE_PRECISION / 2, REFINEMENT_ROUNDS as nat)
        } else {
            coef
        }
    }

    /// Where the curve ends, which way it runs there, and at which part of
    /// the whole.
    pub open spec fn end(&self, world: &GameMap) -> ArcEnd {
        let coef = self.final_coef(world) as i32;
        ArcEnd { end: self.get_at(coef), tangent: self.get_tangent_at(coef), final_coef: coef }
    }

    /// Where the curve ends, which way it runs there, and at which part of
    /// the whole.
    pub fn get_end(&self, world: &GameMap) -> (r: ArcEnd)
        ensures
            r == self.end(world),
            0 <= r.final_coef <= COEF_ONE,
    {
        let mut coef: i32 = 0;
        let ghost mut steps: int = 0;
        while coef < COEF_ONE && !world.is_voxel_solid(get_voxel_pos(self.get_at(coef)))
            invariant
                0 <= coef <= COEF_ONE,
                coef == steps * CURVE_PRECISION,
                0 <= steps,
                self.marched(world, 0) == self.marched(world, coef as int),
            decreases COEF_ONE + CURVE_PRECISION - coef,
        {
            proof {
                if steps >= 100 {
                    assert(steps * CURVE_PRECISION >= 100 * CURVE_PRECISION) by (nonlinear_arith)
                        requires
                            steps >= 100,
                            CURVE_PRECISION == 256,
                    ;
                }
                assert((steps + 1) * CURVE_PRECISION == steps * CURVE_PRECISION + CURVE_PRECISION)
                    by (nonlinear_arith);
                steps = steps + 1;
            }
            coef = coef + CURVE_PRECISION;
        }
        proof {
            if coef != 0 && steps < 1 {
                assert(steps == 0);
            }
            if steps >= 1 {
                assert(steps * CURVE_PRECISION >= CURVE_PRECISION) by (nonlinear_arith)
                    requires
                        steps >= 1,
                        CURVE_PRECISION == 256,
                ;
            }
        }
        if coef < COEF_ONE && coef != 0 {
            let mut step: i32 = CURVE_PRECISION / 2;
            let ghost marched = coef;
            let mut round: u32 = 0;
            while round < REFINEMENT_ROUNDS
                invariant
                    round <= REFINEMENT_ROUNDS,
                    0 <= step <= 128,
                    CURVE_PRECISION <= marched < COEF_ONE,
                    coef <= marched,
                    marched - coef + 2 * step <= CURVE_PRECISION,
                    self.refined(world, marched as int, 128, REFINEMENT_ROUNDS as nat)
                        == self.refined(
                        world,
                        coef as int,
                        step as int,
                        (REFINEMENT_ROUNDS - round) as nat,
                    ),
                decreases REFINEMENT_ROUNDS - round,
            {
                let back: i32 = coef - step;
                if world.is_voxel_solid(get_voxel_pos(self.get_at(back))) {
                    coef = back;
                }
                step = step / 2;
                round += 1;
            }
        }
        ArcEnd { end: self.get_at(coef), tangent: self.get_tangent_at(coef), final_coef: coef }
    }
}

/// A curve that starts in solid terrain ends where it starts.
pub proof fn lemma_curve_from_solid_goes_no_way(curve: Curve, world: &GameMap)
    requires
        world.solid_at(get_voxel_pos(curve.get_at(0))),
    ensures
        curve.end(world).final_coef == 0,
        curve.end(world).end == curve.get_at(0),
{
    assert(!curve.goes_on(world, 0));
}

/// A march along a curve ends after a whole number of steps, between the
/// start and the whole.
proof fn lemma_curve_marched_in_steps(curve: Curve, world: &GameMap, steps: int)
    requires
        0 <= steps <= 100,
    ensures
        exists|n: int|
            steps <= n <= 100 && curve.marched(world, steps * CURVE_PRECISION) == #[trigger] (n
                * CURVE_PRECISION),
    decreases 100 - steps,
{
    if curve.goes_on(world, steps * CURVE_PRECISION) {
        assert(steps < 100);
        assert((steps + 1) * CURVE_PRECISION == steps * CURVE_PRECISION + CURVE_PRECISION);
        lemma_curve_marched_in_steps(curve, world, steps + 1);
        let n = choose|n: int|
            steps + 1 <= n <= 100 && curve.marched(world, (steps + 1) * CURVE_PRECISION)
                == #[trigger] (n * CURVE_PRECISION);
        assert(steps <= n <= 100 && curve.marched(world, steps * CURVE_PRECISION) == n
            * CURVE_PRECISION);
    } else {
        assert(curve.marched(world, steps * CURVE_PRECISION) == steps * CURVE_PRECISION);
    }
}

/// Stepping back along a curve takes off less than the steps that are left
/// add up to.
proof fn lemma_curve_refined_bounds(
    curve: Curve,
    world: &GameMap,
    coef: int,
    step: int,
    rounds: nat,
)
    requires
        0 <= step,
    ensures
        coef - 2 * step <= curve.refined(world, coef, step, rounds) <= coef,
        step == 0 ==> curve.refined(world, coef, step, rounds) == coef,
        step >= 1 ==> coef - 2 * step < curve.refined(world, coef, step, rounds),
    decreases rounds,
{
    if rounds > 0 {
        if world.solid_at(get_voxel_pos(curve.get_at((coef - step) as i32))) {
            lemma_curve_refined_bounds(curve, world, coef - step, step / 2, (rounds - 1) as nat);
        } else {
            lemma_curve_refined_bounds(curve, world, coef, step / 2, (rounds - 1) as nat);
        }
    }
}

/// A curve ends between its start and its whole; where it ends short of
/// the whole, it has met terrain, and stepping back has taken off less
/// than one step of the march.
pub proof fn lemma_curve_ends_within_the_whole(curve: Curve, world: &GameMap)
    ensures
        0 <= curve.end(world).final_coef <= COEF_ONE,
        curve.marched(world, 0) - CURVE_PRECISION < curve.end(world).final_coef <= curve.marched(
            world,
            0,
        ),
{
    lemma_curve_marched_in_steps(curve, world, 0);
    let marched = curve.marched(world, 0);
    let n = choose|n: int| 0 <= n <= 100 && marched == #[trigger] (n * CURVE_PRECISION);
    if marched < COEF_ONE && marched != 0 {
        assert(n >= 1);
        lemma_curve_refined_bounds(
            curve,
            world,
            marched,
            CURVE_PRECISION as int / 2,
            REFINEMENT_ROUNDS as nat,
        );
    }
}

impl Curve {
    /// Whether the point of the curve that lies `parts` parts short of `coef`
    /// is solid.
    pub open spec fn solid_behind(&self, world: &GameMap, coef: int, parts: int) -> bool {
        world.solid_at(get_voxel_pos(self.get_at((coef - parts) as i32)))
    }
}

/// Stepping back along a curve closes in on the place where the terrain
/// begins: where the curve is solid up to `boundary` parts behind `marched`
/// and free beyond, and the rounds so far have brought it `c` parts back,
/// with the place still within reach of the rounds that are left, the
/// rounds end exactly `boundary` parts behind `marched`.
proof fn lemma_curve_refined_closes_in(
    curve: Curve,
    world: &GameMap,
    marched: int,
    boundary: int,
    c: int,
    rounds: nat,
)
    requires
        0 <= c <= boundary <= 255,
        rounds <= 8,
        rounds >= 1 ==> boundary < c + 2 * fine_steps(rounds) <= 256,
        rounds == 0 ==> boundary == c,
        forall|j: int|
            1 <= j <= 255 ==> (#[trigger] curve.solid_behind(world, marched, j)) == (j
                <= boundary),
    ensures
        curve.refined(world, marched - c, fine_steps(rounds), rounds) == marched - boundary,
    decreases rounds,
{
    if rounds >= 1 {
        reveal_with_fuel(fine_steps, 9);
        let s = fine_steps(rounds);
        assert(1 <= s <= 128);
        assert(curve.solid_behind(world, marched, c + s) == (c + s <= boundary));
        assert(marched - (c + s) == marched - c - s);
        let next = if c + s <= boundary {
            c + s
        } else {
            c
        };
        assert(curve.refined(world, marched - c, s, rounds) == curve.refined(
            world,
            marched - next,
            s / 2,
            (rounds - 1) as nat,
        ));
        if rounds >= 2 {
            assert(s == 2 * fine_steps((rounds - 1) as nat));
            lemma_curve_refined_closes_in(
                curve,
                world,
                marched,
                boundary,
                next,
                (rounds - 1) as nat,
            );
        } else {
            assert(next == boundary);
        }
    }
}

/// A curve ends within one part of where the terrain begins: where the
/// march has gone at least a step and ended short of the whole, and the
/// curve is solid up to `boundary` parts behind the end of the march and
/// free beyond, for as far back as the last step of the march, the curve
/// ends exactly `boundary` parts behind the end of the march.
pub proof fn lemma_curve_ends_where_terrain_begins(curve: Curve, world: &GameMap, boundary: int)
    requires
        CURVE_PRECISION <= curve.marched(world, 0) < COEF_ONE,
        0 <= boundary <= 255,
        forall|j: int|
            1 <= j <= 255 ==> (#[trigger] curve.solid_behind(
                world,
                curve.marched(world, 0),
                j,
            )) == (j <= boundary),
    ensures
        curve.final_coef(world) == curve.marched(world, 0) - boundary,
{
    reveal_with_fuel(fine_steps, 9);
    assert(fine_steps(8) == 128);
    lemma_curve_refined_closes_in(curve, world, curve.marched(world, 0), boundary, 0, 8);
}

} // verus!
