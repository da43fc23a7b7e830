//! Dice: their physical state, the registry that owns them, the random
//! pose generator, and the reroll reset transition.
//!
//! Lengths and angles are fixed-point integers in thousandths of a
//! world unit (respectively of a radian), so that the geometry the
//! logic decides on is exact; the surrounding runtime converts to and
//! from the physics backend's floating-point state.

use vstd::prelude::*;

use crate::actions::Actions;

verus! {

/// Number of dice spawned at scene entry.
pub const DICE_COUNT: usize = 10;

/// Half-extent of every die's cuboid collider, in thousandths.
pub const DIE_HALF_EXTENT: i64 = 500;

/// Horizontal spawn range: x and z are drawn from `[-POS_XZ_MAX, POS_XZ_MAX]`.
pub const POS_XZ_MAX: i64 = 5000;

/// Lower edge of the vertical spawn band.
pub const SPAWN_Y_MIN: i64 = 4500;

/// Upper edge of the vertical spawn band.
pub const SPAWN_Y_MAX: i64 = 5500;

/// A full turn, in thousandths of a radian: each random rotation angle
/// is drawn from `[0, FULL_TURN]`.
pub const FULL_TURN: i64 = 6283;

/// Vertical center of the arena floor's collider, in thousandths.
pub const FLOOR_CENTER_Y: i64 = -200;

/// Half-height of the arena floor's collider, in thousandths.
pub const FLOOR_HALF_HEIGHT: i64 = 100;

/// Height of the floor's upper face: the plane the dice fall onto.
pub const FLOOR_TOP: i64 = FLOOR_CENTER_Y + FLOOR_HALF_HEIGHT;

/// A 3D vector in thousandths of a world unit.
#[derive(Clone, Copy, Debug, PartialEq, Eq, Structural)]
pub struct Vec3 {
    pub x: i64,
    pub y: i64,
    pub z: i64,
}

/// The zero vector.
pub open spec fn vec3_zero() -> Vec3 {
    Vec3 { x: 0, y: 0, z: 0 }
}

impl Vec3 {
    /// The zero vector.
    pub fn zero() -> (r: Vec3)
        ensures
            r == vec3_zero(),
    {
        Vec3 { x: 0, y: 0, z: 0 }
    }
}

/// An orientation given as three rotation angles in thousandths of a
/// radian, one about each principal axis. The orientation they denote
/// is the composition x-rotation * y-rotation * z-rotation, in that
/// fixed order; the distribution it induces over rotations is not
/// uniform, and callers must not assume it is.
#[derive(Clone, Copy, Debug, PartialEq, Eq, Structural)]
pub struct Rot3 {
    pub x: i64,
    pub y: i64,
    pub z: i64,
}

/// Position and orientation of a rigid body.
#[derive(Clone, Copy, Debug, PartialEq, Eq, Structural)]
pub struct Pose {
    pub position: Vec3,
    pub rotation: Rot3,
}

/// One simulated die: a rigid cube with a pose, velocities and a fixed
/// cuboid collider half-extent.
#[derive(Clone, Copy, Debug, PartialEq, Eq, Structural)]
pub struct Dice {
    pub pose: Pose,
    pub linear_velocity: Vec3,
    pub angular_velocity: Vec3,
    pub half_extent: i64,
}

/// The position lies in the configured spawn box: x and z within the
/// horizontal range, y within the vertical band above the floor.
pub open spec fn in_spawn_bounds(p: Vec3) -> bool {
    &&& -POS_XZ_MAX <= p.x <= POS_XZ_MAX
    &&& SPAWN_Y_MIN <= p.y <= SPAWN_Y_MAX
    &&& -POS_XZ_MAX <= p.z <= POS_XZ_MAX
}

/// Every rotation angle lies within one full turn.
pub open spec fn rotation_in_turn(r: Rot3) -> bool {
    &&& 0 <= r.x <= FULL_TURN
    &&& 0 <= r.y <= FULL_TURN
    &&& 0 <= r.z <= FULL_TURN
}

/// A pose the random pose generator may produce.
pub open spec fn spawn_pose_ok(p: Pose) -> bool {
    in_spawn_bounds(p.position) && rotation_in_turn(p.rotation)
}

/// The state of a die right after a spawn or a reroll: a pose from the
/// generator's ranges and exactly zero velocities.
pub open spec fn freshly_reset(d: Dice) -> bool {
    &&& spawn_pose_ok(d.pose)
    &&& d.linear_velocity == vec3_zero()
    &&& d.angular_velocity == vec3_zero()
}

/// The per-die invariant that holds for the whole life of the entity:
/// its collider half-extent is the one fixed cube size.
pub open spec fn die_wf(d: Dice) -> bool {
    d.half_extent == DIE_HALF_EXTENT
}

/// Every spawn position leaves the whole cube strictly above the upper
/// face of the floor, so no die ever starts intersecting the arena.
pub proof fn lemma_spawn_above_floor(p: Vec3)
    requires
        in_spawn_bounds(p),
    ensures
        p.y - DIE_HALF_EXTENT > FLOOR_TOP,
{
}

/// Relies on rand's `Rng::gen_range` on the thread-local generator: it
/// returns a sample of the inclusive range `lo..=hi`, and panics only
/// on an empty range, which the precondition rules out. The sample
/// depends on the generator's state, so nothing beyond the range holds
/// of it.
#[verifier::external_body]
fn random_in_range(lo: i64, hi: i64) -> (r: i64)
    requires
        lo <= hi,
    ensures
        lo <= r <= hi,
{
    rand::Rng::gen_range(&mut rand::thread_rng(), lo..=hi)
}

/// Draw a spawn position: each axis sampled independently, x and z
/// over the wide horizontal range, y over the narrow band above the
/// floor.
pub fn random_init_position() -> (r: Vec3)
    ensures
        in_spawn_bounds(r),
{
    Vec3 {
        x: random_in_range(-POS_XZ_MAX, POS_XZ_MAX),
        y: random_in_range(SPAWN_Y_MIN, SPAWN_Y_MAX),
        z: random_in_range(-POS_XZ_MAX, POS_XZ_MAX),
    }
}

/// Draw a spawn orientation: three independent angles, each over one
/// full turn, composed about x, y and z in that fixed order.
pub fn random_rotation() -> (r: Rot3)
    ensures
        rotation_in_turn(r),
{
    Rot3 {
        x: random_in_range(0, FULL_TURN),
        y: random_in_range(0, FULL_TURN),
        z: random_in_range(0, FULL_TURN),
    }
}

/// The registry of all dice: an arena of die records indexed by stable
/// handles `0..len`. It is created once at scene entry and its handle
/// set never changes afterwards; only poses and velocities are
/// mutated, by the reset transition here and by the physics backend
/// writing its integration results back through the setters.
pub struct DiceRegistry {
    dice: Vec<Dice>,
}

impl View for DiceRegistry {
    type V = Seq<Dice>;

    closed spec fn view(&self) -> Seq<Dice> {
        self.dice@
    }
}

impl DiceRegistry {
    /// All dice share the one fixed collider half-extent.
    pub open spec fn wf(self) -> bool {
        forall|i: int| 0 <= i < self@.len() ==> die_wf(#[trigger] self@[i])
    }

    /// Number of registered dice; handles are exactly `0..len`.
    pub fn len(&self) -> (n: usize)
        ensures
            n == self@.len(),
    {
        self.dice.len()
    }

    /// Read a die's pose.
    pub fn get_pose(&self, handle: usize) -> (p: Pose)
        requires
            handle < self@.len(),
        ensures
            p == self@[handle as int].pose,
    {
        self.dice[handle].pose
    }

    /// Read a die's linear and angular velocity.
    pub fn get_velocity(&self, handle: usize) -> (v: (Vec3, Vec3))
        requires
            handle < self@.len(),
        ensures
            v.0 == self@[handle as int].linear_velocity,
            v.1 == self@[handle as int].angular_velocity,
    {
        (self.dice[handle].linear_velocity, self.dice[handle].angular_velocity)
    }

    /// Read a die's collider half-extent.
    pub fn get_half_extent(&self, handle: usize) -> (e: i64)
        requires
            handle < self@.len(),
        ensures
            e == self@[handle as int].half_extent,
    {
        self.dice[handle].half_extent
    }

    /// Overwrite one die's pose, leaving its velocities, its collider
    /// and every other die untouched.
    pub fn set_pose(&mut self, handle: usize, p: Pose)
        requires
            handle < old(self)@.len(),
        ensures
            final(self)@ =~= old(self)@.update(
                handle as int,
                (Dice { pose: p, ..old(self)@[handle as int] }),
            ),
    {
        let d = self.dice[handle];
        self.dice.set(handle, Dice { pose: p, ..d });
    }

    /// Overwrite one die's linear and angular velocity, leaving its
    /// pose, its collider and every other die untouched.
    pub fn set_velocity(&mut self, handle: usize, linear: Vec3, angular: Vec3)
        requires
            handle < old(self)@.len(),
        ensures
            final(self)@ =~= old(self)@.update(
                handle as int,
                (Dice {
                    linear_velocity: linear,
                    angular_velocity: angular,
                    ..old(self)@[handle as int]
                }),
            ),
    {
        let d = self.dice[handle];
        self.dice.set(handle, Dice { linear_velocity: linear, angular_velocity: angular, ..d });
    }
}

/// Create `count` independent dice, each with its own randomly drawn
/// initial pose, zero velocities and the fixed cuboid collider. Meant
/// to run once at scene entry; the registry it returns is the one the
/// scene keeps for its whole life.
pub fn spawn_dice(count: usize) -> (r: DiceRegistry)
    ensures
        r@.len() == count,
        forall|i: int| 0 <= i < count ==> freshly_reset(#[trigger] r@[i]) && die_wf(r@[i]),
        r.wf(),
{
    let mut dice: Vec<Dice> = Vec::new();
    let mut n: usize = 0;
    while n < count
        invariant
            n <= count,
            dice@.len() == n,
            forall|i: int| 0 <= i < n ==> freshly_reset(#[trigger] dice@[i]) && die_wf(dice@[i]),
        decreases count - n,
    {
        let die = Dice {
            pose: Pose { position: random_init_position(), rotation: random_rotation() },
            linear_velocity: Vec3::zero(),
            angular_velocity: Vec3::zero(),
            half_extent: DIE_HALF_EXTENT,
        };
        dice.push(die);
        n = n + 1;
    }
    DiceRegistry { dice }
}

/// The reset transition, run once per tick after the action flags are
/// recomputed. When `reroll` is clear this is a no-op: the registry is
/// left exactly as it was and the physics backend's own integration
/// carries on alone. When `reroll` is set, every registered die gets
/// its own independently drawn fresh pose and exactly zero velocities,
/// while its collider half-extent is kept; with no registered dice the
/// reroll is a no-op as well.
pub fn move_object(registry: &mut DiceRegistry, actions: &Actions)
    ensures
        final(registry)@.len() == old(registry)@.len(),
        !actions.reroll ==> *final(registry) == *old(registry),
        actions.reroll ==> forall|i: int|
            0 <= i < old(registry)@.len() ==> freshly_reset(#[trigger] final(registry)@[i])
                && final(registry)@[i].half_extent == old(registry)@[i].half_extent,
        old(registry).wf() ==> final(registry).wf(),
{
    if actions.reroll {
        let n = registry.len();
        let mut i: usize = 0;
        while i < n
            invariant
                i <= n,
                n == registry@.len(),
                registry@.len() == old(registry)@.len(),
                forall|j: int| 0 <= j < i ==> freshly_reset(#[trigger] registry@[j]),
                forall|j: int|
                    0 <= j < registry@.len() ==> #[trigger] registry@[j].half_extent == old(
                        registry,
                    )@[j].half_extent,
            decreases n - i,
        {
            registry.set_pose(
                i,
                Pose { position: random_init_position(), rotation: random_rotation() },
            );
            registry.set_velocity(i, Vec3::zero(), Vec3::zero());
            i = i + 1;
        }
    }
}

} // verus!
