use vstd::prelude::*;

verus! {

/// Lever arms are whole numbers of this fraction of a length unit.
pub const LENGTH_SCALE: i32 = 100;

/// Impulses are whole numbers of this fraction of an impulse unit.
pub const IMPULSE_SCALE: i32 = 100_000;

/// Torque impulses, products of a length and an impulse, are whole numbers
/// of this fraction of their unit.
pub const TORQUE_SCALE: i64 = 10_000_000;

/// How far the point of thrust lies from the reference point along the x
/// and z axes: 0.08, in units of `1 / LENGTH_SCALE`.
pub const LEVER_REACH: i32 = 8;

/// The upward thrust of one tick: 0.00004, in units of `1 / IMPULSE_SCALE`.
pub const THRUST: i32 = 4;

/// A vector in fixed point: a lever arm or a linear impulse.
#[derive(Debug, Clone, Copy, PartialEq, Eq, Structural)]
pub struct Vector3 {
    pub x: i32,
    pub y: i32,
    pub z: i32,
}

/// The cross product of two vectors, in units of the product of theirs.
#[derive(Debug, Clone, Copy, PartialEq, Eq, Structural)]
pub struct Moment3 {
    pub x: i64,
    pub y: i64,
    pub z: i64,
}

/// What a body receives in one tick. `linear` is in units of
/// `1 / IMPULSE_SCALE`, `torque` in units of `1 / TORQUE_SCALE`.
#[derive(Debug, Clone, Copy, PartialEq, Eq, Structural)]
pub struct ImpulseCommand {
    pub linear: Vector3,
    pub torque: Moment3,
}

/// The four diagonal directions of thrust, named after their keys.
#[derive(Debug, Clone, Copy, PartialEq, Eq, Structural)]
pub enum Direction {
    A,
    S,
    D,
    F,
}

/// Which direction keys are down in one tick.
#[derive(Debug, Clone, Copy, PartialEq, Eq, Structural)]
pub struct HeldKeys {
    pub a: bool,
    pub s: bool,
    pub d: bool,
    pub f: bool,
}

/// The place of a direction in the order of evaluation: A, S, D, F.
pub open spec fn rank(dir: Direction) -> int {
    match dir {
        Direction::A => 0,
        Direction::S => 1,
        Direction::D => 2,
        Direction::F => 3,
    }
}

/// Whether the key of `dir` is down.
pub open spec fn is_held(held: HeldKeys, dir: Direction) -> bool {
    match dir {
        Direction::A => held.a,
        Direction::S => held.s,
        Direction::D => held.d,
        Direction::F => held.f,
    }
}

/// The held direction that is evaluated last, if any key is down.
pub open spec fn last_held(held: HeldKeys) -> Option<Direction> {
    if held.f {
        Some(Direction::F)
    } else if held.d {
        Some(Direction::D)
    } else if held.s {
        Some(Direction::S)
    } else if held.a {
        Some(Direction::A)
    } else {
        None
    }
}

/// The lever arm of a direction, measured from the fixed reference point of
/// the world: `LEVER_REACH` along x and z, with the signs of the direction.
pub open spec fn lever_of(dir: Direction) -> Vector3 {
    match dir {
        Direction::A => Vector3 { x: LEVER_REACH, y: 0, z: LEVER_REACH },
        Direction::S => Vector3 { x: (-LEVER_REACH) as i32, y: 0, z: LEVER_REACH },
        Direction::D => Vector3 { x: LEVER_REACH, y: 0, z: (-LEVER_REACH) as i32 },
        Direction::F => Vector3 { x: (-LEVER_REACH) as i32, y: 0, z: (-LEVER_REACH) as i32 },
    }
}

/// The thrust vector, the same for every direction: straight up.
pub open spec fn thrust_of() -> Vector3 {
    Vector3 { x: 0, y: THRUST, z: 0 }
}

/// The cross product `a x b`. Its components fit in 64 bits for all 32-bit
/// operands.
pub open spec fn cross_of(a: Vector3, b: Vector3) -> Moment3 {
    Moment3 {
        x: (a.y * b.z - a.z * b.y) as i64,
        y: (a.z * b.x - a.x * b.z) as i64,
        z: (a.x * b.y - a.y * b.x) as i64,
    }
}

/// The command of a direction: the thrust as linear impulse, and the torque
/// of that thrust at the direction's lever arm.
pub open spec fn command_of(dir: Direction) -> ImpulseCommand {
    ImpulseCommand { linear: thrust_of(), torque: cross_of(lever_of(dir), thrust_of()) }
}

/// The product of two 32-bit numbers lies between `-2^62 + 2^31` and
/// `2^62`.
proof fn lemma_product_bound(p: i32, q: i32)
    ensures
        -0x3fff_ffff_8000_0000 <= p * q <= 0x4000_0000_0000_0000,
{
    assert(-0x3fff_ffff_8000_0000 <= p * q <= 0x4000_0000_0000_0000) by (nonlinear_arith)
        requires
            -0x8000_0000 <= p <= 0x7fff_ffff,
            -0x8000_0000 <= q <= 0x7fff_ffff,
    ;
}

/// One component of a cross product: `p * q - r * s`.
fn minor(p: i32, q: i32, r: i32, s: i32) -> (m: i64)
    ensures
        m == p * q - r * s,
{
    proof {
        lemma_product_bound(p, q);
        lemma_product_bound(r, s);
    }
    let left: i64 = (p as i64) * (q as i64);
    let right: i64 = (r as i64) * (s as i64);
    left - right
}

/// Computes the cross product `a x b`, exactly.
pub fn cross(a: Vector3, b: Vector3) -> (m: Moment3)
    ensures
        m == cross_of(a, b),
        m.x == a.y * b.z - a.z * b.y,
        m.y == a.z * b.x - a.x * b.z,
        m.z == a.x * b.y - a.y * b.x,
{
    Moment3 {
        x: minor(a.y, b.z, a.z, b.y),
        y: minor(a.z, b.x, a.x, b.z),
        z: minor(a.x, b.y, a.y, b.x),
    }
}

/// The lever arm of a direction.
pub fn lever_arm(dir: Direction) -> (v: Vector3)
    ensures
        v == lever_of(dir),
{
    match dir {
        Direction::A => Vector3 { x: LEVER_REACH, y: 0, z: LEVER_REACH },
        Direction::S => Vector3 { x: -LEVER_REACH, y: 0, z: LEVER_REACH },
        Direction::D => Vector3 { x: LEVER_REACH, y: 0, z: -LEVER_REACH },
        Direction::F => Vector3 { x: -LEVER_REACH, y: 0, z: -LEVER_REACH },
    }
}

/// The thrust vector.
pub fn thrust() -> (v: Vector3)
    ensures
        v == thrust_of(),
{
    Vector3 { x: 0, y: THRUST, z: 0 }
}

/// The command that a held direction writes: the thrust, and its torque at
/// the lever arm of the direction, the cross product of lever and thrust.
pub fn impulse_for(dir: Direction) -> (command: ImpulseCommand)
    ensures
        command == command_of(dir),
        command.linear == thrust_of(),
        command.torque == cross_of(lever_of(dir), thrust_of()),
{
    let force = thrust();
    ImpulseCommand { linear: force, torque: cross(lever_arm(dir), force) }
}

/// The command of a body on which nothing acts.
pub fn rest() -> (command: ImpulseCommand)
    ensures
        command.linear == (Vector3 { x: 0, y: 0, z: 0 }),
        command.torque == (Moment3 { x: 0, y: 0, z: 0 }),
{
    ImpulseCommand { linear: Vector3 { x: 0, y: 0, z: 0 }, torque: Moment3 { x: 0, y: 0, z: 0 } }
}

/// The direction whose command stands at the end of a tick: of the held
/// ones, the one evaluated last.
pub fn winning_direction(held: &HeldKeys) -> (r: Option<Direction>)
    ensures
        r == last_held(*held),
{
    if held.f {
        Some(Direction::F)
    } else if held.d {
        Some(Direction::D)
    } else if held.s {
        Some(Direction::S)
    } else if held.a {
        Some(Direction::A)
    } else {
        None
    }
}

/// The direction that stands at the end of a tick is held, and no held
/// direction comes after it in the order of evaluation. With no key down
/// there is none.
pub proof fn lemma_last_held_is_latest(held: HeldKeys)
    ensures
        last_held(held) is None <==> !held.a && !held.s && !held.d && !held.f,
        last_held(held) is Some ==> is_held(held, last_held(held)->Some_0),
        forall|dir: Direction|
            is_held(held, dir) ==> last_held(held) is Some && rank(dir) <= rank(
                last_held(held)->Some_0,
            ),
{
}

/// A later command that overwrites an earlier one differs from their sum:
/// the thrust of the two would add up.
pub proof fn lemma_overwrite_is_no_sum(earlier: Direction, later: Direction)
    ensures
        command_of(later).linear.y != command_of(earlier).linear.y + command_of(later).linear.y,
{
}

/// Overwrites the command of every body with that of `dir`. What a body
/// held before is dropped, not added to.
pub fn apply_direction(dir: Direction, bodies: &mut Vec<ImpulseCommand>)
    ensures
        final(bodies)@.len() == old(bodies)@.len(),
        forall|i: int| 0 <= i < final(bodies)@.len() ==> final(bodies)@[i] == command_of(dir),
{
    let command = impulse_for(dir);
    let mut i: usize = 0;
    while i < bodies.len()
        invariant
            bodies@.len() == old(bodies)@.len(),
            i <= bodies@.len(),
            command == command_of(dir),
            forall|k: int| 0 <= k < i ==> bodies@[k] == command_of(dir),
        decreases bodies@.len() - i,
    {
        bodies.set(i, command);
        i = i + 1;
    }
}

/// One pass of the control mapper over the controllable bodies. The four
/// directions are evaluated in the order A, S, D, F, and each held one
/// overwrites the command of every body. So at the end every body holds the
/// command of the held direction that was evaluated last, never a sum; with
/// no key down the bodies are left as they were. Returns whether anything
/// was written.
pub fn tick(held: &HeldKeys, bodies: &mut Vec<ImpulseCommand>) -> (written: bool)
    ensures
        written == last_held(*held) is Some,
        final(bodies)@.len() == old(bodies)@.len(),
        last_held(*held) is None ==> final(bodies)@ == old(bodies)@,
        last_held(*held) is Some ==> forall|i: int|
            0 <= i < final(bodies)@.len() ==> final(bodies)@[i] == command_of(
                last_held(*held)->Some_0,
            ),
{
    if held.a {
        apply_direction(Direction::A, bodies);
    }
    if held.s {
        apply_direction(Direction::S, bodies);
    }
    if held.d {
        apply_direction(Direction::D, bodies);
    }
    if held.f {
        apply_direction(Direction::F, bodies);
    }
    held.a || held.s || held.d || held.f
}

} // verus!
