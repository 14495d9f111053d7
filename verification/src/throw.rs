//! The batch of dice that one throw puts on the table.
//!
//! A throw makes five dice. Each starts at its own fixed place above one
//! side of the table and gets two pushes, drawn at random: a linear impulse
//! that sends it across the table and a little upwards, and a torque
//! impulse that makes it tumble.
//!
//! Five values are drawn for each die, and for that die alone. What is done
//! with them is [`batch_from_draws`], which takes the drawn values and is
//! verified for every value of them; [`draw_batch`] draws and hands on.

use crate::vector::Vec3;
use vstd::prelude::*;

verus! {

/// How many dice one throw puts on the table.
pub const DICE_PER_THROW: usize = 5;

/// The linear impulse along `x` is drawn from `IMPULSE_X_MIN..=IMPULSE_X_MAX`.
pub const IMPULSE_X_MIN: i64 = -12000;

/// See [`IMPULSE_X_MIN`].
pub const IMPULSE_X_MAX: i64 = -8000;

/// The linear impulse along `y` is drawn from `IMPULSE_Y_MIN..=IMPULSE_Y_MAX`.
pub const IMPULSE_Y_MIN: i64 = 1000;

/// See [`IMPULSE_Y_MIN`].
pub const IMPULSE_Y_MAX: i64 = 3000;

/// The torque impulse about `x` and about `z` is drawn from
/// `-TORQUE_XZ_MAX..=TORQUE_XZ_MAX`.
pub const TORQUE_XZ_MAX: i64 = 2000;

/// The torque impulse about `y` is drawn from `-TORQUE_Y_MAX..=TORQUE_Y_MAX`.
pub const TORQUE_Y_MAX: i64 = 1000;

/// Half the edge of the cube that a die collides as, before scaling.
pub const DIE_HALF_EXTENT: i64 = 1000;

/// The factor by which a die, its collision cube included, is scaled.
pub const DIE_SCALE: i64 = 500;

/// The request to create one die: where it starts, the two impulses it is
/// given at that moment, and the cube it collides as.
#[derive(Clone, Copy, Debug, PartialEq, Eq, Structural)]
pub struct Spawn {
    /// Where the die starts.
    pub position: Vec3,
    /// The push that sets it moving.
    pub impulse: Vec3,
    /// The push that sets it tumbling.
    pub torque_impulse: Vec3,
    /// Half the edge of its collision cube, before scaling.
    pub half_extent: i64,
    /// The factor by which the die and its collision cube are scaled.
    pub scale: i64,
}

/// Where the die with place `i` in a throw starts.
pub open spec fn spawn_position(i: int) -> Vec3 {
    if i == 0 {
        Vec3 { x: 10000, y: 4000, z: 0 }
    } else if i == 1 {
        Vec3 { x: 10000, y: 4000, z: 1000 }
    } else if i == 2 {
        Vec3 { x: 10000, y: 4000, z: -1000i64 }
    } else if i == 3 {
        Vec3 { x: 12000, y: 4000, z: 1000 }
    } else {
        Vec3 { x: 12000, y: 4000, z: -1000i64 }
    }
}

/// Whether `v` can be the linear impulse of a thrown die: towards negative
/// `x`, upwards, and not sideways at all.
pub open spec fn impulse_in_range(v: Vec3) -> bool {
    &&& IMPULSE_X_MIN <= v.x <= IMPULSE_X_MAX
    &&& IMPULSE_Y_MIN <= v.y <= IMPULSE_Y_MAX
    &&& v.z == 0
}

/// Whether `v` can be the torque impulse of a thrown die.
pub open spec fn torque_in_range(v: Vec3) -> bool {
    &&& -TORQUE_XZ_MAX <= v.x <= TORQUE_XZ_MAX
    &&& -TORQUE_Y_MAX <= v.y <= TORQUE_Y_MAX
    &&& -TORQUE_XZ_MAX <= v.z <= TORQUE_XZ_MAX
}

/// Whether `spawn` can be the request for the die with place `i`.
pub open spec fn is_spawn_at(spawn: Spawn, i: int) -> bool {
    &&& spawn.position == spawn_position(i)
    &&& impulse_in_range(spawn.impulse)
    &&& torque_in_range(spawn.torque_impulse)
    &&& spawn.half_extent == DIE_HALF_EXTENT
    &&& spawn.scale == DIE_SCALE
}

/// Whether `batch` can be what one throw asks for: five dice, each at its
/// own place, each with impulses inside the ranges.
pub open spec fn is_throw_batch(batch: Seq<Spawn>) -> bool {
    &&& batch.len() == DICE_PER_THROW
    &&& forall|i: int| 0 <= i < batch.len() ==> is_spawn_at(#[trigger] batch[i], i)
}

/// The five values that are drawn at random for one die, in the order in
/// which they are drawn.
#[derive(Clone, Copy, Debug, PartialEq, Eq, Structural)]
pub struct Draws {
    /// The linear impulse along `x`.
    pub impulse_x: i64,
    /// The linear impulse along `y`.
    pub impulse_y: i64,
    /// The torque impulse about `x`.
    pub torque_x: i64,
    /// The torque impulse about `y`.
    pub torque_y: i64,
    /// The torque impulse about `z`.
    pub torque_z: i64,
}

/// Whether each of the five values lies in the range it is drawn from.
pub open spec fn draws_in_range(draws: Draws) -> bool {
    &&& IMPULSE_X_MIN <= draws.impulse_x <= IMPULSE_X_MAX
    &&& IMPULSE_Y_MIN <= draws.impulse_y <= IMPULSE_Y_MAX
    &&& -TORQUE_XZ_MAX <= draws.torque_x <= TORQUE_XZ_MAX
    &&& -TORQUE_Y_MAX <= draws.torque_y <= TORQUE_Y_MAX
    &&& -TORQUE_XZ_MAX <= draws.torque_z <= TORQUE_XZ_MAX
}

/// The request for the die with place `i`, given what was drawn for it: the
/// die starts at its place, its linear impulse is the two values drawn for
/// it and nothing sideways, and its torque impulse is the three values
/// drawn for that.
pub open spec fn spawn_of(i: int, draws: Draws) -> Spawn {
    Spawn {
        position: spawn_position(i),
        impulse: Vec3 { x: draws.impulse_x, y: draws.impulse_y, z: 0 },
        torque_impulse: Vec3 { x: draws.torque_x, y: draws.torque_y, z: draws.torque_z },
        half_extent: DIE_HALF_EXTENT,
        scale: DIE_SCALE,
    }
}

/// The batch that the given draws make: request `i` is made of the draws
/// with place `i`, and of no others.
pub open spec fn batch_of(draws: Seq<Draws>) -> Seq<Spawn> {
    Seq::new(draws.len(), |i: int| spawn_of(i, draws[i]))
}

/// The thread-local generator of `rand`. Nothing is known of its state.
#[verifier::external_type_specification]
#[verifier::external_body]
pub struct ExThreadRng(rand::rngs::ThreadRng);

/// `rand::thread_rng` hands out a handle to the generator of the calling
/// thread, which the system seeds on first use. Nothing is claimed of the
/// handle. Where the system cannot seed the generator, the call panics.
pub assume_specification[ rand::thread_rng ]() -> (rng: rand::rngs::ThreadRng)
;

/// `rand::Rng::gen_range` on the inclusive range `low..=high` of `i64`.
/// The value it draws lies in the range; which value it is depends on the
/// generator, and nothing is claimed of that.
///
/// The call panics on an empty range, which the precondition rules out. It
/// also panics where the generator is due for fresh entropy, after 64 KiB
/// of output or a fork of the process, and the system fails to give any:
/// a failure of the machine that no precondition can rule out.
#[verifier::external_body]
fn gen_range_inclusive(rng: &mut rand::rngs::ThreadRng, low: i64, high: i64) -> (value: i64)
    requires
        low <= high,
    ensures
        low <= value <= high,
{
    rand::Rng::gen_range(rng, low..=high)
}

/// Where the die with place `i` in a throw starts.
fn spawn_position_at(i: usize) -> (position: Vec3)
    requires
        i < DICE_PER_THROW,
    ensures
        position == spawn_position(i as int),
{
    if i == 0 {
        Vec3 { x: 10000, y: 4000, z: 0 }
    } else if i == 1 {
        Vec3 { x: 10000, y: 4000, z: 1000 }
    } else if i == 2 {
        Vec3 { x: 10000, y: 4000, z: -1000 }
    } else if i == 3 {
        Vec3 { x: 12000, y: 4000, z: 1000 }
    } else {
        Vec3 { x: 12000, y: 4000, z: -1000 }
    }
}

/// Draws the linear impulse of one die.
fn draw_impulse(rng: &mut rand::rngs::ThreadRng) -> (impulse: Vec3)
    ensures
        impulse_in_range(impulse),
{
    let x: i64 = gen_range_inclusive(rng, IMPULSE_X_MIN, IMPULSE_X_MAX);
    let y: i64 = gen_range_inclusive(rng, IMPULSE_Y_MIN, IMPULSE_Y_MAX);
    Vec3 { x, y, z: 0 }
}

/// Draws the torque impulse of one die.
fn draw_torque_impulse(rng: &mut rand::rngs::ThreadRng) -> (torque: Vec3)
    ensures
        torque_in_range(torque),
{
    let x: i64 = gen_range_inclusive(rng, -TORQUE_XZ_MAX, TORQUE_XZ_MAX);
    let y: i64 = gen_range_inclusive(rng, -TORQUE_Y_MAX, TORQUE_Y_MAX);
    let z: i64 = gen_range_inclusive(rng, -TORQUE_XZ_MAX, TORQUE_XZ_MAX);
    Vec3 { x, y, z }
}

/// The batch that the given draws make, for every value of them: the die
/// with place `i` gets the draws with place `i`, each value on the axis it
/// was drawn for. Where every value lies in its range, the batch is one
/// that a throw can ask for.
pub fn batch_from_draws(draws: &Vec<Draws>) -> (batch: Vec<Spawn>)
    requires
        draws@.len() == DICE_PER_THROW,
    ensures
        batch@ == batch_of(draws@),
        (forall|i: int| 0 <= i < DICE_PER_THROW ==> draws_in_range(#[trigger] draws@[i]))
            ==> is_throw_batch(batch@),
{
    let mut batch: Vec<Spawn> = Vec::new();
    let mut i: usize = 0;
    while i < DICE_PER_THROW
        invariant
            i <= DICE_PER_THROW,
            draws@.len() == DICE_PER_THROW,
            batch@.len() == i,
            forall|j: int| 0 <= j < i ==> #[trigger] batch@[j] == spawn_of(j, draws@[j]),
        decreases DICE_PER_THROW - i,
    {
        let drawn = &draws[i];
        batch.push(
            Spawn {
                position: spawn_position_at(i),
                impulse: Vec3 { x: drawn.impulse_x, y: drawn.impulse_y, z: 0 },
                torque_impulse: Vec3 { x: drawn.torque_x, y: drawn.torque_y, z: drawn.torque_z },
                half_extent: DIE_HALF_EXTENT,
                scale: DIE_SCALE,
            },
        );
        i += 1;
    }
    proof {
        assert(batch@ =~= batch_of(draws@));
        if forall|i: int| 0 <= i < DICE_PER_THROW ==> draws_in_range(#[trigger] draws@[i]) {
            lemma_draws_in_range_make_a_throw(draws@);
        }
    }
    batch
}

/// Draws the batch of one throw: for each of the five dice in turn, the
/// two values of its linear impulse and then the three of its torque
/// impulse, and from them the batch that [`batch_from_draws`] makes.
pub fn draw_batch() -> (batch: Vec<Spawn>)
    ensures
        is_throw_batch(batch@),
{
    let mut rng = rand::thread_rng();
    let mut draws: Vec<Draws> = Vec::new();
    let mut i: usize = 0;
    while i < DICE_PER_THROW
        invariant
            i <= DICE_PER_THROW,
            draws@.len() == i,
            forall|j: int| 0 <= j < i ==> draws_in_range(#[trigger] draws@[j]),
        decreases DICE_PER_THROW - i,
    {
        let impulse = draw_impulse(&mut rng);
        let torque = draw_torque_impulse(&mut rng);
        draws.push(
            Draws {
                impulse_x: impulse.x,
                impulse_y: impulse.y,
                torque_x: torque.x,
                torque_y: torque.y,
                torque_z: torque.z,
            },
        );
        i += 1;
    }
    batch_from_draws(&draws)
}

/// Five draws that all lie in their ranges make a batch that a throw can
/// ask for.
pub proof fn lemma_draws_in_range_make_a_throw(draws: Seq<Draws>)
    requires
        draws.len() == DICE_PER_THROW,
        forall|i: int| 0 <= i < draws.len() ==> draws_in_range(#[trigger] draws[i]),
    ensures
        is_throw_batch(batch_of(draws)),
{
    let batch = batch_of(draws);
    assert forall|i: int| 0 <= i < batch.len() implies is_spawn_at(#[trigger] batch[i], i) by {
        assert(draws_in_range(draws[i]));
    }
}

/// Every die has draws of its own, and every axis a value of its own. Other
/// draws for the die with place `k` change the request for that die and for
/// no other, and two draws that differ in any of the five values make
/// requests that differ.
pub proof fn lemma_draws_reach_their_own_die(draws: Seq<Draws>, k: int, other: Draws)
    requires
        0 <= k < draws.len(),
    ensures
        batch_of(draws.update(k, other)) == batch_of(draws).update(k, spawn_of(k, other)),
        spawn_of(k, other) == spawn_of(k, draws[k]) ==> other == draws[k],
{
    assert(batch_of(draws.update(k, other)) =~= batch_of(draws).update(k, spawn_of(k, other)));
}

} // verus!
