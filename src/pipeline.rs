//! One simulation tick of the agents, with its stages in their fixed order:
//! target acquisition, steering, ground contact, gravity.
use vstd::prelude::*;

use crate::enemy::Enemy;
use crate::gravity::{after_gravity, apply_gravity_system, gravity_fits};
use crate::ground::{after_ground_update, update_grounded, ContactNormal};
use crate::steering::{after_steering, enemy_move_toward_target, facing_after_steering, Facing};
use crate::targeting::{after_tracking, enemy_track_nearby_player, PlayerSighting, PointSample};

verus! {

/// The agent after target acquisition; with no player or no navigation mesh
/// it is unchanged.
pub open spec fn after_targeting(
    e: Enemy,
    player: Option<PlayerSighting>,
    sample: Option<PointSample>,
) -> Enemy {
    match (player, sample) {
        (Some(p), Some(s)) => after_tracking(e, p, s),
        _ => e,
    }
}

/// The agent when gravity is reached in a tick.
pub open spec fn before_gravity(
    e: Enemy,
    player: Option<PlayerSighting>,
    sample: Option<PointSample>,
    hits: Seq<ContactNormal>,
) -> Enemy {
    after_ground_update(after_steering(after_targeting(e, player, sample)), hits)
}

/// The agent after a whole tick of `dt` microseconds.
pub open spec fn after_tick(
    e: Enemy,
    player: Option<PlayerSighting>,
    sample: Option<PointSample>,
    hits: Seq<ContactNormal>,
    dt: int,
) -> Enemy {
    after_gravity(before_gravity(e, player, sample, hits), dt)
}

/// Knockback excludes the other drivers: for an agent under knockback,
/// neither steering nor gravity changes anything, its velocity included.
pub proof fn lemma_knockback_excludes_drivers(e: Enemy, dt: int)
    requires
        e.knockback.is_some(),
    ensures
        after_steering(e) == e,
        facing_after_steering(e).is_none(),
        after_gravity(e, dt) == e,
        after_gravity(after_steering(e), dt).linear_velocity == e.linear_velocity,
{
}

/// Runs one tick over every agent, stage by stage.
///
/// `sample` is the navigation mesh sampled at the player's position (`None`
/// when there is no mesh), `hits[i]` the world-frame probe hits of agent
/// `i`, `dt` the tick's length in microseconds. The result holds, per agent,
/// the facing that steering set.
pub fn run_tick(
    enemies: &mut Vec<Enemy>,
    player: Option<PlayerSighting>,
    sample: Option<PointSample>,
    hits: &Vec<Vec<ContactNormal>>,
    dt: u32,
) -> (r: Vec<Option<Facing>>)
    requires
        hits@.len() == old(enemies)@.len(),
        forall|i: int|
            0 <= i < old(enemies)@.len() ==> gravity_fits(
                before_gravity(#[trigger] old(enemies)@[i], player, sample, hits@[i]@),
                dt as int,
            ),
    ensures
        final(enemies)@.len() == old(enemies)@.len(),
        r@.len() == old(enemies)@.len(),
        forall|i: int|
            0 <= i < old(enemies)@.len() ==> #[trigger] final(enemies)@[i] == after_tick(
                old(enemies)@[i],
                player,
                sample,
                hits@[i]@,
                dt as int,
            ),
        forall|i: int|
            0 <= i < old(enemies)@.len() ==> #[trigger] r@[i] == facing_after_steering(
                after_targeting(old(enemies)@[i], player, sample),
            ),
{
    let ghost start = enemies@;
    enemy_track_nearby_player(enemies, player, sample);
    let ghost targeted = enemies@;
    assert forall|i: int| 0 <= i < start.len() implies #[trigger] targeted[i] == after_targeting(
        start[i],
        player,
        sample,
    ) by {}
    let facings = enemy_move_toward_target(enemies);
    let ghost steered = enemies@;
    update_grounded(enemies, hits);
    assert forall|i: int| 0 <= i < start.len() implies gravity_fits(
        #[trigger] enemies@[i],
        dt as int,
    ) by {
        assert(enemies@[i] == after_ground_update(steered[i], hits@[i]@));
        assert(steered[i] == after_steering(targeted[i]));
        assert(gravity_fits(before_gravity(start[i], player, sample, hits@[i]@), dt as int));
    }
    let ghost grounded = enemies@;
    apply_gravity_system(enemies, dt);
    assert forall|i: int| 0 <= i < start.len() implies #[trigger] enemies@[i] == after_tick(
        start[i],
        player,
        sample,
        hits@[i]@,
        dt as int,
    ) by {
        assert(enemies@[i] == after_gravity(grounded[i], dt as int));
        assert(grounded[i] == after_ground_update(steered[i], hits@[i]@));
        assert(steered[i] == after_steering(targeted[i]));
    }
    facings
}

} // verus!
