//! Target acquisition: pick, for each agent, what it should pursue.
use vstd::prelude::*;

use crate::enemy::{AgentTarget, Enemy, EntityId};
use crate::geometry::{within, within_range, Vec3i};

verus! {

/// Distance, in nanometres, within which an agent notices the player.
pub const DETECTION_RANGE: u64 = 5_000_000_000;

/// The player as target acquisition sees it.
#[derive(Clone, Copy, Debug, PartialEq, Eq, Structural)]
pub struct PlayerSighting {
    pub entity: EntityId,
    pub position: Vec3i,
}

/// Result of sampling the navigation mesh at the player's position.
#[derive(Clone, Copy, Debug, PartialEq, Eq, Structural)]
pub enum PointSample {
    /// The nearest walkable point.
    Found(Vec3i),
    /// No walkable point within the search box.
    Failed,
}

/// The target an agent at `agent` takes, given the player and the sample
/// taken at the player's position.
pub open spec fn target_for(agent: Vec3i, player: PlayerSighting, sample: PointSample) -> AgentTarget {
    if within(agent, player.position, DETECTION_RANGE as int) {
        match sample {
            PointSample::Found(p) => AgentTarget::Point(p),
            PointSample::Failed => AgentTarget::Entity(player.entity),
        }
    } else {
        AgentTarget::NoTarget
    }
}

/// The agent after target acquisition: only its target changes.
pub open spec fn after_tracking(e: Enemy, player: PlayerSighting, sample: PointSample) -> Enemy {
    Enemy { target: target_for(e.position, player, sample), ..e }
}

/// Picks the target of one agent.
pub fn choose_target(agent: Vec3i, player: PlayerSighting, sample: PointSample) -> (r: AgentTarget)
    ensures
        r == target_for(agent, player, sample),
{
    if within_range(agent, player.position, DETECTION_RANGE) {
        match sample {
            PointSample::Found(p) => AgentTarget::Point(p),
            PointSample::Failed => AgentTarget::Entity(player.entity),
        }
    } else {
        AgentTarget::NoTarget
    }
}

/// Overwrites every agent's target from the player's position.
///
/// `player` is `None` when no player exists, `sample` is `None` when no
/// navigation mesh exists; either way nothing changes this tick.
pub fn enemy_track_nearby_player(
    enemies: &mut Vec<Enemy>,
    player: Option<PlayerSighting>,
    sample: Option<PointSample>,
)
    ensures
        final(enemies)@.len() == old(enemies)@.len(),
        (player.is_none() || sample.is_none()) ==> final(enemies)@ == old(enemies)@,
        player.is_some() && sample.is_some() ==> forall|i: int|
            0 <= i < old(enemies)@.len() ==> #[trigger] final(enemies)@[i] == after_tracking(
                old(enemies)@[i],
                player.unwrap(),
                sample.unwrap(),
            ),
{
    let (player, sample) = match (player, sample) {
        (Some(p), Some(s)) => (p, s),
        _ => return,
    };
    let n = enemies.len();
    let mut i: usize = 0;
    while i < n
        invariant
            n == enemies@.len(),
            0 <= i <= n,
            forall|j: int| 0 <= j < i ==> #[trigger] enemies@[j] == after_tracking(
                old(enemies)@[j],
                player,
                sample,
            ),
            forall|j: int| i <= j < n ==> #[trigger] enemies@[j] == old(enemies)@[j],
        decreases n - i,
    {
        let mut e = enemies[i];
        e.target = choose_target(e.position, player, sample);
        enemies.set(i, e);
        i += 1;
    }
}

} // verus!
