//! Steering: turn the navigation system's desired velocity into motion.
use vstd::prelude::*;

use crate::enemy::{AgentTarget, Enemy, MovementState};
use crate::geometry::Vec3i;

verus! {

/// A facing given by a horizontal direction `(x, z)`.
///
/// The yaw about the vertical axis that it stands for is
/// `pi / 2 - atan2(z, x)`: the quarter-turn aligns the model's forward axis.
#[derive(Clone, Copy, Debug, PartialEq, Eq, Structural)]
pub struct Facing {
    pub x: i64,
    pub z: i64,
}

/// Whether steering drives this agent at all.
pub open spec fn steerable(e: Enemy) -> bool {
    e.knockback.is_none()
}

/// Whether steering takes the desired velocity and turns the agent.
pub open spec fn pursues(e: Enemy) -> bool {
    steerable(e) && e.state == MovementState::Moving && e.target != AgentTarget::NoTarget
}

/// The agent after steering.
pub open spec fn after_steering(e: Enemy) -> Enemy {
    if !steerable(e) {
        e
    } else if e.state != MovementState::Moving {
        Enemy { linear_velocity: Vec3i { x: 0, z: 0, ..e.linear_velocity }, ..e }
    } else if e.target != AgentTarget::NoTarget {
        Enemy { linear_velocity: e.desired_velocity, ..e }
    } else {
        e
    }
}

/// The facing that steering sets, if it sets one.
pub open spec fn facing_after_steering(e: Enemy) -> Option<Facing> {
    if pursues(e) {
        Some(Facing { x: e.desired_velocity.x, z: e.desired_velocity.z })
    } else {
        None
    }
}

/// An agent that steering drives and that is not moving ends with no
/// horizontal velocity, whatever it had, and keeps its vertical velocity.
pub proof fn lemma_not_moving_stops(e: Enemy)
    requires
        steerable(e),
        e.state != MovementState::Moving,
    ensures
        after_steering(e).linear_velocity.x == 0,
        after_steering(e).linear_velocity.z == 0,
        after_steering(e).linear_velocity.y == e.linear_velocity.y,
        facing_after_steering(e).is_none(),
{
}

/// Steers one agent; returns the facing to turn it to, if any.
pub fn steer(e: &mut Enemy) -> (r: Option<Facing>)
    ensures
        *final(e) == after_steering(*old(e)),
        r == facing_after_steering(*old(e)),
{
    if e.knockback.is_some() {
        return None;
    }
    if e.state != MovementState::Moving {
        e.linear_velocity.x = 0;
        e.linear_velocity.z = 0;
        return None;
    }
    match e.target {
        AgentTarget::NoTarget => None,
        _ => {
            e.linear_velocity = e.desired_velocity;
            Some(Facing { x: e.desired_velocity.x, z: e.desired_velocity.z })
        },
    }
}

/// Steers every agent; the result holds, per agent, the facing to set.
pub fn enemy_move_toward_target(enemies: &mut Vec<Enemy>) -> (r: Vec<Option<Facing>>)
    ensures
        final(enemies)@.len() == old(enemies)@.len(),
        r@.len() == old(enemies)@.len(),
        forall|i: int|
            0 <= i < old(enemies)@.len() ==> #[trigger] final(enemies)@[i] == after_steering(
                old(enemies)@[i],
            ),
        forall|i: int|
            0 <= i < old(enemies)@.len() ==> #[trigger] r@[i] == facing_after_steering(
                old(enemies)@[i],
            ),
{
    let n = enemies.len();
    let mut facings: Vec<Option<Facing>> = Vec::new();
    let mut i: usize = 0;
    while i < n
        invariant
            n == enemies@.len(),
            0 <= i <= n,
            facings@.len() == i,
            forall|j: int| 0 <= j < i ==> #[trigger] enemies@[j] == after_steering(old(enemies)@[j]),
            forall|j: int| 0 <= j < i ==> #[trigger] facings@[j] == facing_after_steering(
                old(enemies)@[j],
            ),
            forall|j: int| i <= j < n ==> #[trigger] enemies@[j] == old(enemies)@[j],
        decreases n - i,
    {
        let mut e = enemies[i];
        let f = steer(&mut e);
        enemies.set(i, e);
        facings.push(f);
        i += 1;
    }
    facings
}

} // verus!
