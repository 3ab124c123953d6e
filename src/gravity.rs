//! Vertical dynamics: gravity on airborne dynamic agents.
use vstd::prelude::*;

use crate::enemy::{BodyKind, Enemy};
use crate::geometry::Vec3i;

verus! {

/// Gravity, 9.81 m/s^2, as nanometres per second gained each microsecond.
pub const GRAVITY_PER_MICROSECOND: i64 = 9810;

/// Change of vertical velocity over `dt` microseconds.
pub open spec fn gravity_delta(dt: int) -> int {
    -(GRAVITY_PER_MICROSECOND as int) * dt
}

/// Whether gravity acts on the agent: a dynamic body, not knocked back,
/// not grounded.
pub open spec fn falls(e: Enemy) -> bool {
    e.body == BodyKind::Dynamic && e.knockback.is_none() && e.grounded.is_none()
}

/// Whether `dt` microseconds of gravity keep the agent's vertical velocity
/// representable.
pub open spec fn gravity_fits(e: Enemy, dt: int) -> bool {
    falls(e) ==> i64::MIN <= e.linear_velocity.y + gravity_delta(dt)
}

/// The agent after `dt` microseconds of gravity.
pub open spec fn after_gravity(e: Enemy, dt: int) -> Enemy {
    if falls(e) {
        Enemy {
            linear_velocity: Vec3i {
                y: (e.linear_velocity.y + gravity_delta(dt)) as i64,
                ..e.linear_velocity
            },
            ..e
        }
    } else {
        e
    }
}

/// Gravity is linear in elapsed time: twice the tick gives twice the change
/// of vertical velocity.
pub proof fn lemma_gravity_linear(e: Enemy, dt: int)
    requires
        dt >= 0,
        falls(e),
        gravity_fits(e, 2 * dt),
    ensures
        gravity_fits(e, dt),
        after_gravity(e, 2 * dt).linear_velocity.y - e.linear_velocity.y == 2 * (after_gravity(
            e,
            dt,
        ).linear_velocity.y - e.linear_velocity.y),
{
}

/// Whether `dt` microseconds of gravity keep the agent's vertical velocity
/// representable.
pub fn gravity_would_fit(e: &Enemy, dt: u32) -> (r: bool)
    ensures
        r == gravity_fits(*e, dt as int),
{
    if e.body == BodyKind::Dynamic && e.knockback.is_none() && e.grounded.is_none() {
        e.linear_velocity.y as i128 - (GRAVITY_PER_MICROSECOND as i128) * (dt as i128)
            >= i64::MIN as i128
    } else {
        true
    }
}

/// Applies `dt` microseconds of gravity to one agent.
pub fn apply_gravity(e: &mut Enemy, dt: u32)
    requires
        gravity_fits(*old(e), dt as int),
    ensures
        *final(e) == after_gravity(*old(e), dt as int),
{
    if e.body == BodyKind::Dynamic && e.knockback.is_none() && e.grounded.is_none() {
        e.linear_velocity.y = e.linear_velocity.y - GRAVITY_PER_MICROSECOND * (dt as i64);
    }
}

/// Applies `dt` microseconds of gravity to every agent.
pub fn apply_gravity_system(enemies: &mut Vec<Enemy>, dt: u32)
    requires
        forall|i: int| 0 <= i < old(enemies)@.len() ==> gravity_fits(#[trigger] old(enemies)@[i], dt as int),
    ensures
        final(enemies)@.len() == old(enemies)@.len(),
        forall|i: int|
            0 <= i < old(enemies)@.len() ==> #[trigger] final(enemies)@[i] == after_gravity(
                old(enemies)@[i],
                dt as int,
            ),
{
    let n = enemies.len();
    let mut i: usize = 0;
    while i < n
        invariant
            n == enemies@.len(),
            0 <= i <= n,
            forall|j: int| 0 <= j < n ==> gravity_fits(#[trigger] old(enemies)@[j], dt as int),
            forall|j: int| 0 <= j < i ==> #[trigger] enemies@[j] == after_gravity(old(enemies)@[j], dt as int),
            forall|j: int| i <= j < n ==> #[trigger] enemies@[j] == old(enemies)@[j],
        decreases n - i,
    {
        let mut e = enemies[i];
        apply_gravity(&mut e, dt);
        enemies.set(i, e);
        i += 1;
    }
}

} // verus!
