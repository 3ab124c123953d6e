//! Ground contact: classify an agent as grounded from its probe's hits.
use vstd::prelude::*;

use crate::enemy::{Enemy, Grounded};

verus! {

/// Surface normal of one probe hit, already rotated into the world frame,
/// in fixed point (a unit normal scaled by about a billion fits).
#[derive(Clone, Copy, Debug, PartialEq, Eq, Structural)]
pub struct ContactNormal {
    pub x: i32,
    pub y: i32,
    pub z: i32,
}

/// Squared cosine of the tolerance angle (0.1 rad), as a fraction:
/// numerator.
pub const SUPPORT_COS_SQ_NUM: u64 = 990_033;

/// Squared cosine of the tolerance angle (0.1 rad), as a fraction:
/// denominator.
pub const SUPPORT_COS_SQ_DEN: u64 = 1_000_000;

/// Whether a hit supports the agent: the reversed normal points up, within
/// the tolerance angle of the world's up axis (its cosine with up, squared,
/// is at least the fraction above).
pub open spec fn supports(n: ContactNormal) -> bool {
    let up = -(n.y as int);
    &&& up > 0
    &&& SUPPORT_COS_SQ_DEN * (up * up) >= SUPPORT_COS_SQ_NUM * (n.x * n.x + n.y * n.y + n.z * n.z)
}

/// Whether any hit of the set supports the agent.
pub open spec fn grounded_by(hits: Seq<ContactNormal>) -> bool {
    exists|i: int| 0 <= i < hits.len() && supports(#[trigger] hits[i])
}

/// The agent after ground classification: agents under knockback keep
/// their marker as it was.
pub open spec fn after_ground_update(e: Enemy, hits: Seq<ContactNormal>) -> Enemy {
    if e.knockback.is_some() {
        e
    } else if grounded_by(hits) {
        Enemy { grounded: Some(Grounded), ..e }
    } else {
        Enemy { grounded: None, ..e }
    }
}

/// Classification depends on the hits alone: two agents that steering and
/// gravity drive end with the same marker from the same hits, whatever they
/// held before, and classifying again from the same hits changes nothing.
pub proof fn lemma_ground_update_pure(e1: Enemy, e2: Enemy, hits: Seq<ContactNormal>)
    requires
        e1.knockback.is_none(),
        e2.knockback.is_none(),
    ensures
        after_ground_update(e1, hits).grounded == after_ground_update(e2, hits).grounded,
        after_ground_update(after_ground_update(e1, hits), hits) == after_ground_update(e1, hits),
        after_ground_update(e1, hits).grounded.is_some() == grounded_by(hits),
{
}

/// Whether one hit supports the agent.
pub fn is_support(n: ContactNormal) -> (r: bool)
    ensures
        r == supports(n),
{
    let x: i128 = n.x as i128;
    let y: i128 = n.y as i128;
    let z: i128 = n.z as i128;
    let up: i128 = -y;
    assert(0 <= x * x <= 0x4000_0000_0000_0000) by (nonlinear_arith)
        requires -0x8000_0000 <= x <= 0x8000_0000;
    assert(0 <= y * y <= 0x4000_0000_0000_0000) by (nonlinear_arith)
        requires -0x8000_0000 <= y <= 0x8000_0000;
    assert(0 <= z * z <= 0x4000_0000_0000_0000) by (nonlinear_arith)
        requires -0x8000_0000 <= z <= 0x8000_0000;
    assert(up * up == y * y) by (nonlinear_arith)
        requires up == -y;
    let norm_sq: i128 = x * x + y * y + z * z;
    let num: i128 = SUPPORT_COS_SQ_NUM as i128;
    let den: i128 = SUPPORT_COS_SQ_DEN as i128;
    assert(0 <= den * (up * up) <= 1_000_000 * 0x4000_0000_0000_0000) by (nonlinear_arith)
        requires den == 1_000_000, 0 <= up * up <= 0x4000_0000_0000_0000;
    assert(0 <= num * norm_sq <= 1_000_000 * 0xC000_0000_0000_0000) by (nonlinear_arith)
        requires num == 990_033, 0 <= norm_sq <= 0xC000_0000_0000_0000;
    up > 0 && den * (up * up) >= num * norm_sq
}

/// Whether any hit of the set supports the agent.
pub fn is_grounded(hits: &Vec<ContactNormal>) -> (r: bool)
    ensures
        r == grounded_by(hits@),
{
    let mut i: usize = 0;
    while i < hits.len()
        invariant
            0 <= i <= hits@.len(),
            forall|j: int| 0 <= j < i ==> !supports(#[trigger] hits@[j]),
        decreases hits@.len() - i,
    {
        if is_support(hits[i]) {
            return true;
        }
        i += 1;
    }
    false
}

/// Sets or clears one agent's grounded marker from this tick's hits.
pub fn update_grounded_one(e: &mut Enemy, hits: &Vec<ContactNormal>)
    ensures
        *final(e) == after_ground_update(*old(e), hits@),
{
    if e.knockback.is_some() {
        return;
    }
    if is_grounded(hits) {
        e.grounded = Some(Grounded);
    } else {
        e.grounded = None;
    }
}

/// Classifies every agent; `hits[i]` holds the hits of agent `i`'s probe.
pub fn update_grounded(enemies: &mut Vec<Enemy>, hits: &Vec<Vec<ContactNormal>>)
    requires
        hits@.len() == old(enemies)@.len(),
    ensures
        final(enemies)@.len() == old(enemies)@.len(),
        forall|i: int|
            0 <= i < old(enemies)@.len() ==> #[trigger] final(enemies)@[i] == after_ground_update(
                old(enemies)@[i],
                hits@[i]@,
            ),
{
    let n = enemies.len();
    let mut i: usize = 0;
    while i < n
        invariant
            n == enemies@.len(),
            n == hits@.len(),
            0 <= i <= n,
            forall|j: int| 0 <= j < i ==> #[trigger] enemies@[j] == after_ground_update(
                old(enemies)@[j],
                hits@[j]@,
            ),
            forall|j: int| i <= j < n ==> #[trigger] enemies@[j] == old(enemies)@[j],
        decreases n - i,
    {
        let mut e = enemies[i];
        update_grounded_one(&mut e, &hits[i]);
        enemies.set(i, e);
        i += 1;
    }
}

} // verus!
