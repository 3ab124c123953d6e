//! Checkpoints and the respawn transition.
use vstd::prelude::*;

use crate::geometry::Vec3i;

verus! {

/// Health of a player in full health.
pub const FULL_HEALTH: u32 = 100;

/// Height, in nanometres, above the checkpoint at which a player respawns.
pub const RESPAWN_LIFT: i64 = 1_000_000_000;

/// The player's kinematic and gameplay state.
#[derive(Clone, Copy, Debug, PartialEq, Eq, Structural)]
pub struct Player {
    pub position: Vec3i,
    pub linear_velocity: Vec3i,
    pub health: u32,
}

/// A respawn location; `active` marks the one the player returns to.
#[derive(Clone, Copy, Debug, PartialEq, Eq, Structural)]
pub struct Checkpoint {
    pub position: Vec3i,
    pub active: bool,
}

/// Why a dead player could not be respawned.
#[derive(Clone, Copy, Debug, PartialEq, Eq, Structural)]
pub enum RespawnError {
    NoActiveCheckpoint,
    SeveralActiveCheckpoints,
}

/// What the respawn transition did.
#[derive(Clone, Copy, Debug, PartialEq, Eq, Structural)]
pub enum Respawn {
    /// The player was alive: nothing changed.
    AlreadyAlive,
    /// The player was reset at the active checkpoint.
    Respawned,
}

pub open spec fn alive(p: Player) -> bool {
    p.health > 0
}

/// Number of active checkpoints among the first `n`.
pub open spec fn active_count(cps: Seq<Checkpoint>, n: int) -> int
    decreases n,
{
    if n <= 0 {
        0
    } else {
        active_count(cps, n - 1) + if cps[n - 1].active { 1int } else { 0int }
    }
}

/// The state a respawned player takes at a checkpoint at `at`.
pub open spec fn respawned_at(at: Vec3i) -> Player {
    Player {
        position: Vec3i { y: (at.y + RESPAWN_LIFT) as i64, ..at },
        linear_velocity: Vec3i { x: 0, y: 0, z: 0 },
        health: FULL_HEALTH,
    }
}

impl Player {
    /// A player in full health, at rest at `position`.
    pub fn new(position: Vec3i) -> (r: Player)
        ensures
            r == (Player { position, linear_velocity: Vec3i { x: 0, y: 0, z: 0 }, health: FULL_HEALTH }),
    {
        Player { position, linear_velocity: Vec3i::zero(), health: FULL_HEALTH }
    }

    pub fn is_alive(&self) -> (r: bool)
        ensures
            r == alive(*self),
    {
        self.health > 0
    }
}

/// Finds the single active checkpoint.
pub fn find_active(cps: &Vec<Checkpoint>) -> (r: Result<usize, RespawnError>)
    ensures
        active_count(cps@, cps@.len() as int) == 0 <==> r == Err::<usize, RespawnError>(
            RespawnError::NoActiveCheckpoint,
        ),
        active_count(cps@, cps@.len() as int) > 1 <==> r == Err::<usize, RespawnError>(
            RespawnError::SeveralActiveCheckpoints,
        ),
        r.is_ok() ==> active_count(cps@, cps@.len() as int) == 1 && cps@[r->Ok_0 as int].active
            && r->Ok_0 < cps@.len(),
{
    let mut found: Option<usize> = None;
    let mut i: usize = 0;
    while i < cps.len()
        invariant
            0 <= i <= cps@.len(),
            active_count(cps@, i as int) == 0 <==> found.is_none(),
            active_count(cps@, i as int) <= 1,
            found.is_some() ==> found.unwrap() < i && cps@[found.unwrap() as int].active,
        decreases cps@.len() - i,
    {
        proof { lemma_count_nonneg(cps@, i as int); }
        if cps[i].active {
            if found.is_some() {
                proof { lemma_count_grows(cps@, (i + 1) as int, cps@.len() as int); }
                return Err(RespawnError::SeveralActiveCheckpoints);
            }
            found = Some(i);
        }
        i += 1;
    }
    proof { lemma_count_nonneg(cps@, i as int); }
    match found {
        Some(k) => Ok(k),
        None => Err(RespawnError::NoActiveCheckpoint),
    }
}

proof fn lemma_count_nonneg(cps: Seq<Checkpoint>, n: int)
    ensures
        active_count(cps, n) >= 0,
    decreases n,
{
    if n > 0 {
        lemma_count_nonneg(cps, n - 1);
    }
}

proof fn lemma_count_grows(cps: Seq<Checkpoint>, m: int, n: int)
    requires
        0 <= m <= n,
    ensures
        active_count(cps, m) <= active_count(cps, n),
    decreases n - m,
{
    if m < n {
        lemma_count_grows(cps, m, n - 1);
    }
}

proof fn lemma_two_active(cps: Seq<Checkpoint>, a: int, b: int)
    requires
        0 <= a < b < cps.len(),
        cps[a].active,
        cps[b].active,
    ensures
        active_count(cps, cps.len() as int) >= 2,
{
    lemma_count_nonneg(cps, a);
    lemma_count_grows(cps, a + 1, b);
    lemma_count_grows(cps, b + 1, cps.len() as int);
}

/// A respawned player is alive, so running the transition again right
/// after a respawn changes nothing.
pub proof fn lemma_respawn_settles(at: Vec3i)
    requires
        at.y + RESPAWN_LIFT <= i64::MAX,
    ensures
        alive(respawned_at(at)),
        respawned_at(at).position == (Vec3i { x: at.x, y: (at.y + 1_000_000_000) as i64, z: at.z }),
        respawned_at(at).linear_velocity == (Vec3i { x: 0, y: 0, z: 0 }),
{
}

/// The respawn transition, run when play resumes.
///
/// A living player is left as is. A dead player is reset to full health, at
/// rest, one unit above the single active checkpoint; with no active
/// checkpoint, or several, the player is left as is and the error says why.
pub fn respawn_at_checkpoint(player: &mut Player, cps: &Vec<Checkpoint>) -> (r: Result<
    Respawn,
    RespawnError,
>)
    requires
        forall|i: int|
            0 <= i < cps@.len() && (#[trigger] cps@[i]).active ==> cps@[i].position.y
                + RESPAWN_LIFT <= i64::MAX,
    ensures
        alive(*old(player)) ==> r == Ok::<Respawn, RespawnError>(Respawn::AlreadyAlive)
            && *final(player) == *old(player),
        !alive(*old(player)) && active_count(cps@, cps@.len() as int) == 0 ==> r == Err::<
            Respawn,
            RespawnError,
        >(RespawnError::NoActiveCheckpoint) && *final(player) == *old(player),
        !alive(*old(player)) && active_count(cps@, cps@.len() as int) > 1 ==> r == Err::<
            Respawn,
            RespawnError,
        >(RespawnError::SeveralActiveCheckpoints) && *final(player) == *old(player),
        !alive(*old(player)) && active_count(cps@, cps@.len() as int) == 1 ==> r == Ok::<
            Respawn,
            RespawnError,
        >(Respawn::Respawned) && forall|k: int|
            0 <= k < cps@.len() && (#[trigger] cps@[k]).active ==> *final(player) == respawned_at(
                cps@[k].position,
            ),
{
    if player.is_alive() {
        return Ok(Respawn::AlreadyAlive);
    }
    let k = match find_active(cps) {
        Ok(k) => k,
        Err(e) => return Err(e),
    };
    proof {
        assert forall|j: int| 0 <= j < cps@.len() && (#[trigger] cps@[j]).active implies j
            == k by {
            if j < k {
                lemma_two_active(cps@, j, k as int);
            } else if j > k {
                lemma_two_active(cps@, k as int, j);
            }
        }
    }
    let at = cps[k].position;
    player.health = FULL_HEALTH;
    player.linear_velocity = Vec3i::zero();
    player.position = Vec3i { x: at.x, y: at.y + RESPAWN_LIFT, z: at.z };
    Ok(Respawn::Respawned)
}

} // verus!
