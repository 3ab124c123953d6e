//! The record of one navigation-driven enemy agent.
use vstd::prelude::*;

use crate::geometry::Vec3i;

verus! {

/// Opaque handle of an entity in the world.
pub type EntityId = u64;

/// What the navigation system reports about an agent's progress.
#[derive(Clone, Copy, Debug, PartialEq, Eq, Structural)]
pub enum MovementState {
    Idle,
    ReachedTarget,
    ReachedAnimationLink,
    UsingAnimationLink,
    Moving,
    AgentNotOnNavMesh,
    TargetNotOnNavMesh,
    NoPath,
    Paused,
}

/// Where an agent is heading.
#[derive(Clone, Copy, Debug, PartialEq, Eq, Structural)]
pub enum AgentTarget {
    NoTarget,
    Point(Vec3i),
    Entity(EntityId),
}

/// How the physics engine moves a body.
#[derive(Clone, Copy, Debug, PartialEq, Eq, Structural)]
pub enum BodyKind {
    Dynamic,
    Kinematic,
    Static,
}

/// A temporary velocity override: while present, steering and gravity
/// leave the agent alone.
#[derive(Clone, Copy, Debug, PartialEq, Eq, Structural)]
pub struct Knockback {
    /// Velocity imposed, in nanometres per second.
    pub velocity: Vec3i,
    /// Time left, in microseconds.
    pub remaining_time: u64,
}

/// Marks an agent whose ground probe found a supporting surface.
#[derive(Clone, Copy, Debug, PartialEq, Eq, Structural)]
pub struct Grounded;

/// One enemy agent, as the per-tick pipeline sees it.
#[derive(Clone, Copy, Debug, PartialEq, Eq, Structural)]
pub struct Enemy {
    pub position: Vec3i,
    pub state: MovementState,
    pub target: AgentTarget,
    /// Velocity that the navigation system asks for.
    pub desired_velocity: Vec3i,
    pub linear_velocity: Vec3i,
    pub body: BodyKind,
    pub grounded: Option<Grounded>,
    pub knockback: Option<Knockback>,
}

impl Enemy {
    /// A freshly spawned agent: at rest, idle, without a target, airborne.
    pub fn spawn(position: Vec3i, body: BodyKind) -> (r: Enemy)
        ensures
            r.position == position,
            r.body == body,
            r.state == MovementState::Idle,
            r.target == AgentTarget::NoTarget,
            r.desired_velocity == (Vec3i { x: 0, y: 0, z: 0 }),
            r.linear_velocity == (Vec3i { x: 0, y: 0, z: 0 }),
            r.grounded.is_none(),
            r.knockback.is_none(),
    {
        Enemy {
            position,
            state: MovementState::Idle,
            target: AgentTarget::NoTarget,
            desired_velocity: Vec3i::zero(),
            linear_velocity: Vec3i::zero(),
            body,
            grounded: None,
            knockback: None,
        }
    }

    pub fn is_knocked_back(&self) -> (r: bool)
        ensures
            r == self.knockback.is_some(),
    {
        self.knockback.is_some()
    }

    pub fn is_grounded(&self) -> (r: bool)
        ensures
            r == self.grounded.is_some(),
    {
        self.grounded.is_some()
    }
}

} // verus!
