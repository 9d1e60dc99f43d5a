//! The tagged entity records of the simulation: the player ship, the enemy
//! archetypes, and shots, each sharing a plane position.

use vstd::prelude::*;

use crate::geom::Vec2i;
use crate::CULL_X;
use crate::CULL_Y;
use crate::DRILL_SPAWN_Y;
use crate::HALF_X;
use crate::HALF_Y;
use crate::PLAYER_SPEED;
use crate::VEL_LIMIT;

verus! {

/// The enemy archetypes. Regular and meteor enemies drift with a constant
/// velocity; a drill carries none and recomputes a homing step every tick.
#[derive(Clone, Copy, PartialEq, Eq, Structural, Debug)]
pub enum EnemyKind {
    Regular { vel: Vec2i },
    Meteor { vel: Vec2i },
    Drill,
}

/// The kind-specific payload of an entity.
#[derive(Clone, Copy, PartialEq, Eq, Structural, Debug)]
pub enum EntityData {
    Player { speed: i64 },
    Enemy { kind: EnemyKind },
    Shot { vel: Vec2i },
}

/// A live game object: a shared transform plus its kind-specific payload.
#[derive(Clone, Copy, PartialEq, Eq, Structural, Debug)]
pub struct Entity {
    pub pos: Vec2i,
    pub data: EntityData,
}

impl Entity {
    pub open spec fn is_player(self) -> bool {
        self.data is Player
    }

    pub open spec fn is_enemy(self) -> bool {
        self.data is Enemy
    }

    pub open spec fn is_shot(self) -> bool {
        self.data is Shot
    }

    pub open spec fn is_drill(self) -> bool {
        self.data matches EntityData::Enemy { kind: EnemyKind::Drill }
    }

    /// Whether this entity moves by a stored constant velocity: shots and
    /// the non-homing enemy archetypes.
    pub open spec fn is_linear(self) -> bool {
        match self.data {
            EntityData::Player { .. } => false,
            EntityData::Enemy { kind } => !(kind is Drill),
            EntityData::Shot { .. } => true,
        }
    }

    /// The stored constant velocity of a linear-moving entity.
    pub open spec fn linear_vel(self) -> Vec2i
        recommends
            self.is_linear(),
    {
        match self.data {
            EntityData::Player { .. } => Vec2i { x: 0, y: 0 },
            EntityData::Enemy { kind } => match kind {
                EnemyKind::Regular { vel } => vel,
                EnemyKind::Meteor { vel } => vel,
                EnemyKind::Drill => Vec2i { x: 0, y: 0 },
            },
            EntityData::Shot { vel } => vel,
        }
    }

    /// The positional and velocity bounds every live entity obeys, with
    /// `slack` extra room on linear movers: mid-tick, after integration and
    /// before culling, a linear mover may overshoot the culling limits by
    /// one velocity step.
    pub open spec fn ok_with_slack(self, slack: int) -> bool {
        match self.data {
            EntityData::Player { speed } => {
                &&& 0 <= speed <= PLAYER_SPEED
                &&& -HALF_X - speed <= self.pos.x <= HALF_X + speed
                &&& -HALF_Y - speed <= self.pos.y <= HALF_Y + speed
            },
            EntityData::Enemy { kind: EnemyKind::Drill } => {
                &&& -HALF_X <= self.pos.x <= HALF_X
                &&& -HALF_Y <= self.pos.y <= DRILL_SPAWN_Y
            },
            _ => {
                &&& -CULL_X - slack <= self.pos.x <= CULL_X + slack
                &&& -CULL_Y - slack <= self.pos.y <= CULL_Y + slack
                &&& -VEL_LIMIT <= self.linear_vel().x <= VEL_LIMIT
                &&& -VEL_LIMIT <= self.linear_vel().y <= VEL_LIMIT
            },
        }
    }

    /// The bounds every live entity obeys at a tick boundary.
    pub open spec fn ok(self) -> bool {
        self.ok_with_slack(0)
    }
}

} // verus!
