//! A descending enemy ship.

use vstd::prelude::*;
use crate::position::Position;

verus! {

/// Width and height of an enemy sprite, in canvas units.
pub const ENEMY_WIDTH: i32 = 216;

pub const ENEMY_HEIGHT: i32 = 216;

/// Distance an enemy travels downward each frame.
pub const ENEMY_SPEED: i32 = 2;

#[derive(Clone, Copy, PartialEq, Eq, Structural, Debug)]
pub struct Enemy {
    pub position: Position,
    pub width: i32,
    pub height: i32,
    pub velocity: i32,
}

impl Enemy {
    /// The sprite size and speed every constructed enemy has.
    pub open spec fn wf(self) -> bool {
        &&& self.width == ENEMY_WIDTH
        &&& self.height == ENEMY_HEIGHT
        &&& self.velocity == ENEMY_SPEED
    }

    /// The enemy one frame of downward movement produces.
    pub open spec fn moved_down(self) -> Enemy {
        Enemy {
            position: Position { x: self.position.x, y: (self.position.y + self.velocity) as i32 },
            ..self
        }
    }

    pub fn new(x: i32, y: i32) -> (e: Enemy)
        ensures
            e.position == (Position { x, y }),
            e.wf(),
    {
        Enemy {
            position: Position::new(x, y),
            width: ENEMY_WIDTH,
            height: ENEMY_HEIGHT,
            velocity: ENEMY_SPEED,
        }
    }

    /// Moves the enemy down by its speed, every frame, unconditionally.
    ///
    /// The bound on `y` only keeps the addition inside `i32`.
    pub fn move_down(&mut self)
        requires
            old(self).position.y + old(self).velocity <= i32::MAX,
            i32::MIN <= old(self).position.y + old(self).velocity,
        ensures
            *final(self) == old(self).moved_down(),
    {
        self.position.y = (self.position.y as i64 + self.velocity as i64) as i32;
    }

    /// Returns an immutable copy of the enemy's position.
    pub fn get_position(&self) -> (p: Position)
        ensures
            p == self.position,
    {
        self.position
    }
}

} // verus!
