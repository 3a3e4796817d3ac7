//! A projectile fired by the player, travelling straight up.

use vstd::prelude::*;
use crate::position::Position;

verus! {

/// Width and height of a bullet sprite, in canvas units.
pub const BULLET_WIDTH: i32 = 90;

pub const BULLET_HEIGHT: i32 = 90;

/// Distance a bullet travels upward each frame.
pub const BULLET_SPEED: u32 = 5;

#[derive(Clone, Copy, PartialEq, Eq, Structural, Debug)]
pub struct Bullet {
    pub position: Position,
    pub width: i32,
    pub height: i32,
    pub velocity: u32,
}

impl Bullet {
    /// The sprite size and speed every constructed bullet has.
    pub open spec fn wf(self) -> bool {
        &&& self.width == BULLET_WIDTH
        &&& self.height == BULLET_HEIGHT
        &&& self.velocity == BULLET_SPEED
    }

    /// The bullet one frame of upward movement produces.
    pub open spec fn moved_up(self) -> Bullet {
        Bullet {
            position: Position { x: self.position.x, y: (self.position.y - self.velocity) as i32 },
            ..self
        }
    }

    pub fn new(x: i32, y: i32) -> (b: Bullet)
        ensures
            b.position == (Position { x, y }),
            b.wf(),
    {
        Bullet {
            position: Position::new(x, y),
            width: BULLET_WIDTH,
            height: BULLET_HEIGHT,
            velocity: BULLET_SPEED,
        }
    }

    /// Moves the bullet up by its speed; never reversed.
    ///
    /// The bound on `y` only keeps the subtraction inside `i32`; the game
    /// does not cull off-screen bullets, so `y` may go negative.
    pub fn move_up(&mut self)
        requires
            i32::MIN + old(self).velocity <= old(self).position.y,
        ensures
            *final(self) == old(self).moved_up(),
    {
        self.position.y = (self.position.y as i64 - self.velocity as i64) as i32;
    }

    /// Returns an immutable copy of the bullet's position.
    pub fn get_position(&self) -> (p: Position)
        ensures
            p == self.position,
    {
        self.position
    }
}

} // verus!
