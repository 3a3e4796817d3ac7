//! The player's ship: bounded horizontal movement and a floor-clamped life
//! counter.

use vstd::prelude::*;
use crate::position::Position;

verus! {

/// Width and height of the player sprite, in canvas units.
pub const PLAYER_WIDTH: i32 = 180;

pub const PLAYER_HEIGHT: i32 = 180;

/// Distance the player moves per left/right command.
pub const PLAYER_STEP: u32 = 30;

/// Life count a new player starts with.
pub const PLAYER_START_LIFE: u32 = 3;

#[derive(Clone, Copy, PartialEq, Eq, Structural, Debug)]
pub struct Player {
    pub position: Position,
    pub width: i32,
    pub height: i32,
    pub life: u32,
    pub velocity: u32,
}

/// One application of the life decrement: down by one, clamped at zero.
pub open spec fn decreased_life(life: u32) -> u32 {
    if life > 0 {
        (life - 1) as u32
    } else {
        0u32
    }
}

/// The life counter after `n` successive decrements of `life`.
pub open spec fn life_after_decreases(life: u32, n: nat) -> u32
    decreases n,
{
    if n == 0 {
        life
    } else {
        decreased_life(life_after_decreases(life, (n - 1) as nat))
    }
}

/// The life counter after absorbing `hits` collisions: plain subtraction with
/// a floor at zero.
pub open spec fn life_after_hits(life: u32, hits: nat) -> u32 {
    if life >= hits {
        (life - hits) as u32
    } else {
        0u32
    }
}

/// Repeated decrements behave as floored subtraction. In particular, once
/// the life counter reaches zero, every further decrement leaves it at zero.
pub proof fn lemma_life_floor(life: u32, n: nat)
    ensures
        life_after_decreases(life, n) == life_after_hits(life, n),
        n >= life ==> life_after_decreases(life, n) == 0,
    decreases n,
{
    if n > 0 {
        lemma_life_floor(life, (n - 1) as nat);
    }
}

impl Player {
    /// The sprite size, step width and life bound every constructed player
    /// has and every mutation preserves.
    pub open spec fn wf(self) -> bool {
        &&& self.width == PLAYER_WIDTH
        &&& self.height == PLAYER_HEIGHT
        &&& self.velocity == PLAYER_STEP
        &&& self.life <= PLAYER_START_LIFE
    }

    /// The player after one left-move command: shifted left by the step
    /// width, unless the sprite's left half already touches the canvas edge.
    pub open spec fn moved_left(self) -> Player {
        if self.position.x > self.width / 2 {
            Player {
                position: Position {
                    x: (self.position.x - self.velocity) as i32,
                    y: self.position.y,
                },
                ..self
            }
        } else {
            self
        }
    }

    /// The player after one right-move command: shifted right by the step
    /// width, unless the sprite's right half already touches the canvas edge.
    pub open spec fn moved_right(self, canvas_width: i32) -> Player {
        if self.position.x < canvas_width - self.width / 2 {
            Player {
                position: Position {
                    x: (self.position.x + self.velocity) as i32,
                    y: self.position.y,
                },
                ..self
            }
        } else {
            self
        }
    }

    pub fn new(x: i32, y: i32) -> (p: Player)
        ensures
            p.position == (Position { x, y }),
            p.life == PLAYER_START_LIFE,
            p.wf(),
    {
        Player {
            position: Position::new(x, y),
            width: PLAYER_WIDTH,
            height: PLAYER_HEIGHT,
            life: PLAYER_START_LIFE,
            velocity: PLAYER_STEP,
        }
    }

    /// Decrements the life counter by one; a no-op at zero (idempotent
    /// floor), never an error.
    pub fn decrease_life(&mut self)
        ensures
            final(self).life == decreased_life(old(self).life),
            final(self).position == old(self).position,
            final(self).width == old(self).width,
            final(self).height == old(self).height,
            final(self).velocity == old(self).velocity,
    {
        if self.life > 0 {
            self.life = self.life - 1;
        }
    }

    /// Returns the current life count.
    pub fn get_life(&self) -> (life: u32)
        ensures
            life == self.life,
    {
        self.life
    }

    /// Returns an immutable copy of the player's position.
    pub fn get_position(&self) -> (p: Position)
        ensures
            p == self.position,
    {
        self.position
    }

    /// Moves left by the step width if the sprite's left edge stays on the
    /// canvas at the current position; silently clamped otherwise.
    ///
    /// `canvas_width` is unused: the left bound is the canvas edge at zero.
    #[allow(unused_variables)]
    pub fn move_left(&mut self, canvas_width: i32)
        requires
            old(self).wf(),
        ensures
            *final(self) == old(self).moved_left(),
            final(self).wf(),
    {
        if self.position.x > self.width / 2 {
            self.position.x = self.position.x - self.velocity as i32;
        }
    }

    /// Moves right by the step width if the sprite's right edge stays on the
    /// canvas at the current position; silently clamped otherwise.
    pub fn move_right(&mut self, canvas_width: i32)
        requires
            old(self).wf(),
            0 <= canvas_width,
        ensures
            *final(self) == old(self).moved_right(canvas_width),
            final(self).wf(),
    {
        if self.position.x < canvas_width - self.width / 2 {
            self.position.x = self.position.x + self.velocity as i32;
        }
    }
}

/// The player's bounding box lies inside the canvas span `[0, canvas_width]`.
pub open spec fn box_within(p: Player, canvas_width: int) -> bool {
    &&& 0 <= p.position.x - p.width / 2
    &&& p.position.x + p.width / 2 <= canvas_width
}

/// A left move keeps the bounding box inside `[0, canvas_width]`, provided
/// the margin left of the sprite is not smaller than the step width. (When
/// the margin is positive but smaller than the step, the clamped move itself
/// overshoots the edge; those starting positions are excluded.)
pub proof fn lemma_move_left_keeps_box(p: Player, canvas_width: int)
    requires
        p.wf(),
        box_within(p, canvas_width),
        p.position.x > p.width / 2 ==> p.position.x - p.velocity >= p.width / 2,
    ensures
        box_within(p.moved_left(), canvas_width),
{
}

/// A right move keeps the bounding box inside `[0, canvas_width]`, provided
/// the margin right of the sprite is not smaller than the step width. (When
/// the margin is positive but smaller than the step, the clamped move itself
/// overshoots the edge; those starting positions are excluded.)
pub proof fn lemma_move_right_keeps_box(p: Player, canvas_width: i32)
    requires
        p.wf(),
        box_within(p, canvas_width as int),
        p.position.x < canvas_width - p.width / 2 ==> p.position.x + p.velocity + p.width / 2
            <= canvas_width,
    ensures
        box_within(p.moved_right(canvas_width), canvas_width as int),
{
}

} // verus!
