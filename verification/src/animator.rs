//! Periodic sprite animation over the fixed portrait canvas.
//!
//! Each tick renders the sprite at its current offset, erases the strip the
//! sprite swept since the previous tick -- only the trailing edge needs
//! repainting, a rectangle one step wide on the side the sprite moved away
//! from -- then advances the horizontal offset by the step size, reversing
//! the step's sign when the sprite reaches either horizontal margin. The
//! drawing itself happens at the edge; a tick returns the plan of what to
//! draw.

use vstd::prelude::*;

verus! {

/// Canvas width in pixels.
pub const LCD_W: i32 = 240;

/// Canvas height in pixels.
pub const LCD_H: i32 = 240;

/// Sprite width in pixels.
pub const FERRIS_W: i32 = 86;

/// Sprite height in pixels.
pub const FERRIS_H: i32 = 64;

/// Margin kept free at either side of the canvas.
pub const MARGIN: i32 = 10;

/// Largest horizontal offset before the sprite touches the right margin.
pub const X_BOUNCE_LIMIT: i32 = 144;

/// An axis-aligned rectangle given by two corner points.
#[derive(Clone, Copy, PartialEq, Eq, Structural, Debug)]
pub struct Rect {
    pub x0: i32,
    pub y0: i32,
    pub x1: i32,
    pub y1: i32,
}

/// What one animation tick asks the display edge to draw: the sprite at its
/// position, then a background-colored rectangle over the strip swept since
/// the last tick.
#[derive(Clone, Copy, PartialEq, Eq, Structural, Debug)]
pub struct FramePlan {
    pub sprite_x: i32,
    pub sprite_y: i32,
    pub erase: Rect,
}

/// Sprite position and velocity, mutated each animation tick.
pub struct Animator {
    /// Horizontal offset of the sprite's left edge.
    pub x_offset: i32,
    /// Vertical offset of the sprite's top edge; the sprite only moves
    /// horizontally.
    pub y_offset: i32,
    /// Signed horizontal movement per tick.
    pub step_size: i32,
}

/// The strip to erase behind the sprite: one step wide, on the left side
/// when moving right and on the right side when moving left.
pub open spec fn spec_erase_rect(x: int, y: int, step: int) -> Rect {
    if step > 0 {
        Rect { x0: (x - step) as i32, y0: y as i32, x1: x as i32, y1: (y + FERRIS_H) as i32 }
    } else {
        Rect {
            x0: (x + FERRIS_W) as i32,
            y0: y as i32,
            x1: (x + FERRIS_W - step) as i32,
            y1: (y + FERRIS_H) as i32,
        }
    }
}

/// The sprite has reached a horizontal margin and the step reverses.
pub open spec fn spec_bounces(x: int) -> bool {
    x > X_BOUNCE_LIMIT || x < MARGIN
}

impl Animator {
    /// The sprite moves two pixels per tick, stays within the canvas
    /// vertically, and sits in the horizontal band the bounce logic keeps
    /// it in: one step past either margin at most, and never past the
    /// margin it is moving away from.
    pub open spec fn wf(self) -> bool {
        &&& 0 <= self.y_offset <= LCD_H - FERRIS_H
        &&& (self.step_size == 2 || self.step_size == -2)
        &&& (self.step_size == 2 ==> MARGIN <= self.x_offset <= X_BOUNCE_LIMIT + 2)
        &&& (self.step_size == -2 ==> MARGIN - 2 <= self.x_offset <= X_BOUNCE_LIMIT)
    }

    /// The animation as it starts: sprite at the left margin, mid-canvas,
    /// moving right.
    pub fn new() -> (a: Animator)
        ensures
            a.wf(),
            a.x_offset == 10,
            a.y_offset == 80,
            a.step_size == 2,
    {
        Animator { x_offset: 10, y_offset: 80, step_size: 2 }
    }

    /// One animation tick: plan the redraw for the current position, then
    /// reverse the step at either margin and advance the offset.
    pub fn tick(&mut self) -> (plan: FramePlan)
        requires
            old(self).wf(),
        ensures
            final(self).wf(),
            plan.sprite_x == old(self).x_offset,
            plan.sprite_y == old(self).y_offset,
            plan.erase == spec_erase_rect(
                old(self).x_offset as int,
                old(self).y_offset as int,
                old(self).step_size as int,
            ),
            final(self).step_size == (if spec_bounces(old(self).x_offset as int) {
                -old(self).step_size
            } else {
                old(self).step_size as int
            }),
            final(self).x_offset == old(self).x_offset + final(self).step_size,
            final(self).y_offset == old(self).y_offset,
    {
        let x = self.x_offset;
        let y = self.y_offset;
        let step = self.step_size;

        let erase = if step > 0 {
            Rect { x0: x - step, y0: y, x1: x, y1: y + FERRIS_H }
        } else {
            Rect { x0: x + FERRIS_W, y0: y, x1: x + FERRIS_W - step, y1: y + FERRIS_H }
        };
        let plan = FramePlan { sprite_x: x, sprite_y: y, erase };

        if x > X_BOUNCE_LIMIT {
            self.step_size = -self.step_size;
        } else if x < MARGIN {
            self.step_size = -self.step_size;
        }
        self.x_offset = x + self.step_size;

        plan
    }
}

} // verus!
