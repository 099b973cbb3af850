//! The paddle: a rectangle at the left edge that slides up and down and never
//! leaves the court.

use vstd::prelude::*;
use crate::court::{clamp, rect_by_corners, Rect, WINDOW_HEIGHT};

verus! {

/// Distance the paddle travels in one tick while a direction key is held.
pub const PADDLE_STEP: i32 = 10;

/// Gap between the left edge of the court and the paddle.
pub const PADDLE_MARGIN: i32 = 10;

/// Width of the paddle a new game starts with.
pub const PADDLE_WIDTH: u32 = 10;

/// Height of the paddle a new game starts with.
pub const PADDLE_HEIGHT: u32 = 100;

/// The paddle as a mathematical value.
pub struct PlayerView {
    /// Distance of the paddle's top edge from the top of the court.
    pub y: int,
    pub width: int,
    pub height: int,
}

impl PlayerView {
    /// Lowest position the top edge may take: the paddle then touches the
    /// bottom of the court.
    pub open spec fn max_y(self) -> int {
        WINDOW_HEIGHT - self.height
    }

    /// The paddle lies within the court from top to bottom.
    pub open spec fn in_bounds(self) -> bool {
        0 <= self.y <= self.max_y()
    }

    /// The paddle after travelling `delta` pixels downwards (upwards for a
    /// negative `delta`) and being stopped at the court's edges.
    pub open spec fn slide(self, delta: int) -> PlayerView {
        PlayerView { y: clamp(self.y + delta, 0, self.max_y()), ..self }
    }

    /// The area the paddle covers.
    pub open spec fn rect(self) -> Rect {
        rect_by_corners(
            PADDLE_MARGIN as int,
            self.y,
            PADDLE_MARGIN + self.width,
            self.y + self.height,
        )
    }
}

/// The player's paddle. A value of this type always lies within the court.
#[derive(Clone, Copy, Debug)]
pub struct Player {
    y: i32,
    width: u32,
    height: u32,
}

impl View for Player {
    type V = PlayerView;

    closed spec fn view(&self) -> PlayerView {
        PlayerView { y: self.y as int, width: self.width as int, height: self.height as int }
    }
}

impl Player {
    /// What holds of every paddle: it lies within the court.
    #[verifier::type_invariant]
    pub open spec fn inv(self) -> bool {
        self@.in_bounds()
    }

    /// A paddle of the given size with its top edge at `y`, if such a paddle
    /// lies within the court.
    pub fn new(y: i32, width: u32, height: u32) -> (r: Option<Player>)
        ensures
            r is Some <==> 0 <= y <= WINDOW_HEIGHT - height,
            r matches Some(p) ==> p@ == (PlayerView {
                y: y as int,
                width: width as int,
                height: height as int,
            }),
    {
        if 0 <= y && y as i64 <= WINDOW_HEIGHT as i64 - height as i64 {
            Some(Player { y, width, height })
        } else {
            None
        }
    }

    /// The paddle a new game starts with, at the top of the court.
    pub fn at_top() -> (r: Player)
        ensures
            r@ == (PlayerView { y: 0, width: PADDLE_WIDTH as int, height: PADDLE_HEIGHT as int }),
    {
        Player { y: 0, width: PADDLE_WIDTH, height: PADDLE_HEIGHT }
    }

    /// Distance of the top edge from the top of the court.
    pub fn y(&self) -> (r: i32)
        ensures
            r == self@.y,
            self@.in_bounds(),
    {
        proof {
            use_type_invariant(self);
        }
        self.y
    }

    pub fn width(&self) -> (r: u32)
        ensures
            r == self@.width,
    {
        self.width
    }

    pub fn height(&self) -> (r: u32)
        ensures
            r == self@.height,
            r <= WINDOW_HEIGHT,
    {
        proof {
            use_type_invariant(self);
        }
        self.height
    }

    /// Moves the paddle `delta` pixels down, or up for a negative `delta`,
    /// and stops it at the court's edges.
    pub fn slide(&mut self, delta: i32)
        ensures
            final(self)@ == old(self)@.slide(delta as int),
            final(self)@.in_bounds(),
    {
        proof {
            use_type_invariant(&*self);
        }
        let max_y: i32 = WINDOW_HEIGHT - self.height as i32;
        let target: i64 = self.y as i64 + delta as i64;
        if target < 0 {
            self.y = 0;
        } else if target > max_y as i64 {
            self.y = max_y;
        } else {
            self.y = target as i32;
        }
    }

    /// The area the paddle covers.
    pub fn rect(&self) -> (r: Rect)
        ensures
            r == self@.rect(),
    {
        Rect {
            x0: PADDLE_MARGIN as i64,
            y0: self.y as i64,
            x1: PADDLE_MARGIN as i64 + self.width as i64,
            y1: self.y as i64 + self.height as i64,
        }
    }
}

} // verus!
