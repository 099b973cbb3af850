//! The ball: a square that is painted where it was placed. It carries a
//! heading, but no rule of the game moves it yet.

use vstd::prelude::*;
use crate::court::{rect_by_corners, Rect, WINDOW_HEIGHT, WINDOW_WIDTH};

verus! {

/// Side length of the ball a new game starts with.
pub const BALL_SIZE: u32 = 30;

/// The ball as a mathematical value.
pub struct BallView {
    /// Left edge.
    pub x: int,
    /// Top edge.
    pub y: int,
    /// Side length.
    pub size: int,
    /// Heading along the x axis.
    pub dx: int,
    /// Heading along the y axis.
    pub dy: int,
}

impl BallView {
    /// The area the ball covers.
    pub open spec fn rect(self) -> Rect {
        rect_by_corners(self.x, self.y, self.x + self.size, self.y + self.size)
    }
}

/// The ball a new game starts with: in the middle of the court, heading up
/// and to the left.
pub open spec fn centered_ball() -> BallView {
    BallView {
        x: WINDOW_WIDTH / 2 - BALL_SIZE / 2,
        y: WINDOW_HEIGHT / 2 - BALL_SIZE / 2,
        size: BALL_SIZE as int,
        dx: -1,
        dy: -1,
    }
}

/// The ball.
#[derive(Clone, Copy, Debug)]
pub struct Ball {
    x: i32,
    y: i32,
    size: u32,
    direction: [i32; 2],
}

impl View for Ball {
    type V = BallView;

    closed spec fn view(&self) -> BallView {
        BallView {
            x: self.x as int,
            y: self.y as int,
            size: self.size as int,
            dx: self.direction[0] as int,
            dy: self.direction[1] as int,
        }
    }
}

impl Ball {
    /// A ball of side `size` with its top left corner at `(x, y)` and the
    /// given heading, x component first.
    pub fn new(x: i32, y: i32, size: u32, direction: [i32; 2]) -> (r: Ball)
        ensures
            r@ == (BallView {
                x: x as int,
                y: y as int,
                size: size as int,
                dx: direction[0] as int,
                dy: direction[1] as int,
            }),
    {
        Ball { x, y, size, direction }
    }

    /// The ball a new game starts with.
    pub fn centered() -> (r: Ball)
        ensures
            r@ == centered_ball(),
    {
        let half: i32 = (BALL_SIZE / 2) as i32;
        Ball { x: WINDOW_WIDTH / 2 - half, y: WINDOW_HEIGHT / 2 - half, size: BALL_SIZE, direction: [-1, -1] }
    }

    pub fn x(&self) -> (r: i32)
        ensures
            r == self@.x,
    {
        self.x
    }

    pub fn y(&self) -> (r: i32)
        ensures
            r == self@.y,
    {
        self.y
    }

    pub fn size(&self) -> (r: u32)
        ensures
            r == self@.size,
    {
        self.size
    }

    /// The heading, x component first.
    pub fn direction(&self) -> (r: [i32; 2])
        ensures
            r[0] == self@.dx,
            r[1] == self@.dy,
    {
        self.direction
    }

    /// The area the ball covers.
    pub fn rect(&self) -> (r: Rect)
        ensures
            r == self@.rect(),
    {
        Rect {
            x0: self.x as i64,
            y0: self.y as i64,
            x1: self.x as i64 + self.size as i64,
            y1: self.y as i64 + self.size as i64,
        }
    }
}

} // verus!
