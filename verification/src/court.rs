//! The court: its size in logical pixels and the shapes a frame is made of.

use vstd::prelude::*;

verus! {

/// Width of the court in logical pixels.
pub const WINDOW_WIDTH: i32 = 800;

/// Height of the court in logical pixels.
pub const WINDOW_HEIGHT: i32 = 600;

/// Width of the dashed line that splits the court.
pub const STRIPE_WIDTH: i32 = 10;

/// Height of one band of the dashed line; every other band is painted.
pub const STRIPE_HEIGHT: i32 = 50;

/// The two colours the game paints with.
#[derive(Clone, Copy, Debug, PartialEq, Eq, Structural)]
pub enum Color {
    Black,
    White,
}

/// An axis-aligned rectangle given by two opposite corners, in logical pixels.
#[derive(Clone, Copy, Debug, PartialEq, Eq, Structural)]
pub struct Rect {
    pub x0: i64,
    pub y0: i64,
    pub x1: i64,
    pub y1: i64,
}

/// One painting instruction of a frame.
#[derive(Clone, Copy, Debug, PartialEq, Eq, Structural)]
pub enum Draw {
    /// Fill the whole frame with a colour.
    Clear(Color),
    /// Fill a rectangle with a colour.
    Rectangle(Color, Rect),
}

/// `v` limited to the interval from `lo` to `hi`.
pub open spec fn clamp(v: int, lo: int, hi: int) -> int {
    if v < lo {
        lo
    } else if v > hi {
        hi
    } else {
        v
    }
}

/// The rectangle with corners `(x0, y0)` and `(x1, y1)`.
pub open spec fn rect_by_corners(x0: int, y0: int, x1: int, y1: int) -> Rect {
    Rect { x0: x0 as i64, y0: y0 as i64, x1: x1 as i64, y1: y1 as i64 }
}

/// Number of bands the centre line is cut into, painted or not.
pub open spec fn band_count() -> int {
    WINDOW_HEIGHT as int / STRIPE_HEIGHT as int
}

/// Number of painted dashes: the bands with an even index.
pub open spec fn dash_count() -> int {
    (band_count() + 1) / 2
}

/// The `i`-th band of the centre line, counted from the top.
pub open spec fn band(i: int) -> Rect {
    rect_by_corners(
        WINDOW_WIDTH / 2 - STRIPE_WIDTH / 2,
        i * STRIPE_HEIGHT,
        WINDOW_WIDTH / 2 + STRIPE_WIDTH / 2,
        i * STRIPE_HEIGHT + STRIPE_HEIGHT,
    )
}

/// The dashed centre line, top to bottom: the bands with an even index.
pub open spec fn center_line() -> Seq<Rect> {
    Seq::new(dash_count() as nat, |k: int| band(2 * k))
}

/// Builds the dashed centre line: of the bands that fit into the court's
/// height, every band with an even index, horizontally centred.
pub fn center_line_rects() -> (out: Vec<Rect>)
    ensures
        out@ == center_line(),
{
    let bands: i32 = WINDOW_HEIGHT / STRIPE_HEIGHT;
    let mut out: Vec<Rect> = Vec::new();
    let mut i: i32 = 0;
    while i < bands
        invariant
            bands == band_count(),
            0 <= i <= bands,
            out@ == Seq::new(((i + 1) / 2) as nat, |k: int| band(2 * k)),
        decreases bands - i,
    {
        if i % 2 == 0 {
            let top: i64 = (i * STRIPE_HEIGHT) as i64;
            out.push(
                Rect {
                    x0: (WINDOW_WIDTH / 2 - STRIPE_WIDTH / 2) as i64,
                    y0: top,
                    x1: (WINDOW_WIDTH / 2 + STRIPE_WIDTH / 2) as i64,
                    y1: top + STRIPE_HEIGHT as i64,
                },
            );
            assert(out@ =~= Seq::new(((i + 2) / 2) as nat, |k: int| band(2 * k)));
        }
        i = i + 1;
    }
    out
}

} // verus!
