use embedded_graphics::prelude::{Point, Size};
use embedded_graphics::primitives::Rectangle;
use vstd::prelude::*;

verus! {

/// An axis-aligned rectangle: top-left corner and size, in pixels.
/// Bullets and sprite footprints are both described by one.
#[derive(Clone, Copy, Debug, PartialEq, Eq, Structural)]
pub struct Rect {
    pub x: i32,
    pub y: i32,
    pub width: u32,
    pub height: u32,
}

/// Largest screen side, in pixels, that the simulation's arithmetic is laid out for.
pub const MAX_SCREEN: i32 = 32768;

/// Screen dimensions the simulation accepts: non-negative, at most [`MAX_SCREEN`],
/// and tall enough to hold the player's sprite between its margins.
pub open spec fn screen_ok(width: i32, height: i32) -> bool {
    &&& 0 <= width <= MAX_SCREEN
    &&& 26 <= height <= MAX_SCREEN
}

/// Whether the simulation accepts a screen of the given size.
pub fn screen_supported(width: i32, height: i32) -> (r: bool)
    ensures
        r == screen_ok(width, height),
{
    0 <= width && width <= MAX_SCREEN && 26 <= height && height <= MAX_SCREEN
}

/// `r` moved horizontally by `dx`.
pub open spec fn translate_x(r: Rect, dx: int) -> Rect {
    Rect { x: (r.x + dx) as i32, ..r }
}

/// Length of the overlap of the half-open spans `[a, a + la)` and `[b, b + lb)`;
/// zero or negative when they are disjoint.
pub open spec fn span_overlap(a: int, la: int, b: int, lb: int) -> int {
    let hi = if a + la <= b + lb { a + la } else { b + lb };
    let lo = if a >= b { a } else { b };
    hi - lo
}

/// Width of the intersection of `a` and `b` (meaningful when positive).
pub open spec fn overlap_width(a: Rect, b: Rect) -> int {
    span_overlap(a.x as int, a.width as int, b.x as int, b.width as int)
}

/// Height of the intersection of `a` and `b` (meaningful when positive).
pub open spec fn overlap_height(a: Rect, b: Rect) -> int {
    span_overlap(a.y as int, a.height as int, b.y as int, b.height as int)
}

/// Two rectangles collide when their intersection has strictly positive width
/// and height; rectangles that only touch do not collide.
pub open spec fn collides(a: Rect, b: Rect) -> bool {
    &&& a.width > 0
    &&& a.height > 0
    &&& b.width > 0
    &&& b.height > 0
    &&& overlap_width(a, b) > 0
    &&& overlap_height(a, b) > 0
}

/// The far corner of `r` can be computed in `i32`.
pub open spec fn fits(r: Rect) -> bool {
    &&& r.width <= i32::MAX
    &&& r.height <= i32::MAX
    &&& r.x + r.width <= i32::MAX
    &&& r.y + r.height <= i32::MAX
}

/// Relies on embedded_graphics' `Rectangle::intersection`: for two rectangles
/// that overlap it returns the rectangle spanned by the larger top-left and the
/// smaller bottom-right corner; otherwise a rectangle of zero width or height.
/// It panics (in debug builds) when a far corner overflows `i32`.
#[verifier::external_body]
fn intersection_size(a: Rect, b: Rect) -> (r: (u32, u32))
    requires
        fits(a),
        fits(b),
    ensures
        collides(a, b) ==> r.0 == overlap_width(a, b) && r.1 == overlap_height(a, b),
        !collides(a, b) ==> r.0 == 0 || r.1 == 0,
{
    let ra = Rectangle::new(Point::new(a.x, a.y), Size::new(a.width, a.height));
    let rb = Rectangle::new(Point::new(b.x, b.y), Size::new(b.width, b.height));
    let i = ra.intersection(&rb);
    (i.size.width, i.size.height)
}

/// Whether `a` and `b` overlap in an area of positive width and height.
pub fn detect_collison(a: Rect, b: Rect) -> (r: bool)
    requires
        fits(a),
        fits(b),
    ensures
        r == collides(a, b),
{
    let (w, h) = intersection_size(a, b);
    if w == 0 || h == 0 {
        return false;
    }
    true
}

/// Collision does not depend on the order of its arguments.
pub proof fn lemma_collides_symmetric(a: Rect, b: Rect)
    ensures
        collides(a, b) == collides(b, a),
{
}

/// Rectangles whose intersection is degenerate (they share at most an edge)
/// never collide.
pub proof fn lemma_touching_never_collides(a: Rect, b: Rect)
    requires
        overlap_width(a, b) <= 0 || overlap_height(a, b) <= 0,
    ensures
        !collides(a, b),
{
}

} // verus!
