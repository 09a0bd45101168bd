//! Client-space geometry of the forwarding listener: containment of a point in
//! a client rectangle and the packing of a point into a message parameter.
use vstd::prelude::*;

verus! {

/// The message identifier of a mouse move.
pub const WM_MOUSEMOVE: u32 = 0x0200;

/// The message identifier of a mouse leave.
pub const WM_MOUSELEAVE: u32 = 0x02A3;

/// A rectangle in client coordinates; `right` and `bottom` are exclusive.
#[derive(Clone, Copy, Debug, PartialEq, Eq, Structural)]
pub struct Rect {
    pub left: i32,
    pub top: i32,
    pub right: i32,
    pub bottom: i32,
}

/// A point, in screen or in client coordinates.
#[derive(Clone, Copy, Debug, PartialEq, Eq, Structural)]
pub struct Point {
    pub x: i32,
    pub y: i32,
}

/// A mouse-move message ready to be sent to the target window.
#[derive(Clone, Copy, Debug, PartialEq, Eq, Structural)]
pub struct ForwardedMove {
    pub message: u32,
    pub wparam: u64,
    pub lparam: i64,
}

/// A point lies in a rectangle when it is at or after the top-left corner and
/// strictly before the bottom-right one.
pub open spec fn contains(r: Rect, p: Point) -> bool {
    r.left <= p.x < r.right && r.top <= p.y < r.bottom
}

/// The low sixteen bits of a coordinate, as an unsigned value.
pub open spec fn word(v: int) -> int {
    v % 0x10000
}

/// A point packed as a message parameter: x in the low word, y in the high one.
pub open spec fn packed(p: Point) -> int {
    word(p.x as int) + word(p.y as int) * 0x10000
}

/// Whether `p` lies inside `r` (the rule of the system's point-in-rectangle test).
pub fn pt_in_rect(r: &Rect, p: Point) -> (b: bool)
    ensures
        b == contains(*r, p),
{
    r.left <= p.x && p.x < r.right && r.top <= p.y && p.y < r.bottom
}

fn low_word(v: i32) -> (w: u32)
    ensures
        w as int == word(v as int),
{
    let shifted: u64 = (v as i64 + 0x8000_0000) as u64;
    proof {
        assert((v as int + 0x8000_0000) % 0x10000 == (v as int) % 0x10000) by (nonlinear_arith);
    }
    (shifted % 0x10000) as u32
}

/// Packs a point into a message parameter, x in the low word and y in the high
/// word, each truncated to sixteen bits.
pub fn make_lparam(p: Point) -> (l: i64)
    ensures
        l as int == packed(p),
        0 <= l < 0x1_0000_0000,
{
    let lo: u32 = low_word(p.x);
    let hi: u32 = low_word(p.y);
    lo as i64 + hi as i64 * 0x10000
}

/// The forwarding decision: a point that lies in the client rectangle becomes
/// one mouse-move message carrying its coordinates; any other point is dropped.
pub fn forward_move(client_rect: &Rect, client_point: Point) -> (r: Option<ForwardedMove>)
    ensures
        contains(*client_rect, client_point) ==> r == Some(
            (ForwardedMove { message: WM_MOUSEMOVE, wparam: 0, lparam: packed(client_point) as i64 }),
        ),
        !contains(*client_rect, client_point) ==> r is None,
{
    if pt_in_rect(client_rect, client_point) {
        Some(ForwardedMove { message: WM_MOUSEMOVE, wparam: 0, lparam: make_lparam(client_point) })
    } else {
        None
    }
}

} // verus!
