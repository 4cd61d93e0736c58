//! The picture of the tray icon: a square with rounded corners.

use vstd::prelude::*;
use crate::level::Level;

verus! {

/// Width and height of the icon: the tray scales it down crisply, where a
/// smaller source would blur on dense screens.
pub const ICON_SIZE: u32 = 32;

/// The square reaches this far from its centre.
pub const HALF_SIDE: u32 = 15;

/// Radius of the corners.
pub const CORNER_RADIUS: u32 = 9;

/// Distance of a coordinate from the centre.
pub open spec fn offset(at: int) -> int {
    if at < HALF_SIDE {
        HALF_SIDE - at
    } else {
        at - HALF_SIDE
    }
}

/// Whether the square covers a pixel: in the corners, what is no farther than
/// the radius from the centre of the corner's arc; elsewhere, what is no
/// farther from the centre than half a side.
pub open spec fn covered(x: int, y: int) -> bool {
    let edge = HALF_SIDE - CORNER_RADIUS;
    let dx = offset(x) - edge;
    let dy = offset(y) - edge;
    if dx > 0 && dy > 0 {
        dx * dx + dy * dy <= CORNER_RADIUS * CORNER_RADIUS
    } else {
        offset(x) <= HALF_SIDE && offset(y) <= HALF_SIDE
    }
}

/// The bytes of a pixel: the colour of the level and opaque, or nothing.
pub open spec fn pixel(level: Level, x: int, y: int) -> Seq<u8> {
    if covered(x, y) {
        seq![level.rgb().0, level.rgb().1, level.rgb().2, 255]
    } else {
        seq![0, 0, 0, 0]
    }
}

/// Byte `at` of the picture: four bytes per pixel, row by row.
pub open spec fn icon_byte(level: Level, at: int) -> u8 {
    let size = ICON_SIZE as int;
    pixel(level, at / 4 % size, at / 4 / size)[at % 4]
}

fn distance(at: u32) -> (res: u32)
    requires
        at < ICON_SIZE,
    ensures
        res == offset(at as int),
        res < ICON_SIZE,
{
    if at < HALF_SIDE {
        HALF_SIDE - at
    } else {
        at - HALF_SIDE
    }
}

fn is_covered(x: u32, y: u32) -> (res: bool)
    requires
        x < ICON_SIZE,
        y < ICON_SIZE,
    ensures
        res == covered(x as int, y as int),
{
    let ax: u32 = distance(x);
    let ay: u32 = distance(y);
    let edge: u32 = HALF_SIDE - CORNER_RADIUS;
    if ax > edge && ay > edge {
        let dx: u32 = ax - edge;
        let dy: u32 = ay - edge;
        assert(dx * dx <= 32 * 32) by (nonlinear_arith)
            requires
                dx <= 32,
        ;
        assert(dy * dy <= 32 * 32) by (nonlinear_arith)
            requires
                dy <= 32,
        ;
        dx * dx + dy * dy <= CORNER_RADIUS * CORNER_RADIUS
    } else {
        ax <= HALF_SIDE && ay <= HALF_SIDE
    }
}

/// The picture for a level: red, green, blue and opacity of each pixel, row by
/// row.
pub fn icon(level: Level) -> (res: Vec<u8>)
    ensures
        res@.len() == ICON_SIZE * ICON_SIZE * 4,
        forall|at: int| 0 <= at < res@.len() ==> #[trigger] res@[at] == icon_byte(level, at),
{
    let (r, g, b) = level.color();
    let mut rgba: Vec<u8> = Vec::new();
    let mut y: u32 = 0;
    while y < ICON_SIZE
        invariant
            y <= ICON_SIZE,
            (r, g, b) == level.rgb(),
            rgba@.len() == y * ICON_SIZE * 4,
            forall|at: int| 0 <= at < rgba@.len() ==> #[trigger] rgba@[at] == icon_byte(level, at),
        decreases ICON_SIZE - y,
    {
        let mut x: u32 = 0;
        while x < ICON_SIZE
            invariant
                y < ICON_SIZE,
                x <= ICON_SIZE,
                (r, g, b) == level.rgb(),
                rgba@.len() == (y * ICON_SIZE + x) * 4,
                forall|at: int|
                    0 <= at < rgba@.len() ==> #[trigger] rgba@[at] == icon_byte(level, at),
            decreases ICON_SIZE - x,
        {
            let ghost before = rgba@;
            if is_covered(x, y) {
                rgba.push(r);
                rgba.push(g);
                rgba.push(b);
                rgba.push(255);
            } else {
                rgba.push(0);
                rgba.push(0);
                rgba.push(0);
                rgba.push(0);
            }
            proof {
                assert(rgba@ == before + pixel(level, x as int, y as int));
                assert forall|at: int| 0 <= at < rgba@.len() implies #[trigger] rgba@[at]
                    == icon_byte(level, at) by {
                    if at < before.len() {
                        assert(rgba@[at] == before[at]);
                    } else {
                        assert(at / 4 == y * ICON_SIZE + x);
                    }
                }
            }
            x += 1;
        }
        y += 1;
    }
    rgba
}

/// The square is the same mirrored on its diagonal and on its centre lines.
pub proof fn law_square_is_symmetric(x: int, y: int)
    ensures
        covered(x, y) == covered(y, x),
        covered(x, y) == covered(2 * HALF_SIDE - x, y),
        covered(x, y) == covered(x, 2 * HALF_SIDE - y),
{
}

/// Two levels cover the same pixels, and differ in each pixel that they cover.
pub proof fn law_icons_tell_the_level(a: Level, b: Level, x: int, y: int)
    ensures
        pixel(a, x, y) == pixel(b, x, y) <==> (a == b || !covered(x, y)),
{
    if a != b && covered(x, y) {
        assert(pixel(a, x, y)[0] != pixel(b, x, y)[0] || pixel(a, x, y)[1] != pixel(b, x, y)[1]);
    }
}

/// The square has the pixels zero to thirty in both directions, less what lies
/// in a corner, more than six from both centre lines, and farther than nine
/// from where these six end.
pub proof fn law_square_has_round_corners(x: int, y: int)
    ensures
        covered(x, y) ==> 0 <= x <= 30 && 0 <= y <= 30,
        0 <= x <= 30 && 9 <= y <= 21 ==> covered(x, y),
        9 <= x <= 21 && 0 <= y <= 30 ==> covered(x, y),
        x < 9 && y < 9 ==> (covered(x, y) <==> (9 - x) * (9 - x) + (9 - y) * (9 - y) <= 81),
        x > 21 && y < 9 ==> (covered(x, y) <==> (x - 21) * (x - 21) + (9 - y) * (9 - y) <= 81),
        x < 9 && y > 21 ==> (covered(x, y) <==> (9 - x) * (9 - x) + (y - 21) * (y - 21) <= 81),
        x > 21 && y > 21 ==> (covered(x, y) <==> (x - 21) * (x - 21) + (y - 21) * (y - 21) <= 81),
{
    lemma_square_grows(offset(x) - 6, 10);
    lemma_square_grows(offset(y) - 6, 10);
}

/// No square is negative, and from a bound on, none is smaller than that of
/// the bound.
proof fn lemma_square_grows(a: int, bound: int)
    requires
        bound >= 0,
    ensures
        a * a >= 0,
        a >= bound ==> a * a >= bound * bound,
{
    assert(a * a >= 0) by (nonlinear_arith);
    if a >= bound {
        assert(a * a >= bound * bound) by (nonlinear_arith)
            requires
                a >= bound,
                bound >= 0,
        ;
    }
}

/// The picture is a row of rows: four bytes for each pixel, which are the
/// colour of the level and full opacity where the square covers it, and zero
/// elsewhere.
pub proof fn law_picture_is_row_by_row(level: Level, x: int, y: int)
    requires
        0 <= x < 32,
        0 <= y < 32,
    ensures
        ({
            let at = (y * 32 + x) * 4;
            let (r, g, b) = level.rgb();
            &&& covered(x, y) ==> icon_byte(level, at) == r && icon_byte(level, at + 1) == g
                && icon_byte(level, at + 2) == b && icon_byte(level, at + 3) == 255
            &&& !covered(x, y) ==> icon_byte(level, at) == 0 && icon_byte(level, at + 1) == 0
                && icon_byte(level, at + 2) == 0 && icon_byte(level, at + 3) == 0
        }),
{
    let at = (y * 32 + x) * 4;
    assert(at / 4 == y * 32 + x && (at + 1) / 4 == y * 32 + x && (at + 2) / 4 == y * 32 + x && (at
        + 3) / 4 == y * 32 + x);
    assert((y * 32 + x) / 32 == y && (y * 32 + x) % 32 == x);
}

} // verus!
