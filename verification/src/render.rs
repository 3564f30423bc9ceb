//! What a renderer has to paint for a display: one filled square per
//! lit cell, at a fixed scale.

use vstd::prelude::*;

verus! {

/// Side of the square that stands for one cell, in pixels.
pub const SCALE: usize = 10;

/// A rectangle on the window, in pixels.
#[derive(Clone, Copy, Debug, PartialEq, Eq, Structural)]
pub struct Rect {
    pub x: i32,
    pub y: i32,
    pub width: u32,
    pub height: u32,
}

/// The square of the cell at position `index` of the row-major grid:
/// `SCALE` pixels wide and high, in column `index % 64` and row
/// `index / 64` of squares.
pub open spec fn cell_rect(index: int) -> Rect {
    Rect {
        x: ((index % 64) * SCALE) as i32,
        y: ((index / 64) * SCALE) as i32,
        width: SCALE as u32,
        height: SCALE as u32,
    }
}

/// The squares of the lit cells among the first `n` cells of `screen`,
/// in the order of the cells. A cell is lit when its byte is 1.
pub open spec fn draw_list_upto(screen: Seq<u8>, n: int) -> Seq<Rect>
    decreases n,
{
    if n <= 0 {
        Seq::empty()
    } else if screen[n - 1] == 1 {
        draw_list_upto(screen, n - 1).push(cell_rect(n - 1))
    } else {
        draw_list_upto(screen, n - 1)
    }
}

/// Whether `rect` is the square of a lit cell among the first `n` cells
/// of `screen`.
pub open spec fn is_lit_square(screen: Seq<u8>, n: int, rect: Rect) -> bool {
    exists|k: int| 0 <= k < n && screen[k] == 1 && rect == #[trigger] cell_rect(k)
}

/// The squares of all lit cells of `screen`, in the order of the cells.
pub open spec fn draw_list_of(screen: Seq<u8>) -> Seq<Rect> {
    draw_list_upto(screen, screen.len() as int)
}

/// Size of the window that shows the whole display: width and height in
/// pixels.
pub fn get_scaled_res() -> (size: (u32, u32))
    ensures
        size.0 == 64 * SCALE,
        size.1 == 32 * SCALE,
{
    ((64 * SCALE) as u32, (32 * SCALE) as u32)
}

/// The squares to paint for `screen`, a display with one byte per cell
/// in row-major order: one square for each cell whose byte is 1, in the
/// order of the cells.
pub fn draw_list(screen: &[u8; 2048]) -> (rects: Vec<Rect>)
    ensures
        rects@ == draw_list_of(screen@),
{
    let mut rects: Vec<Rect> = Vec::new();
    let mut index: usize = 0;
    while index < 2048
        invariant
            index <= 2048,
            rects@ == draw_list_upto(screen@, index as int),
        decreases 2048 - index,
    {
        if screen[index] == 1 {
            rects.push(
                Rect {
                    x: ((index % 64) * SCALE) as i32,
                    y: ((index / 64) * SCALE) as i32,
                    width: SCALE as u32,
                    height: SCALE as u32,
                },
            );
        }
        index = index + 1;
    }
    rects
}

/// The draw list holds a square for every lit cell and for no other,
/// and no more squares than there are cells.
pub proof fn lemma_draw_list_covers(screen: Seq<u8>, n: int)
    requires
        0 <= n <= screen.len(),
    ensures
        draw_list_upto(screen, n).len() <= n,
        forall|k: int|
            0 <= k < n && screen[k] == 1 ==> draw_list_upto(screen, n).contains(
                #[trigger] cell_rect(k),
            ),
        forall|j: int|
            0 <= j < draw_list_upto(screen, n).len() ==> is_lit_square(
                screen,
                n,
                #[trigger] draw_list_upto(screen, n)[j],
            ),
    decreases n,
{
    if n > 0 {
        lemma_draw_list_covers(screen, n - 1);
        let shorter = draw_list_upto(screen, n - 1);
        let list = draw_list_upto(screen, n);
        assert forall|k: int| 0 <= k < n && screen[k] == 1 implies list.contains(
            #[trigger] cell_rect(k),
        ) by {
            if k < n - 1 {
                let j = choose|j: int| 0 <= j < shorter.len() && shorter[j] == cell_rect(k);
                assert(list[j] == cell_rect(k));
            } else {
                assert(list[list.len() - 1] == cell_rect(k));
            }
        }
        assert forall|j: int| 0 <= j < list.len() implies is_lit_square(
            screen,
            n,
            #[trigger] list[j],
        ) by {
            if j < shorter.len() {
                assert(is_lit_square(screen, n - 1, shorter[j]));
                let k = choose|k: int|
                    0 <= k < n - 1 && screen[k] == 1 && shorter[j] == #[trigger] cell_rect(k);
                assert(0 <= k < n && screen[k] == 1 && list[j] == cell_rect(k));
            } else {
                assert(0 <= n - 1 < n && screen[n - 1] == 1 && list[j] == cell_rect(n - 1));
            }
        }
    }
}

} // verus!
