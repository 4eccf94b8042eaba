//! Merging rows of ground tiles into wide wall colliders.
//!
//! A tile map hands the host one square tile per grid cell; giving every
//! cell its own collider would be wasteful, so maximal horizontal runs of
//! tiles are merged into single wide colliders.  The host reads the tile
//! grid and spawns the colliders; this module does the merging itself, on
//! plain grid coordinates.

use vstd::prelude::*;

use crate::physics::Collider;
use crate::physics::Static;
use crate::physics::fits_i64;
use crate::vec2::Vec2;

verus! {

/// Magnitude bound on grid coordinates; far beyond any real tile map, it
/// only keeps the run-widening arithmetic inside `i64`.
pub const GRID_LIMIT: i64 = 0x1000_0000_0000_0000;

/// A horizontal run of tiles: `width` cells starting at grid cell
/// `(x, y)` and extending to the right.
#[derive(Clone, Copy, Debug, PartialEq, Eq, Structural)]
pub struct WallSpan {
    pub x: i64,
    pub y: i64,
    pub width: i64,
}

/// Whether the cell `(x, y)` is one of the listed tile cells.
pub open spec fn cell_in(cells: Seq<Vec2>, x: int, y: int) -> bool {
    exists|i: int| 0 <= i < cells.len() && cells[i].x == x && cells[i].y == y
}

/// Whether a span covers the cell `(x, y)`.
pub open spec fn span_covers(s: WallSpan, x: int, y: int) -> bool {
    s.y == y && s.x <= x < s.x + s.width
}

/// Whether some span in the list covers the cell `(x, y)`.
pub open spec fn covered(spans: Seq<WallSpan>, x: int, y: int) -> bool {
    exists|i: int| 0 <= i < spans.len() && span_covers(#[trigger] spans[i], x, y)
}

/// A grid cell within the coordinate bound.
pub open spec fn cell_wf(c: Vec2) -> bool {
    &&& -GRID_LIMIT <= c.x <= GRID_LIMIT
    &&& -GRID_LIMIT <= c.y <= GRID_LIMIT
}

/// A span within the coordinate bound, at least one cell wide.
pub open spec fn span_wf(s: WallSpan) -> bool {
    &&& -GRID_LIMIT <= s.x <= GRID_LIMIT
    &&& -GRID_LIMIT <= s.y <= GRID_LIMIT
    &&& 1 <= s.width <= 2 * GRID_LIMIT + 1
}

/// Whether the cell `(x, y)` is one of the listed tile cells; the
/// executable counterpart of [`cell_in`].
pub fn contains_cell(cells: &Vec<Vec2>, x: i64, y: i64) -> (r: bool)
    ensures
        r == cell_in(cells@, x as int, y as int),
{
    let n = cells.len();
    let mut i: usize = 0;
    while i < n
        invariant
            n == cells@.len(),
            i <= n,
            forall|k: int| 0 <= k < i ==> !(#[trigger] cells@[k].x == x && cells@[k].y == y),
        decreases n - i,
    {
        let c = cells[i];
        if c.x == x && c.y == y {
            return true;
        }
        i = i + 1;
    }
    false
}

/// Whether some span in the list covers the cell `(x, y)`; the executable
/// counterpart of [`covered`].
pub fn covers_cell(spans: &Vec<WallSpan>, x: i64, y: i64) -> (r: bool)
    requires
        forall|i: int| 0 <= i < spans@.len() ==> span_wf(#[trigger] spans@[i]),
        -GRID_LIMIT <= x <= GRID_LIMIT,
    ensures
        r == covered(spans@, x as int, y as int),
{
    let n = spans.len();
    let mut i: usize = 0;
    while i < n
        invariant
            n == spans@.len(),
            i <= n,
            forall|k: int| 0 <= k < n ==> span_wf(#[trigger] spans@[k]),
            -GRID_LIMIT <= x <= GRID_LIMIT,
            forall|k: int| 0 <= k < i ==> !span_covers(#[trigger] spans@[k], x as int, y as int),
        decreases n - i,
    {
        let s = spans[i];
        if s.y == y && s.x <= x && x - s.x < s.width {
            return true;
        }
        i = i + 1;
    }
    false
}

/// Every existing cover survives appending another span.
proof fn lemma_covered_push(spans: Seq<WallSpan>, s: WallSpan, x: int, y: int)
    requires
        covered(spans, x, y),
    ensures
        covered(spans.push(s), x, y),
{
    let i = choose|i: int| 0 <= i < spans.len() && span_covers(#[trigger] spans[i], x, y);
    assert(span_covers(spans.push(s)[i], x, y));
}

/// Merge the tile cells into horizontal wall spans.
///
/// Cells are taken in order; a cell already covered by an earlier span is
/// skipped, and an uncovered cell starts a span that widens to the right
/// as long as the next cell exists in the map.  Afterwards every span lies
/// on tiles only, every tile cell is covered by some span, and every span
/// is maximal to the right (the cell just past its end is not in the map).
pub fn merge_wall_spans(cells: &Vec<Vec2>) -> (spans: Vec<WallSpan>)
    requires
        forall|k: int| 0 <= k < cells@.len() ==> cell_wf(#[trigger] cells@[k]),
    ensures
        forall|i: int| 0 <= i < spans@.len() ==> span_wf(#[trigger] spans@[i]),
        forall|i: int, dx: int|
            0 <= i < spans@.len() && 0 <= dx < spans@[i].width ==> cell_in(
                cells@,
                #[trigger] (spans@[i].x + dx),
                spans@[i].y as int,
            ),
        forall|k: int|
            0 <= k < cells@.len() ==> covered(spans@, #[trigger] cells@[k].x as int, cells@[k].y as int),
        forall|i: int|
            0 <= i < spans@.len() ==> !cell_in(
                cells@,
                #[trigger] (spans@[i].x + spans@[i].width),
                spans@[i].y as int,
            ),
{
    let n = cells.len();
    let mut spans: Vec<WallSpan> = Vec::new();
    let mut k: usize = 0;
    while k < n
        invariant
            n == cells@.len(),
            k <= n,
            forall|j: int| 0 <= j < n ==> cell_wf(#[trigger] cells@[j]),
            forall|i: int| 0 <= i < spans@.len() ==> span_wf(#[trigger] spans@[i]),
            forall|i: int, dx: int|
                0 <= i < spans@.len() && 0 <= dx < spans@[i].width ==> cell_in(
                    cells@,
                    #[trigger] (spans@[i].x + dx),
                    spans@[i].y as int,
                ),
            forall|j: int|
                0 <= j < k ==> covered(spans@, #[trigger] cells@[j].x as int, cells@[j].y as int),
            forall|i: int|
                0 <= i < spans@.len() ==> !cell_in(
                    cells@,
                    #[trigger] (spans@[i].x + spans@[i].width),
                    spans@[i].y as int,
                ),
        decreases n - k,
    {
        let c = cells[k];
        if !covers_cell(&spans, c.x, c.y) {
            let mut width: i64 = 1;
            while contains_cell(cells, c.x + width, c.y)
                invariant
                    n == cells@.len(),
                    forall|j: int| 0 <= j < n ==> cell_wf(#[trigger] cells@[j]),
                    cell_wf(c),
                    1 <= width <= 2 * GRID_LIMIT + 1,
                    fits_i64(c.x + width),
                    forall|dx: int|
                        1 <= dx < width ==> cell_in(cells@, #[trigger] (c.x + dx), c.y as int),
                decreases 2 * GRID_LIMIT + 1 - width,
            {
                proof {
                    let w = choose|i: int|
                        0 <= i < cells@.len() && cells@[i].x == c.x + width && cells@[i].y == c.y;
                    assert(cell_wf(cells@[w]));
                    assert(c.x + width <= GRID_LIMIT);
                }
                width = width + 1;
            }
            let span = WallSpan { x: c.x, y: c.y, width };
            proof {
                assert(cells@[k as int] == c);
                assert(cell_in(cells@, c.x as int, c.y as int));
                assert forall|dx: int| 0 <= dx < width implies cell_in(
                    cells@,
                    #[trigger] (span.x + dx),
                    span.y as int,
                ) by {
                    if dx == 0 {
                        assert(cell_in(cells@, c.x as int, c.y as int));
                    }
                }
                assert forall|j: int|
                    0 <= j < k && covered(spans@, cells@[j].x as int, cells@[j].y as int) implies covered(
                    spans@.push(span),
                    cells@[j].x as int,
                    cells@[j].y as int,
                ) by {
                    lemma_covered_push(spans@, span, cells@[j].x as int, cells@[j].y as int);
                }
            }
            spans.push(span);
            proof {
                assert(spans@[spans@.len() - 1] == span);
                assert(span_covers(span, c.x as int, c.y as int));
            }
        }
        k = k + 1;
    }
    spans
}

/// The single static collider standing for a merged span: as wide as the
/// whole run, centered on the run's middle.  `first_tile_pos` is the world
/// position of the span's first tile and `half_tile` half a tile's side.
pub fn merged_wall(first_tile_pos: Vec2, width: i64, half_tile: i64) -> (s: Static)
    requires
        width >= 1,
        half_tile >= 0,
        fits_i64((width - 1) * half_tile),
        fits_i64(first_tile_pos.x + (width - 1) * half_tile),
        fits_i64(width * half_tile),
    ensures
        s.pos.x as int == first_tile_pos.x + (width - 1) * half_tile,
        s.pos.y == first_tile_pos.y,
        s.collider.half.x as int == width * half_tile,
        s.collider.half.y == half_tile,
{
    Static {
        pos: Vec2 { x: first_tile_pos.x + (width - 1) * half_tile, y: first_tile_pos.y },
        collider: Collider { half: Vec2 { x: width * half_tile, y: half_tile } },
    }
}

} // verus!
