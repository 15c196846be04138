use vstd::prelude::*;

use crate::game::{wrap, wrap_coord, VictoryInfo, COUNT_TO_WIN, ROW_COUNT};
use crate::util::{vec3i, Vec3i};

verus! {

/// A grid position as three integers.
pub type Cell = (int, int, int);

pub open spec fn inside(c: Cell) -> bool {
    0 <= c.0 < 6 && 0 <= c.1 < 6 && 0 <= c.2 < 6
}

pub open spec fn wrap_cell(c: Cell) -> Cell {
    (wrap(c.0), wrap(c.1), wrap(c.2))
}

pub open spec fn add_cell(a: Cell, b: Cell) -> Cell {
    (a.0 + b.0, a.1 + b.1, a.2 + b.2)
}

pub open spec fn sub_cell(a: Cell, b: Cell) -> Cell {
    (a.0 - b.0, a.1 - b.1, a.2 - b.2)
}

/// The pieces of a line that stands at cell `cur`, `k` steps into the line,
/// and whose current piece began at `start`. A step that leaves the grid
/// ends the piece one cell outside; the next piece begins one cell before
/// the wrapped cell, so that both pieces reach the faces of the cube.
pub open spec fn segments_from(start: Cell, cur: Cell, k: int, d: Cell) -> Seq<(Cell, Cell)>
    decreases 4 - k,
{
    if k >= 4 {
        seq![(start, cur)]
    } else {
        let next = add_cell(cur, d);
        if inside(next) {
            segments_from(start, next, k + 1, d)
        } else {
            seq![(start, next)] + segments_from(
                sub_cell(wrap_cell(next), d),
                wrap_cell(next),
                k + 1,
                d,
            )
        }
    }
}

/// The pieces that draw the five cells of a line from `pos` along `d`.
pub open spec fn winner_segments(pos: Cell, d: Cell) -> Seq<(Cell, Cell)> {
    segments_from(wrap_cell(pos), wrap_cell(pos), 0, d)
}

pub open spec fn segments_view(s: Seq<(Vec3i, Vec3i)>) -> Seq<(Cell, Cell)> {
    s.map_values(|p: (Vec3i, Vec3i)| (p.0@, p.1@))
}

fn wrap_pos(p: &Vec3i) -> (r: Vec3i)
    ensures
        r@ == wrap_cell(p@),
{
    vec3i(wrap_coord(p.x), wrap_coord(p.y), wrap_coord(p.z))
}

/// The straight pieces that draw a winning line across the cube: one piece
/// while the line stays inside the grid, and a new one each time it wraps
/// around to the opposite face.
pub fn line_of_winner_segments(info: &VictoryInfo) -> (r: Vec<(Vec3i, Vec3i)>)
    requires
        -1 <= info.direction.x <= 1,
        -1 <= info.direction.y <= 1,
        -1 <= info.direction.z <= 1,
    ensures
        segments_view(r@) == winner_segments(info.position@, info.direction@),
{
    let d = info.direction;
    let ghost whole = winner_segments(info.position@, d@);
    let mut cur = wrap_pos(&info.position);
    let mut start = cur;
    let mut r: Vec<(Vec3i, Vec3i)> = Vec::new();
    let mut k: i32 = 0;
    while k < COUNT_TO_WIN - 1
        invariant
            d == info.direction,
            -1 <= d.x <= 1,
            -1 <= d.y <= 1,
            -1 <= d.z <= 1,
            0 <= k <= 4,
            inside(cur@),
            -1 <= start.x <= 6,
            -1 <= start.y <= 6,
            -1 <= start.z <= 6,
            whole == winner_segments(info.position@, d@),
            segments_view(r@) + segments_from(start@, cur@, k as int, d@) == whole,
        decreases 4 - k,
    {
        let next = vec3i(cur.x + d.x, cur.y + d.y, cur.z + d.z);
        assert(next@ == add_cell(cur@, d@));
        if 0 <= next.x && next.x < ROW_COUNT && 0 <= next.y && next.y < ROW_COUNT && 0 <= next.z
            && next.z < ROW_COUNT {
            cur = next;
        } else {
            let ghost before = segments_view(r@);
            let ghost s0 = start@;
            r.push((start, next));
            assert(segments_view(r@) =~= before.push((s0, next@)));
            let wrapped = wrap_pos(&next);
            start = vec3i(wrapped.x - d.x, wrapped.y - d.y, wrapped.z - d.z);
            cur = wrapped;
            assert(before + (seq![(s0, next@)] + segments_from(start@, cur@, k + 1, d@))
                =~= before.push((s0, next@)) + segments_from(start@, cur@, k + 1, d@));
        }
        k += 1;
    }
    let ghost before = segments_view(r@);
    r.push((start, cur));
    assert(segments_view(r@) =~= before.push((start@, cur@)));
    assert(segments_from(start@, cur@, 4, d@) =~= seq![(start@, cur@)]);
    r
}

} // verus!
