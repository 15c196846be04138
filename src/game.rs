use vstd::prelude::*;
use vstd::arithmetic::div_mod::{lemma_add_mod_noop, lemma_mod_multiples_vanish, lemma_mod_twice};

use crate::util::{vec3i, Vec3i};

verus! {

/// Side of the cubic grid.
pub const ROW_COUNT: i32 = 6;

/// Number of aligned cells that wins a match.
pub const COUNT_TO_WIN: i32 = 5;

/// Number of cells in the grid (`ROW_COUNT` cubed).
pub const CELL_COUNT: usize = 216;

/// Number of canonical line directions that the win scan tries.
pub const DIRECTION_COUNT: usize = 13;

/// Content of one grid cell.
#[derive(Clone, Copy, PartialEq, Eq, Structural, Debug)]
pub enum BlockType {
    Cross,
    Circle,
    Empty,
}

/// One completed line: the side that made it, its anchor cell and its direction.
#[derive(Clone, Copy, PartialEq, Eq, Structural, Debug)]
pub struct VictoryInfo {
    pub winner: BlockType,
    pub position: Vec3i,
    pub direction: Vec3i,
}

/// Whose turn it is, or the line that ended the match.
#[derive(Clone, Copy, PartialEq, Eq, Structural, Debug)]
pub enum GameState {
    Turn(BlockType),
    GameWon(VictoryInfo),
}

/// The board of a match and the integer state around it.
pub struct Game {
    /// One cell per flattened index, see `pos_to_id`.
    pub blocks: Vec<BlockType>,
    /// Index of the cell placed last, or -1.
    pub last_block_id: i32,
    /// Cube face under the pointer on the last frame, or -1.
    pub last_face_id: i32,
    /// Layer selected with the scroll wheel along the face's depth axis.
    pub depth: i32,
    pub state: GameState,
}

/// A coordinate taken modulo the grid side, in `[0, ROW_COUNT)`.
pub open spec fn wrap(a: int) -> int {
    a % 6
}

/// Flattened index of the cell at `(x, y, z)`, each axis wrapped.
pub open spec fn cell_index(x: int, y: int, z: int) -> int {
    wrap(x) + wrap(y) * 6 + wrap(z) * 36
}

pub open spec fn pos_index(p: (int, int, int)) -> int {
    cell_index(p.0, p.1, p.2)
}

impl Game {
    pub open spec fn wf(&self) -> bool {
        &&& self.blocks@.len() == CELL_COUNT
        &&& 0 <= self.depth < ROW_COUNT
    }
}

/// The thirteen scan directions: one of each pair of opposite axis,
/// face-diagonal and space-diagonal directions.
pub open spec fn win_direction(j: int) -> (int, int, int) {
    if j == 0 {
        (1, 0, 0)
    } else if j == 1 {
        (1, 1, 0)
    } else if j == 2 {
        (1, 1, 1)
    } else if j == 3 {
        (1, -1, 1)
    } else if j == 4 {
        (1, -1, -1)
    } else if j == 5 {
        (1, 1, -1)
    } else if j == 6 {
        (1, 0, -1)
    } else if j == 7 {
        (1, -1, 0)
    } else if j == 8 {
        (0, 1, 0)
    } else if j == 9 {
        (0, 0, 1)
    } else if j == 10 {
        (0, 1, 1)
    } else if j == 11 {
        (0, -1, 1)
    } else {
        (0, 1, -1)
    }
}

/// The `COUNT_TO_WIN` cells from `(x, y, z)` along `d`, wrapped, all hold `t`.
pub open spec fn line_of(
    g: Seq<BlockType>,
    x: int,
    y: int,
    z: int,
    d: (int, int, int),
    t: BlockType,
) -> bool {
    forall|i: int|
        0 <= i < 5 ==> #[trigger] g[cell_index(x + d.0 * i, y + d.1 * i, z + d.2 * i)] == t
}

/// The cell `(x, y, z)` is occupied and starts a winning line along direction `j`.
pub open spec fn wins_at(g: Seq<BlockType>, x: int, y: int, z: int, j: int) -> bool {
    &&& g[cell_index(x, y, z)] != BlockType::Empty
    &&& line_of(g, x, y, z, win_direction(j), g[cell_index(x, y, z)])
}

pub open spec fn in_scan(x: int, y: int, z: int, j: int) -> bool {
    0 <= x < 6 && 0 <= y < 6 && 0 <= z < 6 && 0 <= j < 13
}

/// Scan order: `x`, then `y`, then `z`, then the direction.
pub open spec fn scan_before(a: (int, int, int, int), b: (int, int, int, int)) -> bool {
    ||| a.0 < b.0
    ||| a.0 == b.0 && a.1 < b.1
    ||| a.0 == b.0 && a.1 == b.1 && a.2 < b.2
    ||| a.0 == b.0 && a.1 == b.1 && a.2 == b.2 && a.3 < b.3
}

/// Some cell of the grid starts a winning line.
pub open spec fn has_victory(g: Seq<BlockType>) -> bool {
    exists|x: int, y: int, z: int, j: int| in_scan(x, y, z, j) && #[trigger] wins_at(g, x, y, z, j)
}

/// No winning line starts before `(x, y, z, j)` in scan order.
pub open spec fn none_before(g: Seq<BlockType>, x: int, y: int, z: int, j: int) -> bool {
    forall|a: int, b: int, c: int, k: int|
        in_scan(a, b, c, k) && scan_before((a, b, c, k), (x, y, z, j)) ==> !#[trigger] wins_at(
            g,
            a,
            b,
            c,
            k,
        )
}

/// `info` reports the first winning line in scan order.
pub open spec fn first_victory(g: Seq<BlockType>, info: VictoryInfo) -> bool {
    let p = info.position@;
    exists|j: int|
        #![trigger win_direction(j)]
        in_scan(p.0, p.1, p.2, j) && info.direction@ == win_direction(j) && wins_at(
            g,
            p.0,
            p.1,
            p.2,
            j,
        ) && info.winner == g[cell_index(p.0, p.1, p.2)] && none_before(g, p.0, p.1, p.2, j)
}

/// A coordinate wrapped into `[0, ROW_COUNT)`; negative inputs wrap too.
pub(crate) fn wrap_coord(a: i32) -> (r: i32)
    ensures
        r == wrap(a as int),
        0 <= r < ROW_COUNT,
{
    ((a % ROW_COUNT) + ROW_COUNT) % ROW_COUNT
}

pub fn pos_to_id(pos: &Vec3i) -> (r: i32)
    ensures
        r == pos_index(pos@),
        0 <= r < CELL_COUNT,
{
    wrap_coord(pos.x) + wrap_coord(pos.y) * 6 + wrap_coord(pos.z) * 36
}

pub fn get_block(pos: &Vec3i, game: &Game) -> (r: BlockType)
    requires
        game.wf(),
    ensures
        r == game.blocks@[pos_index(pos@)],
{
    game.blocks[pos_to_id(pos) as usize]
}

pub fn set_block(pos: &Vec3i, value: BlockType, game: &mut Game)
    requires
        old(game).wf(),
    ensures
        final(game).wf(),
        final(game).blocks@ == old(game).blocks@.update(pos_index(pos@), value),
        final(game).last_block_id == old(game).last_block_id,
        final(game).last_face_id == old(game).last_face_id,
        final(game).depth == old(game).depth,
        final(game).state == old(game).state,
{
    let id = pos_to_id(pos) as usize;
    game.blocks.set(id, value);
}

/// The scan direction of rank `j`.
pub fn direction(j: usize) -> (r: Vec3i)
    requires
        j < DIRECTION_COUNT,
    ensures
        r@ == win_direction(j as int),
{
    if j == 0 {
        vec3i(1, 0, 0)
    } else if j == 1 {
        vec3i(1, 1, 0)
    } else if j == 2 {
        vec3i(1, 1, 1)
    } else if j == 3 {
        vec3i(1, -1, 1)
    } else if j == 4 {
        vec3i(1, -1, -1)
    } else if j == 5 {
        vec3i(1, 1, -1)
    } else if j == 6 {
        vec3i(1, 0, -1)
    } else if j == 7 {
        vec3i(1, -1, 0)
    } else if j == 8 {
        vec3i(0, 1, 0)
    } else if j == 9 {
        vec3i(0, 0, 1)
    } else if j == 10 {
        vec3i(0, 1, 1)
    } else if j == 11 {
        vec3i(0, -1, 1)
    } else {
        vec3i(0, 1, -1)
    }
}

/// Whether the `COUNT_TO_WIN` cells from `(x, y, z)` along `d` all hold `t`.
fn line_matches(game: &Game, x: i32, y: i32, z: i32, d: &Vec3i, t: BlockType) -> (r: bool)
    requires
        game.wf(),
        0 <= x < ROW_COUNT,
        0 <= y < ROW_COUNT,
        0 <= z < ROW_COUNT,
        -1 <= d.x <= 1,
        -1 <= d.y <= 1,
        -1 <= d.z <= 1,
    ensures
        r == line_of(game.blocks@, x as int, y as int, z as int, d@, t),
{
    let mut i: i32 = 0;
    while i < COUNT_TO_WIN
        invariant
            game.wf(),
            0 <= x < ROW_COUNT,
            0 <= y < ROW_COUNT,
            0 <= z < ROW_COUNT,
            -1 <= d.x <= 1,
            -1 <= d.y <= 1,
            -1 <= d.z <= 1,
            0 <= i <= COUNT_TO_WIN,
            forall|k: int|
                0 <= k < i ==> #[trigger] game.blocks@[cell_index(
                    x + d.x * k,
                    y + d.y * k,
                    z + d.z * k,
                )] == t,
        decreases COUNT_TO_WIN - i,
    {
        assert(-5 < d.x * i < 5 && -5 < d.y * i < 5 && -5 < d.z * i < 5) by (nonlinear_arith)
            requires
                -1 <= d.x <= 1,
                -1 <= d.y <= 1,
                -1 <= d.z <= 1,
                0 <= i < 5,
        ;
        let cell = vec3i(x + d.x * i, y + d.y * i, z + d.z * i);
        if get_block(&cell, game) != t {
            assert(game.blocks@[cell_index(x + d@.0 * i, y + d@.1 * i, z + d@.2 * i)] != t);
            return false;
        }
        i += 1;
    }
    true
}

/// Looks for a line of `COUNT_TO_WIN` equal occupied cells, scanning the
/// cells in natural order and, at each cell, the directions in rank order;
/// lines may wrap around the grid. The first line found is returned.
pub fn check_for_victory(game: &Game) -> (r: Option<VictoryInfo>)
    requires
        game.wf(),
    ensures
        r is None <==> !has_victory(game.blocks@),
        r matches Some(info) ==> first_victory(game.blocks@, info),
{
    let ghost g = game.blocks@;
    let mut x: i32 = 0;
    while x < ROW_COUNT
        invariant
            game.wf(),
            g == game.blocks@,
            0 <= x <= ROW_COUNT,
            none_before(g, x as int, 0, 0, 0),
        decreases ROW_COUNT - x,
    {
        let mut y: i32 = 0;
        while y < ROW_COUNT
            invariant
                game.wf(),
                g == game.blocks@,
                0 <= x < ROW_COUNT,
                0 <= y <= ROW_COUNT,
                none_before(g, x as int, y as int, 0, 0),
            decreases ROW_COUNT - y,
        {
            let mut z: i32 = 0;
            while z < ROW_COUNT
                invariant
                    game.wf(),
                    g == game.blocks@,
                    0 <= x < ROW_COUNT,
                    0 <= y < ROW_COUNT,
                    0 <= z <= ROW_COUNT,
                    none_before(g, x as int, y as int, z as int, 0),
                decreases ROW_COUNT - z,
            {
                let block_type = get_block(&vec3i(x, y, z), game);
                if block_type != BlockType::Empty {
                    let mut j: usize = 0;
                    while j < DIRECTION_COUNT
                        invariant
                            game.wf(),
                            g == game.blocks@,
                            0 <= x < ROW_COUNT,
                            0 <= y < ROW_COUNT,
                            0 <= z < ROW_COUNT,
                            0 <= j <= DIRECTION_COUNT,
                            block_type == g[cell_index(x as int, y as int, z as int)],
                            block_type != BlockType::Empty,
                            none_before(g, x as int, y as int, z as int, j as int),
                        decreases DIRECTION_COUNT - j,
                    {
                        let d = direction(j);
                        if line_matches(game, x, y, z, &d, block_type) {
                            let info = VictoryInfo {
                                winner: block_type,
                                position: vec3i(x, y, z),
                                direction: d,
                            };
                            assert(wins_at(g, x as int, y as int, z as int, j as int));
                            assert(win_direction(j as int) == info.direction@);
                            return Some(info);
                        }
                        assert(!wins_at(g, x as int, y as int, z as int, j as int));
                        j += 1;
                    }
                    assert(none_before(g, x as int, y as int, z + 1, 0));
                } else {
                    assert forall|k: int| 0 <= k < 13 implies !wins_at(
                        g,
                        x as int,
                        y as int,
                        z as int,
                        k,
                    ) by {}
                    assert(none_before(g, x as int, y as int, z + 1, 0));
                }
                z += 1;
            }
            assert(none_before(g, x as int, y + 1, 0, 0));
            y += 1;
        }
        assert(none_before(g, x + 1, 0, 0, 0));
        x += 1;
    }
    assert(!has_victory(g)) by {
        assert(none_before(g, 6, 0, 0, 0));
    }
    None
}

/// The side that moves after `p`.
pub open spec fn next_player(p: BlockType) -> BlockType {
    if p == BlockType::Cross {
        BlockType::Circle
    } else {
        BlockType::Cross
    }
}

/// The outcome of a click on cell `idx` while it is `s0`'s turn: grid `g0`
/// becomes `g1`, the state `s1` and the last placed cell `last1`.
pub open spec fn click_result(
    g0: Seq<BlockType>,
    s0: GameState,
    last0: i32,
    idx: int,
    g1: Seq<BlockType>,
    s1: GameState,
    last1: i32,
) -> bool {
    let p = s0->Turn_0;
    let placed = g0.update(idx, p);
    if g0[idx] != BlockType::Empty {
        &&& g1 == g0
        &&& last1 == last0
        &&& s1 == s0
    } else {
        &&& g1 == placed
        &&& last1 == idx
        &&& if has_victory(placed) {
            s1 matches GameState::GameWon(info) && first_victory(placed, info)
        } else {
            s1 == GameState::Turn(next_player(p))
        }
    }
}

/// A fresh match: every cell empty, `Cross` to move.
pub fn initial_state() -> (r: Game)
    ensures
        r.wf(),
        forall|i: int| 0 <= i < CELL_COUNT ==> r.blocks@[i] == BlockType::Empty,
        r.last_block_id == -1,
        r.last_face_id == -1,
        r.depth == 0,
        r.state == GameState::Turn(BlockType::Cross),
{
    let mut blocks: Vec<BlockType> = Vec::new();
    let mut i: usize = 0;
    while i < CELL_COUNT
        invariant
            i <= CELL_COUNT,
            blocks@.len() == i,
            forall|k: int| 0 <= k < i ==> blocks@[k] == BlockType::Empty,
        decreases CELL_COUNT - i,
    {
        blocks.push(BlockType::Empty);
        i += 1;
    }
    Game {
        blocks,
        last_block_id: -1,
        last_face_id: -1,
        depth: 0,
        state: GameState::Turn(BlockType::Cross),
    }
}

/// Plays the side to move at `pos` (wrapped). An occupied cell leaves the
/// game as it is. Otherwise the cell is taken, and the game is won if a line
/// now exists, else the turn passes to the other side.
pub fn submit_click(pos: &Vec3i, game: &mut Game)
    requires
        old(game).wf(),
        old(game).state is Turn,
    ensures
        final(game).wf(),
        final(game).last_face_id == old(game).last_face_id,
        final(game).depth == old(game).depth,
        click_result(
            old(game).blocks@,
            old(game).state,
            old(game).last_block_id,
            pos_index(pos@),
            final(game).blocks@,
            final(game).state,
            final(game).last_block_id,
        ),
{
    let current_block = get_block(pos, game);
    let block_type = match game.state {
        GameState::Turn(block_type) => block_type,
        GameState::GameWon(_) => BlockType::Empty,
    };
    if current_block == BlockType::Empty {
        set_block(pos, block_type, game);
        game.last_block_id = pos_to_id(pos);
        let victory_info = check_for_victory(game);
        match victory_info {
            Option::None => {
                if block_type == BlockType::Cross {
                    game.state = GameState::Turn(BlockType::Circle);
                } else {
                    game.state = GameState::Turn(BlockType::Cross);
                }
            },
            Option::Some(info) => {
                game.state = GameState::GameWon(info);
            },
        }
    }
}

/// The side to move, or the winner once the match is over.
pub open spec fn current_player(s: GameState) -> BlockType {
    match s {
        GameState::Turn(p) => p,
        GameState::GameWon(info) => info.winner,
    }
}

pub fn get_current_player(game: &Game) -> (r: BlockType)
    ensures
        r == current_player(game.state),
{
    match game.state {
        GameState::Turn(p) => p,
        GameState::GameWon(info) => info.winner,
    }
}

proof fn lemma_wrap_shift(x: int, a: int)
    ensures
        wrap(wrap(x) + a) == wrap(x + a),
{
    lemma_add_mod_noop(x, a, 6);
    lemma_add_mod_noop(x % 6, a, 6);
    lemma_mod_twice(x, 6);
}

/// Shifting a position by whole grid sides along any axes addresses the
/// same cell.
pub proof fn lemma_index_wraps(x: int, y: int, z: int, kx: int, ky: int, kz: int)
    ensures
        cell_index(x + kx * 6, y + ky * 6, z + kz * 6) == cell_index(x, y, z),
{
    lemma_mod_multiples_vanish(kx, x, 6);
    lemma_mod_multiples_vanish(ky, y, 6);
    lemma_mod_multiples_vanish(kz, z, 6);
    assert(x + kx * 6 == 6 * kx + x);
    assert(y + ky * 6 == 6 * ky + y);
    assert(z + kz * 6 == 6 * kz + z);
}

/// A winning line anchored anywhere, even outside `[0, ROW_COUNT)`, is also
/// a winning line anchored at the wrapped cell.
proof fn lemma_line_wrapped(g: Seq<BlockType>, x: int, y: int, z: int, d: (int, int, int), t: BlockType)
    requires
        line_of(g, x, y, z, d, t),
    ensures
        line_of(g, wrap(x), wrap(y), wrap(z), d, t),
{
    assert forall|i: int| 0 <= i < 5 implies #[trigger] g[cell_index(
        wrap(x) + d.0 * i,
        wrap(y) + d.1 * i,
        wrap(z) + d.2 * i,
    )] == t by {
        lemma_wrap_shift(x, d.0 * i);
        lemma_wrap_shift(y, d.1 * i);
        lemma_wrap_shift(z, d.2 * i);
        assert(g[cell_index(x + d.0 * i, y + d.1 * i, z + d.2 * i)] == t);
    }
}

/// Five equal occupied cells in a straight line along one of the scan
/// directions, or along its opposite, are always found by the scan,
/// whichever cell the line starts from and however it wraps.
pub proof fn lemma_line_detected(
    g: Seq<BlockType>,
    x: int,
    y: int,
    z: int,
    j: int,
    reversed: bool,
    t: BlockType,
)
    requires
        g.len() == CELL_COUNT,
        0 <= j < 13,
        t != BlockType::Empty,
        line_of(
            g,
            x,
            y,
            z,
            if reversed {
                (-win_direction(j).0, -win_direction(j).1, -win_direction(j).2)
            } else {
                win_direction(j)
            },
            t,
        ),
    ensures
        has_victory(g),
{
    let dj = win_direction(j);
    let (ax, ay, az) = if reversed {
        let d = (-dj.0, -dj.1, -dj.2);
        let (qx, qy, qz) = (x + d.0 * 4, y + d.1 * 4, z + d.2 * 4);
        assert forall|i: int| 0 <= i < 5 implies #[trigger] g[cell_index(
            qx + dj.0 * i,
            qy + dj.1 * i,
            qz + dj.2 * i,
        )] == t by {
            let i2 = 4 - i;
            assert(g[cell_index(x + d.0 * i2, y + d.1 * i2, z + d.2 * i2)] == t);
            assert(qx + dj.0 * i == x + d.0 * i2 && qy + dj.1 * i == y + d.1 * i2 && qz + dj.2 * i
                == z + d.2 * i2) by (nonlinear_arith)
                requires
                    d == (-dj.0, -dj.1, -dj.2),
                    qx == x + d.0 * 4,
                    qy == y + d.1 * 4,
                    qz == z + d.2 * 4,
                    i2 == 4 - i,
            ;
        }
        (qx, qy, qz)
    } else {
        (x, y, z)
    };
    assert(line_of(g, ax, ay, az, dj, t));
    lemma_line_wrapped(g, ax, ay, az, dj, t);
    let (wx, wy, wz) = (wrap(ax), wrap(ay), wrap(az));
    assert(g[cell_index(wx + dj.0 * 0, wy + dj.1 * 0, wz + dj.2 * 0)] == t);
    assert(wx + dj.0 * 0 == wx && wy + dj.1 * 0 == wy && wz + dj.2 * 0 == wz);
    assert(wins_at(g, wx, wy, wz, j));
    assert(in_scan(wx, wy, wz, j));
}

/// The image that marks a cell of `t`.
pub fn get_symbol_texture(t: BlockType) -> (r: &'static str)
    ensures
        t == BlockType::Cross ==> r@ == "x.png"@,
        t != BlockType::Cross ==> r@ == "o.png"@,
{
    if t == BlockType::Cross {
        "x.png"
    } else {
        "o.png"
    }
}

/// The image of the side to move, or of the winner.
pub fn get_symbol_texture_of_turn(game: &Game) -> (r: &'static str)
    ensures
        r@ == (if current_player(game.state) == BlockType::Cross {
            "x.png"@
        } else {
            "o.png"@
        }),
{
    get_symbol_texture(get_current_player(game))
}

} // verus!
