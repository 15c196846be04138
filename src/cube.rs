use vstd::prelude::*;

use crate::game::{click_result, pos_index, submit_click, Game, GameState, ROW_COUNT};
use crate::input::Input;
use crate::util::{vec3i_arr, Vec3i};

verus! {

/// Number of faces of the cube.
pub const FACE_COUNT: usize = 6;

/// The cell under the pointer: its grid coordinates on the face, which two
/// grid axes span the face, and the axis that the scroll wheel walks.
#[derive(Clone, Copy, Debug)]
pub struct CubePosition {
    /// Grid coordinates; the wheel axis holds 0.
    pub coords: [i32; 3],
    /// Grid axis that goes into the cube from this face.
    pub wheel_direction: usize,
    /// Grid axis of the face's first tangent.
    pub tangent1: usize,
    /// Grid axis of the face's second tangent.
    pub tangent2: usize,
    /// Depth 0 is the last layer along the wheel axis rather than the first.
    pub is_wheel_inverted: bool,
    pub face_id: i32,
}

/// Per face, the grid axes of the two tangents and of the depth, counted
/// from 1; a positive depth axis means that depth 0 is the far layer.
pub open spec fn face_axes(f: int) -> (int, int, int) {
    if f == 0 {
        (3, 2, -1)
    } else if f == 1 {
        (3, 2, 1)
    } else if f == 2 {
        (3, 1, -2)
    } else if f == 3 {
        (3, 1, 2)
    } else if f == 4 {
        (1, 2, 3)
    } else {
        (1, 2, -3)
    }
}

pub open spec fn abs(a: int) -> int {
    if a < 0 {
        -a
    } else {
        a
    }
}

impl CubePosition {
    /// The position describes cell `(u, v)` of face `f`.
    pub open spec fn on_face(&self, f: int, u: int, v: int) -> bool {
        let a = face_axes(f);
        &&& self.face_id == f
        &&& self.tangent1 == a.0 - 1
        &&& self.tangent2 == a.1 - 1
        &&& self.wheel_direction == abs(a.2) - 1
        &&& self.is_wheel_inverted == (a.2 > 0)
        &&& self.coords@[a.0 - 1] == u
        &&& self.coords@[a.1 - 1] == v
        &&& self.coords@[abs(a.2) - 1] == 0
    }

    pub open spec fn wf(&self) -> bool {
        exists|f: int, u: int, v: int| 0 <= f < 6 && #[trigger] self.on_face(f, u, v)
    }
}

/// The position of cell `(u, v)` of face `face`, where `u` runs along the
/// face's first tangent and `v` along its second.
pub fn face_position(face: usize, u: i32, v: i32) -> (r: CubePosition)
    requires
        face < FACE_COUNT,
    ensures
        r.on_face(face as int, u as int, v as int),
        r.wf(),
{
    let (a0, a1, a2): (usize, usize, i32) = if face == 0 {
        (3, 2, -1)
    } else if face == 1 {
        (3, 2, 1)
    } else if face == 2 {
        (3, 1, -2)
    } else if face == 3 {
        (3, 1, 2)
    } else if face == 4 {
        (1, 2, 3)
    } else {
        (1, 2, -3)
    };
    let wheel: usize = if a2 < 0 {
        (-a2 - 1) as usize
    } else {
        (a2 - 1) as usize
    };
    let mut coords: [i32; 3] = [0, 0, 0];
    coords[a0 - 1] = u;
    coords[a1 - 1] = v;
    let r = CubePosition {
        coords,
        wheel_direction: wheel,
        tangent1: a0 - 1,
        tangent2: a1 - 1,
        is_wheel_inverted: a2 > 0,
        face_id: face as i32,
    };
    assert(r.on_face(face as int, u as int, v as int));
    r
}

/// The layer after one frame of wheel input: down steps towards 0, up
/// towards `ROW_COUNT - 1`; down wins when both came.
pub open spec fn next_depth(depth: int, input: Input) -> int {
    if input.wheel_down {
        if depth > 0 {
            depth - 1
        } else {
            depth
        }
    } else if input.wheel_up {
        if depth < 5 {
            depth + 1
        } else {
            depth
        }
    } else {
        depth
    }
}

/// The cell at layer `depth` of the column under `pos`.
pub open spec fn target_cell(pos: CubePosition, depth: int) -> (int, int, int) {
    let c = pos.coords@;
    let layer = if pos.is_wheel_inverted {
        5 - depth
    } else {
        depth
    };
    let w = pos.wheel_direction as int;
    (
        if w == 0 {
            layer
        } else {
            c[0] as int
        },
        if w == 1 {
            layer
        } else {
            c[1] as int
        },
        if w == 2 {
            layer
        } else {
            c[2] as int
        },
    )
}

/// The cell at layer `depth` of the column under `pos`.
pub fn column_cell(pos: &CubePosition, depth: i32) -> (r: Vec3i)
    requires
        pos.wf(),
        0 <= depth < ROW_COUNT,
    ensures
        r@ == target_cell(*pos, depth as int),
{
    let mut block_pos = pos.coords;
    if pos.is_wheel_inverted {
        block_pos[pos.wheel_direction] = ROW_COUNT - 1 - depth;
    } else {
        block_pos[pos.wheel_direction] = depth;
    }
    vec3i_arr(block_pos)
}

/// One frame of play while a side is to move: the wheel picks the layer,
/// a release of the right button plays the cell at that layer of the column
/// under the pointer, and the face under the pointer is remembered. Returns
/// the cell aimed at, if the pointer is on the cube.
pub fn handle_turn(pos_on_cube: Option<CubePosition>, input: &Input, game: &mut Game) -> (r: Option<
    Vec3i,
>)
    requires
        old(game).wf(),
        old(game).state is Turn,
        pos_on_cube matches Some(p) ==> p.wf(),
    ensures
        final(game).wf(),
        match pos_on_cube {
            Option::None => {
                &&& r is None
                &&& final(game).last_face_id == -1
                &&& final(game).depth == old(game).depth
                &&& final(game).blocks@ == old(game).blocks@
                &&& final(game).state == old(game).state
                &&& final(game).last_block_id == old(game).last_block_id
            },
            Option::Some(p) => {
                let depth = next_depth(old(game).depth as int, *input);
                &&& final(game).depth == depth
                &&& final(game).last_face_id == p.face_id
                &&& r matches Some(cell) && cell@ == target_cell(p, depth)
                &&& if input.rmb.up {
                    click_result(
                        old(game).blocks@,
                        old(game).state,
                        old(game).last_block_id,
                        pos_index(target_cell(p, depth)),
                        final(game).blocks@,
                        final(game).state,
                        final(game).last_block_id,
                    )
                } else {
                    &&& final(game).blocks@ == old(game).blocks@
                    &&& final(game).state == old(game).state
                    &&& final(game).last_block_id == old(game).last_block_id
                }
            },
        },
{
    match pos_on_cube {
        Option::Some(pos) => {
            if input.wheel_down {
                if game.depth > 0 {
                    game.depth -= 1;
                }
            } else if input.wheel_up {
                if game.depth < ROW_COUNT - 1 {
                    game.depth += 1;
                }
            }
            let pos_vec = column_cell(&pos, game.depth);
            if input.rmb.up {
                submit_click(&pos_vec, game);
            }
            game.last_face_id = pos.face_id;
            Option::Some(pos_vec)
        },
        Option::None => {
            game.last_face_id = -1;
            Option::None
        },
    }
}

/// What a pointer press does to the drag this frame.
#[derive(Clone, Copy, PartialEq, Eq, Structural, Debug)]
pub enum Press {
    /// No new press.
    Idle,
    /// A press that starts a drag from the point hit on the cube.
    OnCube,
    /// A press that missed the cube: no drag.
    OffCube,
}

/// The steps of the rotation controller for one frame.
#[derive(Clone, Copy, PartialEq, Eq, Structural, Debug)]
pub struct DragPlan {
    pub press: Press,
    /// Rotate the cube to follow the pointer, and measure its velocity.
    pub rotate: bool,
    /// Record the current orientation and time as the release pose.
    pub snapshot_release: bool,
    /// Let the release velocity decay onto the release pose.
    pub coast: bool,
}

/// The rotation controller's decisions for one frame, from the left and
/// middle buttons, whether a drag is under way (`grabbing`) and whether the
/// pointer ray hits the cube (`hit`).
pub fn plan_drag(input: &Input, grabbing: bool, hit: bool) -> (r: DragPlan)
    ensures
        ({
            let hold = input.lmb.hold || input.mmb.hold;
            let edge = input.lmb.down || input.mmb.down;
            &&& r.press == if hold && edge {
                if hit {
                    Press::OnCube
                } else {
                    Press::OffCube
                }
            } else {
                Press::Idle
            }
            &&& r.rotate == (hold && !edge && grabbing)
            &&& r.snapshot_release == (hold && !edge)
            &&& r.coast == !(hold && grabbing)
        }),
{
    let hold = input.lmb.hold || input.mmb.hold;
    let edge = input.lmb.down || input.mmb.down;
    let press = if hold && edge {
        if hit {
            Press::OnCube
        } else {
            Press::OffCube
        }
    } else {
        Press::Idle
    };
    DragPlan {
        press,
        rotate: hold && !edge && grabbing,
        snapshot_release: hold && !edge,
        coast: !(hold && grabbing),
    }
}

} // verus!
