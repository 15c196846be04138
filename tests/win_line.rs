use cube_tactoe::game::{BlockType, VictoryInfo};
use cube_tactoe::util::vec3i;
use cube_tactoe::win_line::line_of_winner_segments;

fn info(p: (i32, i32, i32), d: (i32, i32, i32)) -> VictoryInfo {
    VictoryInfo { winner: BlockType::Cross, position: vec3i(p.0, p.1, p.2), direction: vec3i(d.0, d.1, d.2) }
}

#[test]
fn straight_line_is_one_piece() {
    let s = line_of_winner_segments(&info((0, 0, 0), (1, 0, 0)));
    assert_eq!(s, vec![(vec3i(0, 0, 0), vec3i(4, 0, 0))]);
}

#[test]
fn wrapping_line_is_split_at_the_face() {
    let s = line_of_winner_segments(&info((3, 2, 1), (1, 0, 0)));
    assert_eq!(
        s,
        vec![(vec3i(3, 2, 1), vec3i(6, 2, 1)), (vec3i(-1, 2, 1), vec3i(1, 2, 1))]
    );
}

#[test]
fn anchor_outside_the_grid_is_wrapped() {
    let s = line_of_winner_segments(&info((-6, 8, 0), (0, 1, -1)));
    // starts at (0, 2, 0): z leaves at once, y later
    assert_eq!(
        s,
        vec![
            (vec3i(0, 2, 0), vec3i(0, 3, -1)),
            (vec3i(0, 2, 6), vec3i(0, 6, 2)),
            (vec3i(0, -1, 3), vec3i(0, 0, 2)),
        ]
    );
}

#[test]
fn diagonal_wrapping_twice() {
    let s = line_of_winner_segments(&info((2, 4, 0), (1, 1, 0)));
    assert_eq!(
        s,
        vec![
            (vec3i(2, 4, 0), vec3i(4, 6, 0)),
            (vec3i(3, -1, 0), vec3i(6, 2, 0)),
            (vec3i(-1, 1, 0), vec3i(0, 2, 0)),
        ]
    );
}
