use cube_tactoe::game::{
    check_for_victory, get_block, get_current_player, get_symbol_texture,
    get_symbol_texture_of_turn, initial_state, pos_to_id, set_block, submit_click, BlockType,
    GameState, VictoryInfo, CELL_COUNT,
};
use cube_tactoe::util::vec3i;

#[test]
fn index_of_cells_in_range() {
    assert_eq!(pos_to_id(&vec3i(0, 0, 0)), 0);
    assert_eq!(pos_to_id(&vec3i(1, 2, 3)), 1 + 2 * 6 + 3 * 36);
    assert_eq!(pos_to_id(&vec3i(5, 5, 5)), 215);
}

#[test]
fn index_wraps_negative_and_large() {
    assert_eq!(pos_to_id(&vec3i(-1, 0, 0)), 5);
    assert_eq!(pos_to_id(&vec3i(-7, 0, 0)), 5);
    assert_eq!(pos_to_id(&vec3i(0, -13, 6)), 5 * 6);
    assert_eq!(pos_to_id(&vec3i(i32::MIN, i32::MAX, 0)), pos_to_id(&vec3i(i32::MIN % 6 + 6, i32::MAX % 6, 0)));
}

#[test]
fn index_invariant_under_whole_turns() {
    for x in -20..20 {
        for k in -4..4 {
            assert_eq!(pos_to_id(&vec3i(x + k * 6, 3, 4)), pos_to_id(&vec3i(x, 3, 4)));
            assert_eq!(pos_to_id(&vec3i(1, x + k * 6, 2)), pos_to_id(&vec3i(1, x, 2)));
            assert_eq!(pos_to_id(&vec3i(0, 2, x + k * 6)), pos_to_id(&vec3i(0, 2, x)));
        }
    }
}

#[test]
fn fresh_game_is_empty_with_cross_to_move() {
    let game = initial_state();
    assert_eq!(game.blocks.len(), CELL_COUNT);
    assert!(game.blocks.iter().all(|b| *b == BlockType::Empty));
    assert_eq!(game.state, GameState::Turn(BlockType::Cross));
    assert_eq!(game.last_block_id, -1);
    assert_eq!(game.depth, 0);
    assert!(check_for_victory(&game).is_none());
}

#[test]
fn set_and_get_wrap() {
    let mut game = initial_state();
    set_block(&vec3i(-1, 6, 2), BlockType::Circle, &mut game);
    assert_eq!(get_block(&vec3i(5, 0, 2), &game), BlockType::Circle);
    assert_eq!(get_block(&vec3i(5, 0, 3), &game), BlockType::Empty);
}

#[test]
fn win_detection_scenario() {
    let mut game = initial_state();
    let crosses = [(0, 0, 0), (1, 0, 0), (2, 0, 0), (3, 0, 0)];
    let circles = [(0, 3, 3), (2, 4, 1), (5, 5, 5), (1, 3, 0)];
    for i in 0..4 {
        let (x, y, z) = crosses[i];
        submit_click(&vec3i(x, y, z), &mut game);
        assert_eq!(game.state, GameState::Turn(BlockType::Circle));
        let (x, y, z) = circles[i];
        submit_click(&vec3i(x, y, z), &mut game);
        assert_eq!(game.state, GameState::Turn(BlockType::Cross));
    }
    submit_click(&vec3i(4, 0, 0), &mut game);
    assert_eq!(
        game.state,
        GameState::GameWon(VictoryInfo {
            winner: BlockType::Cross,
            position: vec3i(0, 0, 0),
            direction: vec3i(1, 0, 0),
        })
    );
    assert_eq!(game.last_block_id, 4);
    assert_eq!(get_current_player(&game), BlockType::Cross);
}

#[test]
fn occupied_cell_rejected() {
    let mut game = initial_state();
    submit_click(&vec3i(0, 0, 0), &mut game);
    assert_eq!(game.state, GameState::Turn(BlockType::Circle));
    let blocks_before = game.blocks.clone();
    submit_click(&vec3i(0, 0, 0), &mut game);
    assert_eq!(game.blocks, blocks_before);
    assert_eq!(game.state, GameState::Turn(BlockType::Circle));
    assert_eq!(get_block(&vec3i(0, 0, 0), &game), BlockType::Cross);
    assert_eq!(game.last_block_id, 0);
}

#[test]
fn line_wrapping_around_a_face_is_found() {
    let mut game = initial_state();
    for x in [4, 5, 0, 1, 2] {
        set_block(&vec3i(x, 2, 3), BlockType::Circle, &mut game);
    }
    let info = check_for_victory(&game).expect("a wrapped line wins");
    assert_eq!(info.winner, BlockType::Circle);
    assert_eq!(info.position, vec3i(4, 2, 3));
    assert_eq!(info.direction, vec3i(1, 0, 0));
}

#[test]
fn four_in_a_row_is_no_win() {
    let mut game = initial_state();
    for x in 0..4 {
        set_block(&vec3i(x, 1, 1), BlockType::Cross, &mut game);
    }
    assert!(check_for_victory(&game).is_none());
    set_block(&vec3i(4, 1, 1), BlockType::Circle, &mut game);
    assert!(check_for_victory(&game).is_none());
}

#[test]
fn every_direction_and_its_reverse_is_found() {
    let dirs = [
        (1, 0, 0), (1, 1, 0), (1, 1, 1), (1, -1, 1), (1, -1, -1), (1, 1, -1), (1, 0, -1),
        (1, -1, 0), (0, 1, 0), (0, 0, 1), (0, 1, 1), (0, -1, 1), (0, 1, -1),
    ];
    for (j, (dx, dy, dz)) in dirs.iter().enumerate() {
        for sign in [1, -1] {
            let mut game = initial_state();
            let (sx, sy, sz) = (2, 3, 1);
            for i in 0..5 {
                set_block(
                    &vec3i(sx + sign * dx * i, sy + sign * dy * i, sz + sign * dz * i),
                    BlockType::Cross,
                    &mut game,
                );
            }
            let info = check_for_victory(&game).expect("line found");
            assert_eq!(info.winner, BlockType::Cross);
            let d = info.direction;
            assert!(
                d == vec3i(*dx, *dy, *dz) || d == vec3i(-dx, -dy, -dz),
                "direction {}: {:?}",
                j,
                d
            );
        }
    }
}

#[test]
fn first_line_in_scan_order_is_reported() {
    let mut game = initial_state();
    // a diagonal anchored at (1,0,0) and an axis line anchored at (2,0,0)
    for i in 0..5 {
        set_block(&vec3i(1 + i, i, 0), BlockType::Circle, &mut game);
        set_block(&vec3i(2, i + 1, 3), BlockType::Cross, &mut game);
    }
    let info = check_for_victory(&game).expect("lines present");
    assert_eq!(info.position, vec3i(1, 0, 0));
    assert_eq!(info.direction, vec3i(1, 1, 0));
    assert_eq!(info.winner, BlockType::Circle);
}

#[test]
fn symbol_textures() {
    assert_eq!(get_symbol_texture(BlockType::Cross), "x.png");
    assert_eq!(get_symbol_texture(BlockType::Circle), "o.png");
    let mut game = initial_state();
    assert_eq!(get_symbol_texture_of_turn(&game), "x.png");
    submit_click(&vec3i(3, 3, 3), &mut game);
    assert_eq!(get_symbol_texture_of_turn(&game), "o.png");
}
