use cube_tactoe::input::{get_info, get_input, reset_info, reset_input, update_info, ButtonInfo};

#[test]
fn fresh_input_is_neutral() {
    let input = get_input();
    for b in [input.lmb, input.rmb, input.mmb] {
        assert_eq!(b, ButtonInfo { down: false, up: false, hold: false });
    }
    assert!(!input.wheel_up && !input.wheel_down);
    assert_eq!(get_info(), ButtonInfo { down: false, up: false, hold: false });
}

#[test]
fn press_and_release_edges() {
    let mut b = get_info();
    update_info(true, &mut b);
    assert_eq!(b, ButtonInfo { down: true, up: false, hold: true });
    update_info(false, &mut b);
    assert_eq!(b, ButtonInfo { down: true, up: true, hold: false });
    reset_info(&mut b);
    assert_eq!(b, ButtonInfo { down: false, up: false, hold: false });
}

#[test]
fn reset_keeps_hold() {
    let mut input = get_input();
    update_info(true, &mut input.lmb);
    update_info(true, &mut input.rmb);
    update_info(false, &mut input.rmb);
    input.wheel_up = true;
    input.wheel_down = true;
    reset_input(&mut input);
    assert_eq!(input.lmb, ButtonInfo { down: false, up: false, hold: true });
    assert_eq!(input.rmb, ButtonInfo { down: false, up: false, hold: false });
    assert!(!input.wheel_up && !input.wheel_down);
}
