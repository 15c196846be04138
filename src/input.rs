use vstd::prelude::*;

verus! {

/// Edge and hold state of one mouse button over a frame.
#[derive(Clone, Copy, PartialEq, Eq, Structural, Debug)]
pub struct ButtonInfo {
    /// The button went from released to pressed during the frame.
    pub down: bool,
    /// The button went from pressed to released during the frame.
    pub up: bool,
    /// The button is pressed.
    pub hold: bool,
}

/// Pointer input gathered over one frame.
#[derive(Clone, Copy, PartialEq, Eq, Structural, Debug)]
pub struct Input {
    pub lmb: ButtonInfo,
    pub rmb: ButtonInfo,
    pub mmb: ButtonInfo,
    pub wheel_up: bool,
    pub wheel_down: bool,
}

pub open spec fn released() -> ButtonInfo {
    ButtonInfo { down: false, up: false, hold: false }
}

/// Every button released, no wheel motion.
pub fn get_input() -> (r: Input)
    ensures
        r == (Input {
            lmb: released(),
            rmb: released(),
            mmb: released(),
            wheel_up: false,
            wheel_down: false,
        }),
{
    Input { lmb: get_info(), rmb: get_info(), mmb: get_info(), wheel_up: false, wheel_down: false }
}

/// A released button with no edge.
pub fn get_info() -> (r: ButtonInfo)
    ensures
        r == released(),
{
    ButtonInfo { down: false, up: false, hold: false }
}

/// Records a press (`pressed`) or a release of the button.
pub fn update_info(pressed: bool, info: &mut ButtonInfo)
    ensures
        pressed ==> *final(info) == (ButtonInfo { down: true, up: old(info).up, hold: true }),
        !pressed ==> *final(info) == (ButtonInfo { down: old(info).down, up: true, hold: false }),
{
    if pressed {
        info.down = true;
        info.hold = true;
    } else {
        info.up = true;
        info.hold = false;
    }
}

/// Clears the edges of a button; whether it is held stays.
pub fn reset_info(info: &mut ButtonInfo)
    ensures
        *final(info) == (ButtonInfo { down: false, up: false, hold: old(info).hold }),
{
    info.down = false;
    info.up = false;
}

/// Clears the edges of every button and the wheel, at the end of a frame.
pub fn reset_input(input: &mut Input)
    ensures
        final(input).lmb == (ButtonInfo { down: false, up: false, hold: old(input).lmb.hold }),
        final(input).rmb == (ButtonInfo { down: false, up: false, hold: old(input).rmb.hold }),
        final(input).mmb == (ButtonInfo { down: false, up: false, hold: old(input).mmb.hold }),
        !final(input).wheel_up,
        !final(input).wheel_down,
{
    reset_info(&mut input.lmb);
    reset_info(&mut input.rmb);
    reset_info(&mut input.mmb);
    input.wheel_up = false;
    input.wheel_down = false;
}

} // verus!
