use vstd::prelude::*;
use crate::event::InputKey;

verus! {

/// One physical input line and the logical key that its rising edges raise.
#[derive(Debug, Clone, Copy, PartialEq, Eq, Structural)]
pub struct InputLine {
    pub pin: u8,
    pub key: InputKey,
}

/// The physical lines in the order in which they are acquired, named by the
/// key they carry in the upright enclosure.
pub open spec fn line_order(i: int) -> InputKey {
    if i == 0 {
        InputKey::JoyUp
    } else if i == 1 {
        InputKey::JoyDown
    } else if i == 2 {
        InputKey::JoyLeft
    } else if i == 3 {
        InputKey::JoyRight
    } else if i == 4 {
        InputKey::JoyPress
    } else if i == 5 {
        InputKey::Key1
    } else if i == 6 {
        InputKey::Key2
    } else {
        InputKey::Key3
    }
}

/// The pin wired to the control that carries `k` in the upright enclosure.
pub open spec fn pin_of(k: InputKey) -> u8 {
    match k {
        InputKey::JoyUp => 6,
        InputKey::JoyDown => 19,
        InputKey::JoyLeft => 5,
        InputKey::JoyRight => 26,
        InputKey::JoyPress => 13,
        InputKey::Key1 => 21,
        InputKey::Key2 => 20,
        InputKey::Key3 => 16,
    }
}

/// The logical key of the control that carries `k` upright, once the
/// enclosure is turned half a turn when `flip` holds: the joystick's
/// directions swap with their opposites, the press and the buttons stay.
pub open spec fn oriented_key(k: InputKey, flip: bool) -> InputKey {
    if !flip {
        k
    } else {
        match k {
            InputKey::JoyUp => InputKey::JoyDown,
            InputKey::JoyDown => InputKey::JoyUp,
            InputKey::JoyLeft => InputKey::JoyRight,
            InputKey::JoyRight => InputKey::JoyLeft,
            other => other,
        }
    }
}

/// Number of input lines.
pub const INPUT_LINES: usize = 8;

fn upright_line(i: usize) -> (r: InputLine)
    requires
        i < INPUT_LINES,
    ensures
        r.key == line_order(i as int),
        r.pin == pin_of(r.key),
{
    if i == 0 {
        InputLine { pin: 6, key: InputKey::JoyUp }
    } else if i == 1 {
        InputLine { pin: 19, key: InputKey::JoyDown }
    } else if i == 2 {
        InputLine { pin: 5, key: InputKey::JoyLeft }
    } else if i == 3 {
        InputLine { pin: 26, key: InputKey::JoyRight }
    } else if i == 4 {
        InputLine { pin: 13, key: InputKey::JoyPress }
    } else if i == 5 {
        InputLine { pin: 21, key: InputKey::Key1 }
    } else if i == 6 {
        InputLine { pin: 20, key: InputKey::Key2 }
    } else {
        InputLine { pin: 16, key: InputKey::Key3 }
    }
}

/// The key that `k` stands for once the enclosure is flipped (or not).
pub fn orient_key(k: InputKey, flip: bool) -> (r: InputKey)
    ensures
        r == oriented_key(k, flip),
{
    if !flip {
        k
    } else {
        match k {
            InputKey::JoyUp => InputKey::JoyDown,
            InputKey::JoyDown => InputKey::JoyUp,
            InputKey::JoyLeft => InputKey::JoyRight,
            InputKey::JoyRight => InputKey::JoyLeft,
            other => other,
        }
    }
}

/// The input lines to acquire, each with the logical key it raises. The
/// orientation is settled here, once, so that events downstream carry the
/// key the user meant whichever way the enclosure is mounted.
pub fn input_lines(flip: bool) -> (r: Vec<InputLine>)
    ensures
        r@.len() == INPUT_LINES,
        forall|i: int|
            0 <= i < INPUT_LINES ==> (#[trigger] r@[i]).pin == pin_of(line_order(i))
                && r@[i].key == oriented_key(line_order(i), flip),
{
    let mut lines: Vec<InputLine> = Vec::new();
    let mut i: usize = 0;
    while i < INPUT_LINES
        invariant
            i <= INPUT_LINES,
            lines@.len() == i,
            forall|j: int|
                0 <= j < i ==> (#[trigger] lines@[j]).pin == pin_of(line_order(j))
                    && lines@[j].key == oriented_key(line_order(j), flip),
        decreases INPUT_LINES - i,
    {
        let upright = upright_line(i);
        lines.push(InputLine { pin: upright.pin, key: orient_key(upright.key, flip) });
        i = i + 1;
    }
    lines
}

/// Each key is raised by exactly one line, whichever the orientation.
pub proof fn lemma_lines_cover_each_key_once(flip: bool, k: InputKey)
    ensures
        exists|i: int| 0 <= i < INPUT_LINES && #[trigger] oriented_key(line_order(i), flip) == k,
        forall|i: int, j: int|
            0 <= i < INPUT_LINES && 0 <= j < INPUT_LINES
                && #[trigger] oriented_key(line_order(i), flip)
                == #[trigger] oriented_key(line_order(j), flip) ==> i == j,
{
    let w = if !flip {
        match k {
            InputKey::JoyUp => 0int,
            InputKey::JoyDown => 1,
            InputKey::JoyLeft => 2,
            InputKey::JoyRight => 3,
            InputKey::JoyPress => 4,
            InputKey::Key1 => 5,
            InputKey::Key2 => 6,
            InputKey::Key3 => 7,
        }
    } else {
        match k {
            InputKey::JoyUp => 1int,
            InputKey::JoyDown => 0,
            InputKey::JoyLeft => 3,
            InputKey::JoyRight => 2,
            InputKey::JoyPress => 4,
            InputKey::Key1 => 5,
            InputKey::Key2 => 6,
            InputKey::Key3 => 7,
        }
    };
    assert(oriented_key(line_order(w), flip) == k);
}

/// The two orientations of the screen.
#[derive(Debug, Clone, Copy, PartialEq, Eq, Structural)]
pub enum Rotation {
    Rotate0,
    Rotate180,
}

/// The pin that holds the screen's controller out of reset.
pub const DISPLAY_RESET_PIN: u8 = 25;

/// The screen's rotation: half a turn when the screen is flipped.
pub fn screen_rotation(flip: bool) -> (r: Rotation)
    ensures
        r == (if flip { Rotation::Rotate180 } else { Rotation::Rotate0 }),
{
    if flip {
        Rotation::Rotate180
    } else {
        Rotation::Rotate0
    }
}

} // verus!
