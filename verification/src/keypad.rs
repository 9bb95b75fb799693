use vstd::prelude::*;
use crate::utils::bit_masks::{bit_set, flip_bit_u8, BIT_4_MASK, BIT_5_MASK};

verus! {

/// The buttons of the Game Boy, in the order of their slots in a `Joypad`.
#[derive(Clone, Copy, PartialEq, Eq, Structural, Debug)]
pub enum Button {
    A,
    B,
    Start,
    Select,
    Up,
    Down,
    Right,
    Left,
}

pub const NUM_OF_KEYS: usize = 8;

/// The slot of a button in `Joypad::buttons`.
pub open spec fn button_slot(button: Button) -> int {
    match button {
        Button::A => 0,
        Button::B => 1,
        Button::Start => 2,
        Button::Select => 3,
        Button::Up => 4,
        Button::Down => 5,
        Button::Right => 6,
        Button::Left => 7,
    }
}

impl Button {
    /// The slot of this button in `Joypad::buttons`.
    pub fn slot(self) -> (r: usize)
        ensures
            r == button_slot(self),
            r < NUM_OF_KEYS,
    {
        match self {
            Button::A => 0,
            Button::B => 1,
            Button::Start => 2,
            Button::Select => 3,
            Button::Up => 4,
            Button::Down => 5,
            Button::Right => 6,
            Button::Left => 7,
        }
    }
}

/// Which buttons are held down, one slot per button.
#[derive(Clone, Copy)]
pub struct Joypad {
    pub buttons: [bool; NUM_OF_KEYS],
}

impl Default for Joypad {
    fn default() -> (r: Joypad)
        ensures
            forall|i: int| 0 <= i < NUM_OF_KEYS ==> !r.buttons@[i],
    {
        Joypad { buttons: [false; NUM_OF_KEYS] }
    }
}

/// The button held in the slot of `button`.
pub open spec fn pressed(joypad: Joypad, button: Button) -> bool {
    joypad.buttons@[button_slot(button)]
}

/// The action button read on line `bit` (0 to 3) of the joypad register.
pub open spec fn action_button(bit: u8) -> Button {
    if bit == 0 {
        Button::A
    } else if bit == 1 {
        Button::B
    } else if bit == 2 {
        Button::Select
    } else {
        Button::Start
    }
}

/// The direction button read on line `bit` (0 to 3) of the joypad register.
pub open spec fn direction_button(bit: u8) -> Button {
    if bit == 0 {
        Button::Right
    } else if bit == 1 {
        Button::Left
    } else if bit == 2 {
        Button::Up
    } else {
        Button::Down
    }
}

/// The joypad register (P1): bits 4 and 5 select the direction and the action lines,
/// and a selected line reads 0 while its button is held.
pub struct JoypadHandler {
    register: u8,
    joypad: Joypad,
}

impl JoypadHandler {
    /// The current value of the register.
    pub closed spec fn register(&self) -> u8 {
        self.register
    }

    /// The buttons as last reported.
    pub closed spec fn joypad(&self) -> Joypad {
        self.joypad
    }

    pub fn new() -> (r: Self)
        ensures
            r.register() == 0xFF,
            forall|i: int| 0 <= i < NUM_OF_KEYS ==> !r.joypad().buttons@[i],
    {
        Self { register: 0xFF, joypad: Joypad::default() }
    }

    pub fn update_joypad(&mut self, joypad: Joypad)
        ensures
            final(self).joypad() == joypad,
            final(self).register() == old(self).register(),
    {
        self.joypad = joypad;
    }

    /// Refreshes the button lines that bits 4 and 5 select and returns the register.
    /// When both groups are selected the direction buttons win.
    pub fn get_register(&mut self) -> (r: u8)
        ensures
            r == final(self).register(),
            final(self).joypad() == old(self).joypad(),
            forall|i: u8| 4 <= i < 8 ==> bit_set(r, i) == bit_set(old(self).register(), i),
            forall|i: u8|
                i < 4 ==> bit_set(r, i) == if !bit_set(old(self).register(), 4) {
                    !pressed(old(self).joypad(), direction_button(i))
                } else if !bit_set(old(self).register(), 5) {
                    !pressed(old(self).joypad(), action_button(i))
                } else {
                    bit_set(old(self).register(), i)
                },
            lines_read(old(self).register(), old(self).joypad(), r),
    {
        let ghost start = self.register;
        let buttons = (self.register & BIT_5_MASK) == 0;
        let directions = (self.register & BIT_4_MASK) == 0;
        assert(buttons == !bit_set(start, 5) && directions == !bit_set(start, 4)) by (bit_vector)
            requires
                buttons == (start & 0b0010_0000 == 0),
                directions == (start & 0b0001_0000 == 0),
        ;
        let pad = self.joypad;
        if buttons {
            flip_bit_u8(&mut self.register, 0, !pad.buttons[Button::A.slot()]);
            flip_bit_u8(&mut self.register, 1, !pad.buttons[Button::B.slot()]);
            flip_bit_u8(&mut self.register, 2, !pad.buttons[Button::Select.slot()]);
            flip_bit_u8(&mut self.register, 3, !pad.buttons[Button::Start.slot()]);
        }
        let ghost middle = self.register;
        assert(forall|i: u8| i < 8 ==> bit_set(middle, i) == if i < 4 && buttons {
            !pressed(pad, action_button(i))
        } else {
            bit_set(start, i)
        });
        if directions {
            flip_bit_u8(&mut self.register, 0, !pad.buttons[Button::Right.slot()]);
            flip_bit_u8(&mut self.register, 1, !pad.buttons[Button::Left.slot()]);
            flip_bit_u8(&mut self.register, 2, !pad.buttons[Button::Up.slot()]);
            flip_bit_u8(&mut self.register, 3, !pad.buttons[Button::Down.slot()]);
        }
        proof {
            assert(forall|i: u8|
                i < 4 ==> #[trigger] bit_set(self.register, i) == if !bit_set(start, 4) {
                    !pressed(pad, direction_button(i))
                } else if !bit_set(start, 5) {
                    !pressed(pad, action_button(i))
                } else {
                    bit_set(start, i)
                });
            lemma_joypad_lines(start, pad, self.register);
        }
        self.register
    }

    /// Writes the line selection bits (4 and 5); the other bits cannot be written.
    pub fn set_register(&mut self, value: u8)
        ensures
            final(self).register() == (old(self).register() & 0b1100_1111) | (value & 0b0011_0000),
            final(self).joypad() == old(self).joypad(),
    {
        self.register = self.register & 0b1100_1111;
        self.register = self.register | (value & 0b0011_0000);
    }
}

/// Selecting lines through the register and reading it back: bits 4 and 5 read as written,
/// bits 6 and 7 keep their value.
pub proof fn lemma_select_bits_read_back(register: u8, value: u8)
    ensures
        ({
            let written = (register & 0b1100_1111) | (value & 0b0011_0000);
            &&& bit_set(written, 4) == bit_set(value, 4)
            &&& bit_set(written, 5) == bit_set(value, 5)
            &&& bit_set(written, 6) == bit_set(register, 6)
            &&& bit_set(written, 7) == bit_set(register, 7)
        }),
{
    assert(({
        let written = (register & 0b1100_1111) | (value & 0b0011_0000);
        &&& bit_set(written, 4) == bit_set(value, 4)
        &&& bit_set(written, 5) == bit_set(value, 5)
        &&& bit_set(written, 6) == bit_set(register, 6)
        &&& bit_set(written, 7) == bit_set(register, 7)
    })) by (bit_vector);
}

/// What the joypad register reads on its four button lines: with the direction line
/// selected (bit 4 clear), bits 0 to 3 read 0 exactly while Right, Left, Up and Down are held;
/// else, with the action line selected (bit 5 clear), while A, B, Select and Start are held.
pub open spec fn lines_read(register: u8, joypad: Joypad, r: u8) -> bool {
    &&& !bit_set(register, 4) ==> {
        &&& bit_set(r, 0) == !pressed(joypad, Button::Right)
        &&& bit_set(r, 1) == !pressed(joypad, Button::Left)
        &&& bit_set(r, 2) == !pressed(joypad, Button::Up)
        &&& bit_set(r, 3) == !pressed(joypad, Button::Down)
    }
    &&& bit_set(register, 4) && !bit_set(register, 5) ==> {
        &&& bit_set(r, 0) == !pressed(joypad, Button::A)
        &&& bit_set(r, 1) == !pressed(joypad, Button::B)
        &&& bit_set(r, 2) == !pressed(joypad, Button::Select)
        &&& bit_set(r, 3) == !pressed(joypad, Button::Start)
    }
}

/// A read of the joypad register (see `JoypadHandler::get_register`) shows each button on
/// its own line: Right on bit 0, Left on 1, Up on 2 and Down on 3 when the direction line is
/// selected, and A on 0, B on 1, Select on 2 and Start on 3 when the action line is.
pub proof fn lemma_joypad_lines(register: u8, joypad: Joypad, r: u8)
    requires
        forall|i: u8|
            i < 4 ==> #[trigger] bit_set(r, i) == if !bit_set(register, 4) {
                !pressed(joypad, direction_button(i))
            } else if !bit_set(register, 5) {
                !pressed(joypad, action_button(i))
            } else {
                bit_set(register, i)
            },
    ensures
        lines_read(register, joypad, r),
{
    assert(bit_set(r, 0) == bit_set(r, 0));
    assert(bit_set(r, 1) == bit_set(r, 1));
    assert(bit_set(r, 2) == bit_set(r, 2));
    assert(bit_set(r, 3) == bit_set(r, 3));
}

} // verus!
