//! The joypad register: held buttons reflected into 0xFF00 under the
//! two-bit active-low row selector, and the JOYPAD interrupt on a fresh
//! press in the selected row.

use vstd::prelude::*;

use crate::cpu::{INTERRUPT_FLAG_ADDRESS, JOYPAD_FLAG};
use crate::memory::{MemV, Memory, write8_spec};
use crate::utils::{Address, Byte};

verus! {

pub const JOYPAD_REGISTER_ADDRESS: Address = 0xFF00;

pub const DPAD_FLAG: Byte = 0b0001_0000;

pub const BUTTONS_FLAG: Byte = 0b0010_0000;

pub const RIGHT_BUTTON: Byte = 0b1110_1110;

pub const LEFT_BUTTON: Byte = 0b1110_1101;

pub const UP_BUTTON: Byte = 0b1110_1011;

pub const DOWN_BUTTON: Byte = 0b1110_0111;

pub const A_BUTTON: Byte = 0b1101_1110;

pub const B_BUTTON: Byte = 0b1101_1101;

pub const SELECT_BUTTON: Byte = 0b1101_1011;

pub const START_BUTTON: Byte = 0b1101_0111;

/// The eight logical buttons; the host maps its own keys onto these.
#[derive(Debug, Clone, Copy, PartialEq, Eq, Structural)]
pub enum Button {
    Up,
    Down,
    Left,
    Right,
    A,
    B,
    Select,
    Start,
}

/// Whether a button sits in the direction-pad row (as opposed to the
/// action-buttons row).
pub open spec fn is_dpad(b: Button) -> bool {
    match b {
        Button::Up => true,
        Button::Down => true,
        Button::Left => true,
        Button::Right => true,
        _ => false,
    }
}

/// The currently held buttons.
pub struct Joypad {
    pub up: bool,
    pub down: bool,
    pub left: bool,
    pub right: bool,
    pub a: bool,
    pub b: bool,
    pub select: bool,
    pub start: bool,
}

pub open spec fn held(j: Joypad, b: Button) -> bool {
    match b {
        Button::Up => j.up,
        Button::Down => j.down,
        Button::Left => j.left,
        Button::Right => j.right,
        Button::A => j.a,
        Button::B => j.b,
        Button::Select => j.select,
        Button::Start => j.start,
    }
}

pub open spec fn with_held(j: Joypad, b: Button, v: bool) -> Joypad {
    match b {
        Button::Up => Joypad { up: v, ..j },
        Button::Down => Joypad { down: v, ..j },
        Button::Left => Joypad { left: v, ..j },
        Button::Right => Joypad { right: v, ..j },
        Button::A => Joypad { a: v, ..j },
        Button::B => Joypad { b: v, ..j },
        Button::Select => Joypad { select: v, ..j },
        Button::Start => Joypad { start: v, ..j },
    }
}

/// The joypad register value reflecting the held buttons under the current
/// selector: data bits start at 1 and every held button in the selected
/// row ANDs in its active-low pattern.
pub open spec fn joyp_update_spec(j: Joypad, joyp: Byte) -> Byte {
    if joyp & DPAD_FLAG == 0 {
        let f0 = joyp | 0x0F;
        let f1 = if j.up {
            f0 & UP_BUTTON
        } else {
            f0
        };
        let f2 = if j.down {
            f1 & DOWN_BUTTON
        } else {
            f1
        };
        let f3 = if j.left {
            f2 & LEFT_BUTTON
        } else {
            f2
        };
        if j.right {
            f3 & RIGHT_BUTTON
        } else {
            f3
        }
    } else if joyp & BUTTONS_FLAG == 0 {
        let f0 = joyp | 0x0F;
        let f1 = if j.a {
            f0 & A_BUTTON
        } else {
            f0
        };
        let f2 = if j.b {
            f1 & B_BUTTON
        } else {
            f1
        };
        let f3 = if j.select {
            f2 & SELECT_BUTTON
        } else {
            f2
        };
        if j.start {
            f3 & START_BUTTON
        } else {
            f3
        }
    } else {
        joyp | 0x0F
    }
}

impl Joypad {
    pub fn new() -> (r: Self)
        ensures
            r == (Joypad {
                up: false,
                down: false,
                left: false,
                right: false,
                a: false,
                b: false,
                select: false,
                start: false,
            }),
    {
        Joypad {
            up: false,
            down: false,
            left: false,
            right: false,
            a: false,
            b: false,
            select: false,
            start: false,
        }
    }

    /// Reflect the held buttons into the joypad register under the
    /// CPU-written row selector.
    pub fn update(&mut self, memory: &mut Memory)
        requires
            old(memory).wf(),
        ensures
            *final(self) == *old(self),
            final(memory)@ == write8_spec(
                old(memory)@,
                JOYPAD_REGISTER_ADDRESS,
                joyp_update_spec(*old(self), old(memory)@.mem[JOYPAD_REGISTER_ADDRESS as int]),
            ),
            final(memory).wf(),
    {
        let joypad_flags = memory.read_byte(JOYPAD_REGISTER_ADDRESS);
        let new_flags: Byte;
        if joypad_flags & DPAD_FLAG == 0 {
            let mut flag = joypad_flags | 0x0F;
            if self.up {
                flag = flag & UP_BUTTON;
            }
            if self.down {
                flag = flag & DOWN_BUTTON;
            }
            if self.left {
                flag = flag & LEFT_BUTTON;
            }
            if self.right {
                flag = flag & RIGHT_BUTTON;
            }
            new_flags = flag;
        } else if joypad_flags & BUTTONS_FLAG == 0 {
            let mut flag = joypad_flags | 0x0F;
            if self.a {
                flag = flag & A_BUTTON;
            }
            if self.b {
                flag = flag & B_BUTTON;
            }
            if self.select {
                flag = flag & SELECT_BUTTON;
            }
            if self.start {
                flag = flag & START_BUTTON;
            }
            new_flags = flag;
        } else {
            new_flags = joypad_flags | 0x0F;
        }
        memory.write_byte(JOYPAD_REGISTER_ADDRESS, new_flags);
    }

    /// Record a button going down or up; a fresh press in the row the
    /// selector currently picks raises the JOYPAD interrupt.
    pub fn handle_button(&mut self, button: Button, down: bool, memory: &mut Memory)
        requires
            old(memory).wf(),
        ensures
            *final(self) == with_held(*old(self), button, down),
            final(memory)@ == (if down && !held(*old(self), button) && (if is_dpad(button) {
                old(memory)@.mem[JOYPAD_REGISTER_ADDRESS as int] & DPAD_FLAG == 0
            } else {
                old(memory)@.mem[JOYPAD_REGISTER_ADDRESS as int] & BUTTONS_FLAG == 0
            }) {
                write8_spec(
                    old(memory)@,
                    INTERRUPT_FLAG_ADDRESS,
                    old(memory)@.mem[INTERRUPT_FLAG_ADDRESS as int] | JOYPAD_FLAG,
                )
            } else {
                old(memory)@
            }),
            final(memory).wf(),
    {
        let joypad_flags = memory.read_byte(JOYPAD_REGISTER_ADDRESS);
        let was_held = self.is_held(button);
        let row_selected: bool = match button {
            Button::Up => joypad_flags & DPAD_FLAG == 0,
            Button::Down => joypad_flags & DPAD_FLAG == 0,
            Button::Left => joypad_flags & DPAD_FLAG == 0,
            Button::Right => joypad_flags & DPAD_FLAG == 0,
            Button::A => joypad_flags & BUTTONS_FLAG == 0,
            Button::B => joypad_flags & BUTTONS_FLAG == 0,
            Button::Select => joypad_flags & BUTTONS_FLAG == 0,
            Button::Start => joypad_flags & BUTTONS_FLAG == 0,
        };
        if down && !was_held && row_selected {
            let int_flag = memory.read_byte(INTERRUPT_FLAG_ADDRESS);
            memory.write_byte(INTERRUPT_FLAG_ADDRESS, int_flag | JOYPAD_FLAG);
        }
        match button {
            Button::Up => self.up = down,
            Button::Down => self.down = down,
            Button::Left => self.left = down,
            Button::Right => self.right = down,
            Button::A => self.a = down,
            Button::B => self.b = down,
            Button::Select => self.select = down,
            Button::Start => self.start = down,
        }
    }

    /// Whether the given button is currently held.
    pub fn is_held(&self, button: Button) -> (r: bool)
        ensures
            r == held(*self, button),
    {
        match button {
            Button::Up => self.up,
            Button::Down => self.down,
            Button::Left => self.left,
            Button::Right => self.right,
            Button::A => self.a,
            Button::B => self.b,
            Button::Select => self.select,
            Button::Start => self.start,
        }
    }
}

} // verus!
