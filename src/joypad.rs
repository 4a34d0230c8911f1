use vstd::prelude::*;

verus! {

/// The eight console buttons.
#[derive(Debug, Clone, Copy, PartialEq, Eq, Structural)]
pub enum Button {
    Up,
    Down,
    Left,
    Right,
    A,
    B,
    Start,
    Select,
}

/// Pressed state of each button.
#[derive(Debug, Clone, Copy, PartialEq, Eq, Structural)]
pub struct Joypad {
    pub up: bool,
    pub down: bool,
    pub left: bool,
    pub right: bool,
    pub a: bool,
    pub b: bool,
    pub start: bool,
    pub select: bool,
}

pub open spec fn bit(b: bool, v: u8) -> u8 {
    if b {
        v
    } else {
        0
    }
}

impl Joypad {
    /// Pressed buttons of the button row as a nibble: Start, Select, B, A from bit 3 down.
    pub open spec fn button_nibble(&self) -> u8 {
        (bit(self.start, 8) + bit(self.select, 4) + bit(self.b, 2) + bit(self.a, 1)) as u8
    }

    /// Pressed buttons of the direction row as a nibble: Down, Up, Left, Right from bit 3 down.
    pub open spec fn direction_nibble(&self) -> u8 {
        (bit(self.down, 8) + bit(self.up, 4) + bit(self.left, 2) + bit(self.right, 1)) as u8
    }

    /// The pressed nibble seen through the select bits of `state` (active low).
    pub open spec fn pressed_spec(&self, state: u8) -> u8 {
        bit(state & 0x20 == 0, self.button_nibble()) | bit(state & 0x10 == 0, self.direction_nibble())
    }

    /// The byte read back at the joypad register.
    pub open spec fn read_spec(&self, state: u8) -> u8 {
        (state & 0xf0) | (!self.pressed_spec(state) & 0x0f)
    }

    pub open spec fn with_button(self, button: Button, pressed: bool) -> Joypad {
        match button {
            Button::Up => Joypad { up: pressed, ..self },
            Button::Down => Joypad { down: pressed, ..self },
            Button::Left => Joypad { left: pressed, ..self },
            Button::Right => Joypad { right: pressed, ..self },
            Button::A => Joypad { a: pressed, ..self },
            Button::B => Joypad { b: pressed, ..self },
            Button::Start => Joypad { start: pressed, ..self },
            Button::Select => Joypad { select: pressed, ..self },
        }
    }

    pub fn new() -> (r: Joypad)
        ensures
            !r.up && !r.down && !r.left && !r.right && !r.a && !r.b && !r.start && !r.select,
    {
        Joypad {
            up: false,
            down: false,
            left: false,
            right: false,
            a: false,
            b: false,
            start: false,
            select: false,
        }
    }

    pub fn update_button(&mut self, button: Button, pressed: bool)
        ensures
            *final(self) == old(self).with_button(button, pressed),
    {
        match button {
            Button::Up => self.up = pressed,
            Button::Down => self.down = pressed,
            Button::Left => self.left = pressed,
            Button::Right => self.right = pressed,
            Button::A => self.a = pressed,
            Button::B => self.b = pressed,
            Button::Start => self.start = pressed,
            Button::Select => self.select = pressed,
        }
    }

    /// The joypad register as read by the CPU, given the select bits last written to it.
    /// Both rows may be selected at once; their pressed bits are then combined.
    pub fn as_u8(&self, joypad_state: u8) -> (r: u8)
        ensures
            r == self.read_spec(joypad_state),
    {
        let button_select = joypad_state & 0x20 == 0;
        let direction_select = joypad_state & 0x10 == 0;
        let mut pressed: u8 = 0;
        if button_select {
            pressed = (if self.start { 8u8 } else { 0u8 }) + (if self.select { 4u8 } else { 0u8 })
                + (if self.b { 2u8 } else { 0u8 }) + (if self.a { 1u8 } else { 0u8 });
        }
        if direction_select {
            let d: u8 = (if self.down { 8u8 } else { 0u8 }) + (if self.up { 4u8 } else { 0u8 })
                + (if self.left { 2u8 } else { 0u8 }) + (if self.right { 1u8 } else { 0u8 });
            pressed = pressed | d;
        } else {
            pressed = pressed | 0;
        }
        (joypad_state & 0xf0) | (!pressed & 0x0f)
    }
}

} // verus!
