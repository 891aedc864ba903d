//! The joypad: a 2x4 button matrix behind one register, with a falling-edge
//! interrupt.

use vstd::prelude::*;

verus! {

/// The eight buttons of the console.
#[derive(Clone, Copy, Debug, PartialEq, Eq, Structural)]
pub enum Button {
    Up,
    Down,
    Left,
    Right,
    A,
    B,
    Start,
    Select,
}

/// The state of the matrix. A button line is `true` while the button is
/// released and `false` while it is held down.
#[derive(Clone, Copy, Debug, PartialEq, Eq, Structural)]
pub struct Controller {
    pub button_select: bool,
    pub direction_select: bool,
    pub up: bool,
    pub down: bool,
    pub left: bool,
    pub right: bool,
    pub start: bool,
    pub select: bool,
    pub b: bool,
    pub a: bool,
    /// A falling edge that the bus has not collected yet.
    pub interrupt: bool,
}

/// Four lines as the low nibble of a byte below a select pattern.
pub open spec fn nibble(high: int, b3: bool, b2: bool, b1: bool, b0: bool) -> u8 {
    (high + (if b3 { 8int } else { 0 }) + (if b2 { 4int } else { 0 }) + (if b1 { 2int } else { 0 })
        + (if b0 { 1int } else { 0 })) as u8
}

fn pack(high: u8, b3: bool, b2: bool, b1: bool, b0: bool) -> (r: u8)
    requires
        high <= 0x30,
    ensures
        r == nibble(high as int, b3, b2, b1, b0),
{
    let v3: u8 = if b3 { 8 } else { 0 };
    let v2: u8 = if b2 { 4 } else { 0 };
    let v1: u8 = if b1 { 2 } else { 0 };
    let v0: u8 = if b0 { 1 } else { 0 };
    high + v3 + v2 + v1 + v0
}

impl Controller {
    pub open spec fn spec_new() -> Controller {
        Controller {
            button_select: false,
            direction_select: false,
            up: true,
            down: true,
            left: true,
            right: true,
            start: true,
            select: true,
            b: true,
            a: true,
            interrupt: false,
        }
    }

    /// The register as the CPU reads it: the select pattern in bits 5..4 and
    /// the selected lines in bits 3..0.
    pub open spec fn spec_read(self) -> u8 {
        if self.button_select && self.direction_select {
            0
        } else if self.button_select {
            nibble(0x10, self.down, self.up, self.left, self.right)
        } else if self.direction_select {
            nibble(0x20, self.start, self.select, self.b, self.a)
        } else {
            nibble(
                0x30,
                self.down || self.start,
                self.up || self.select,
                self.left || self.b,
                self.right || self.a,
            )
        }
    }

    pub open spec fn spec_write(self, value: u8) -> Controller {
        Controller {
            button_select: value & 0x20 != 0,
            direction_select: value & 0x10 != 0,
            ..self
        }
    }

    /// The line of one button.
    pub open spec fn line(self, button: Button) -> bool {
        match button {
            Button::Up => self.up,
            Button::Down => self.down,
            Button::Left => self.left,
            Button::Right => self.right,
            Button::A => self.a,
            Button::B => self.b,
            Button::Start => self.start,
            Button::Select => self.select,
        }
    }

    /// The state after a key event: the button's line is low while it is
    /// pressed, and a line that falls raises the interrupt.
    pub open spec fn spec_set(self, button: Button, pressed: bool) -> Controller {
        let c = match button {
            Button::Up => Controller { up: !pressed, ..self },
            Button::Down => Controller { down: !pressed, ..self },
            Button::Left => Controller { left: !pressed, ..self },
            Button::Right => Controller { right: !pressed, ..self },
            Button::A => Controller { a: !pressed, ..self },
            Button::B => Controller { b: !pressed, ..self },
            Button::Start => Controller { start: !pressed, ..self },
            Button::Select => Controller { select: !pressed, ..self },
        };
        Controller { interrupt: self.interrupt || (self.line(button) && pressed), ..c }
    }

    pub fn new() -> (r: Controller)
        ensures
            r == Controller::spec_new(),
    {
        Controller {
            button_select: false,
            direction_select: false,
            up: true,
            down: true,
            left: true,
            right: true,
            start: true,
            select: true,
            b: true,
            a: true,
            interrupt: false,
        }
    }

    pub fn read(&self) -> (r: u8)
        ensures
            r == self.spec_read(),
    {
        match (self.button_select, self.direction_select) {
            (true, true) => 0,
            (true, false) => pack(0x10, self.down, self.up, self.left, self.right),
            (false, true) => pack(0x20, self.start, self.select, self.b, self.a),
            (false, false) => pack(
                0x30,
                self.down || self.start,
                self.up || self.select,
                self.left || self.b,
                self.right || self.a,
            ),
        }
    }

    pub fn write(&mut self, value: u8)
        ensures
            *final(self) == old(self).spec_write(value),
    {
        self.button_select = (value & 0x20) != 0;
        self.direction_select = (value & 0x10) != 0;
    }

    /// The line of one button: `true` while it is released.
    pub fn get(&self, button: Button) -> (r: bool)
        ensures
            r == self.line(button),
    {
        match button {
            Button::Up => self.up,
            Button::Down => self.down,
            Button::Left => self.left,
            Button::Right => self.right,
            Button::A => self.a,
            Button::B => self.b,
            Button::Start => self.start,
            Button::Select => self.select,
        }
    }

    /// Records a key event from the host.
    pub fn set(&mut self, button: Button, pressed: bool)
        ensures
            *final(self) == old(self).spec_set(button, pressed),
            final(self).line(button) == !pressed,
            final(self).interrupt == (old(self).interrupt || (old(self).line(button) && pressed)),
    {
        let interrupt = self.interrupt || (self.get(button) && pressed);
        *self = match button {
            Button::A => Controller { a: !pressed, interrupt, ..*self },
            Button::B => Controller { b: !pressed, interrupt, ..*self },
            Button::Start => Controller { start: !pressed, interrupt, ..*self },
            Button::Select => Controller { select: !pressed, interrupt, ..*self },
            Button::Up => Controller { up: !pressed, interrupt, ..*self },
            Button::Down => Controller { down: !pressed, interrupt, ..*self },
            Button::Left => Controller { left: !pressed, interrupt, ..*self },
            Button::Right => Controller { right: !pressed, interrupt, ..*self },
        };
    }

    /// Hands the pending edge to the caller and clears it.
    pub fn get_interrupt_status(&mut self) -> (r: bool)
        ensures
            r == old(self).interrupt,
            *final(self) == (Controller { interrupt: false, ..*old(self) }),
    {
        if self.interrupt {
            self.interrupt = false;
            return true;
        }
        false
    }
}

} // verus!
