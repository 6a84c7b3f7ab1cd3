use vstd::prelude::*;

verus! {

#[derive(Debug, Copy, Clone, PartialEq, Eq, Structural)]
pub enum JoypadKey {
    A,
    B,
    Up,
    Down,
    Left,
    Right,
    Select,
    Start,
}

/// Button latch with two selectable read views.
#[derive(Debug)]
pub struct Joypad {
    pub up: bool,
    pub down: bool,
    pub left: bool,
    pub right: bool,
    pub a: bool,
    pub b: bool,
    pub start: bool,
    pub select: bool,
    /// Direction group selected for reading.
    pub direction: bool,
    /// Button group selected for reading.
    pub button: bool,
    /// Joypad interrupt pending.
    pub int: bool,
}

/// The latch with `key` set to `v`, everything else kept.
pub open spec fn with_key(j: Joypad, key: JoypadKey, v: bool) -> Joypad {
    match key {
        JoypadKey::A => Joypad { a: v, ..j },
        JoypadKey::B => Joypad { b: v, ..j },
        JoypadKey::Up => Joypad { up: v, ..j },
        JoypadKey::Down => Joypad { down: v, ..j },
        JoypadKey::Left => Joypad { left: v, ..j },
        JoypadKey::Right => Joypad { right: v, ..j },
        JoypadKey::Select => Joypad { select: v, ..j },
        JoypadKey::Start => Joypad { start: v, ..j },
    }
}

/// 1 for a released key, 0 for a pressed one (the pad is active low).
pub open spec fn low(pressed: bool) -> u8 {
    if pressed { 0 } else { 1 }
}

impl Joypad {
    pub open spec fn initial() -> Joypad {
        Joypad {
            up: false,
            down: false,
            left: false,
            right: false,
            a: false,
            b: false,
            start: false,
            select: false,
            direction: false,
            button: false,
            int: false,
        }
    }

    /// Packed button view: `110dseba`, active low.
    pub open spec fn button_byte(&self) -> u8 {
        (0xC0 + low(self.direction) * 0x10 + low(self.start) * 8 + low(self.select) * 4 + low(
            self.b,
        ) * 2 + low(self.a)) as u8
    }

    /// Packed direction view: `11b0dulr`, active low.
    pub open spec fn direction_byte(&self) -> u8 {
        (0xC0 + low(self.button) * 0x20 + low(self.down) * 8 + low(self.up) * 4 + low(self.left)
            * 2 + low(self.right)) as u8
    }

    pub open spec fn read_spec(&self) -> u8 {
        if self.direction {
            self.direction_byte()
        } else if self.button {
            self.button_byte()
        } else {
            0xFF
        }
    }

    pub fn new() -> (r: Joypad)
        ensures
            r == Joypad::initial(),
    {
        Joypad {
            up: false,
            down: false,
            left: false,
            right: false,
            a: false,
            b: false,
            start: false,
            select: false,
            direction: false,
            button: false,
            int: false,
        }
    }

    /// Latches the key as held and raises the joypad interrupt.
    pub fn press(&mut self, key: JoypadKey)
        ensures
            *final(self) == (Joypad { int: true, ..with_key(*old(self), key, true) }),
    {
        match key {
            JoypadKey::A => {
                self.a = true;
            },
            JoypadKey::B => {
                self.b = true;
            },
            JoypadKey::Select => {
                self.select = true;
            },
            JoypadKey::Start => {
                self.start = true;
            },
            JoypadKey::Up => {
                self.up = true;
            },
            JoypadKey::Down => {
                self.down = true;
            },
            JoypadKey::Right => {
                self.right = true;
            },
            JoypadKey::Left => {
                self.left = true;
            },
        }
        self.int = true;
    }

    /// Latches the key as released.
    pub fn release(&mut self, key: JoypadKey)
        ensures
            *final(self) == with_key(*old(self), key, false),
    {
        match key {
            JoypadKey::A => {
                self.a = false;
            },
            JoypadKey::B => {
                self.b = false;
            },
            JoypadKey::Select => {
                self.select = false;
            },
            JoypadKey::Start => {
                self.start = false;
            },
            JoypadKey::Up => {
                self.up = false;
            },
            JoypadKey::Down => {
                self.down = false;
            },
            JoypadKey::Right => {
                self.right = false;
            },
            JoypadKey::Left => {
                self.left = false;
            },
        }
    }

    fn bit(pressed: bool) -> (r: u8)
        ensures
            r == low(pressed),
    {
        if pressed { 0 } else { 1 }
    }

    pub fn read_button(&self) -> (r: u8)
        ensures
            r == self.button_byte(),
    {
        0xC0 + Self::bit(self.direction) * 0x10 + Self::bit(self.start) * 8 + Self::bit(self.select)
            * 4 + Self::bit(self.b) * 2 + Self::bit(self.a)
    }

    pub fn read_direction(&self) -> (r: u8)
        ensures
            r == self.direction_byte(),
    {
        0xC0 + Self::bit(self.button) * 0x20 + Self::bit(self.down) * 8 + Self::bit(self.up) * 4
            + Self::bit(self.left) * 2 + Self::bit(self.right)
    }

    pub fn read(&self) -> (r: u8)
        ensures
            r == self.read_spec(),
    {
        if self.direction {
            return self.read_direction();
        }
        if self.button {
            return self.read_button();
        }
        0xFF
    }

    /// Bit 4 low selects the direction group, bit 5 low the button group.
    pub fn write(&mut self, val: u8)
        ensures
            *final(self) == (Joypad {
                direction: val & 0x10 == 0,
                button: val & 0x20 == 0,
                ..*old(self)
            }),
    {
        self.direction = val & 0x10 == 0;
        self.button = val & 0x20 == 0;
    }
}

impl Default for Joypad {
    fn default() -> (r: Joypad)
        ensures
            r == Joypad::initial(),
    {
        Joypad::new()
    }
}

} // verus!
