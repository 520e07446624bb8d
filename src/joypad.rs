use vstd::prelude::*;

verus! {

/// The six inputs of controller 1.
pub struct Joypad {
    pub p1_up: bool,
    pub p1_down: bool,
    pub p1_left: bool,
    pub p1_right: bool,
    pub p1_b1: bool,
    pub p1_b2: bool,
}

/// The weight of one status bit when its button is held.
pub open spec fn held_bit(pressed: bool, bit: int) -> int {
    if pressed {
        bit
    } else {
        0
    }
}

impl Joypad {
    /// The bits of port `$DC` that read as 0: up, down, left, right, button 1
    /// and button 2 are bits 0 to 5.
    pub open spec fn held_mask(&self) -> int {
        held_bit(self.p1_up, 0x01) + held_bit(self.p1_down, 0x02) + held_bit(self.p1_left, 0x04)
            + held_bit(self.p1_right, 0x08) + held_bit(self.p1_b1, 0x10) + held_bit(self.p1_b2, 0x20)
    }

    pub open spec fn is_released(&self) -> bool {
        !self.p1_up && !self.p1_down && !self.p1_left && !self.p1_right && !self.p1_b1
            && !self.p1_b2
    }

    /// A controller with no button held.
    pub fn new() -> (r: Self)
        ensures
            r.is_released(),
    {
        Self {
            p1_up: false,
            p1_down: false,
            p1_left: false,
            p1_right: false,
            p1_b1: false,
            p1_b2: false,
        }
    }

    /// Port `$DC`: all ones, with the bit of each held button cleared (active low).
    pub fn read_port_dc(&self) -> (r: u8)
        ensures
            r as int == 0xFF - self.held_mask(),
    {
        let mut port: u8 = 0xFF;
        if self.p1_up {
            port = port - 0x01;
        }
        if self.p1_down {
            port = port - 0x02;
        }
        if self.p1_left {
            port = port - 0x04;
        }
        if self.p1_right {
            port = port - 0x08;
        }
        if self.p1_b1 {
            port = port - 0x10;
        }
        if self.p1_b2 {
            port = port - 0x20;
        }
        port
    }

    /// Port `$DD`: controller 2 is not connected, so nothing reads as held.
    pub fn read_port_dd(&self) -> (r: u8)
        ensures
            r == 0xFF,
    {
        0xFF
    }
}

} // verus!
