use crate::joypad::Joypad;
use crate::mmu::Mmu;
use crate::vdp::{Vdp, VdpView};
use vstd::prelude::*;

verus! {

/// The VDP data port, and its mirror one below.
pub const PORT_VDP_DATA: u8 = 0xBE;

pub const PORT_VDP_DATA_MIRROR: u8 = 0xBD;

pub const PORT_VDP_CONTROL: u8 = 0xBF;

pub const PORT_V_COUNTER: u8 = 0x7E;

pub const PORT_H_COUNTER: u8 = 0x7F;

pub const PORT_JOYPAD_DC: u8 = 0xDC;

pub const PORT_JOYPAD_DD: u8 = 0xDD;

pub open spec fn is_data_port(port: u8) -> bool {
    port == PORT_VDP_DATA || port == PORT_VDP_DATA_MIRROR
}

/// The mapper, the VDP and the joypad, as the CPU reaches them.
pub struct Bus {
    pub mmu: Mmu,
    pub vdp: Vdp,
    pub joypad: Joypad,
}

impl Bus {
    pub open spec fn wf(&self) -> bool {
        self.mmu.wf() && self.vdp.wf()
    }

    /// The byte that a read of I/O port `port` returns.
    pub open spec fn io_read_value(&self, port: u8) -> u8 {
        if is_data_port(port) {
            self.vdp.read_buffer
        } else if port == PORT_VDP_CONTROL {
            self.vdp@.status()
        } else if port == PORT_V_COUNTER {
            self.vdp.v_counter
        } else if port == PORT_H_COUNTER {
            self.vdp.h_counter
        } else if port == PORT_JOYPAD_DC {
            (0xFF - self.joypad.held_mask()) as u8
        } else {
            0xFF
        }
    }

    /// The VDP once I/O port `port` is read.
    pub open spec fn vdp_after_io_read(&self, port: u8) -> VdpView {
        if is_data_port(port) {
            self.vdp@.after_read_data()
        } else if port == PORT_VDP_CONTROL {
            self.vdp@.after_read_control()
        } else {
            self.vdp@
        }
    }

    /// The VDP once `value` is written to I/O port `port`; other ports
    /// (memory control `$3E`, I/O control `$3F`, unmapped ones) change nothing.
    pub open spec fn vdp_after_io_write(&self, port: u8, value: u8) -> VdpView {
        if is_data_port(port) {
            self.vdp@.after_write_data(value)
        } else if port == PORT_VDP_CONTROL {
            self.vdp@.after_write_control(value)
        } else {
            self.vdp@
        }
    }

    /// A bus over cartridge `rom` with every part in its power-on state.
    pub fn new(rom: Vec<u8>) -> (r: Self)
        ensures
            r.wf(),
            r.mmu.is_initial(rom@),
            r.vdp@.is_initial(),
            r.joypad.is_released(),
    {
        Self { mmu: Mmu::new(rom), vdp: Vdp::new(), joypad: Joypad::new() }
    }

    /// A memory read, served by the mapper.
    pub fn read(&mut self, addr: u16) -> (r: u8)
        requires
            old(self).wf(),
        ensures
            r == old(self).mmu.read_spec(addr),
            *final(self) == *old(self),
    {
        self.mmu.read(addr)
    }

    /// A memory write, served by the mapper.
    pub fn write(&mut self, addr: u16, value: u8)
        requires
            old(self).wf(),
        ensures
            final(self).wf(),
            old(self).mmu.written(final(self).mmu, addr, value),
            final(self).vdp == old(self).vdp,
            final(self).joypad == old(self).joypad,
    {
        self.mmu.write(addr, value);
    }

    /// An I/O port read: VDP data, control and counters, or the joypad;
    /// unmapped ports read `0xFF`.
    pub fn read_io(&mut self, port: u8) -> (r: u8)
        requires
            old(self).wf(),
        ensures
            final(self).wf(),
            r == old(self).io_read_value(port),
            final(self).vdp@ == old(self).vdp_after_io_read(port),
            final(self).mmu == old(self).mmu,
            final(self).joypad == old(self).joypad,
    {
        if port == PORT_VDP_DATA || port == PORT_VDP_DATA_MIRROR {
            self.vdp.read_data()
        } else if port == PORT_VDP_CONTROL {
            self.vdp.read_control()
        } else if port == PORT_V_COUNTER {
            self.vdp.read_vcounter()
        } else if port == PORT_H_COUNTER {
            self.vdp.read_hcounter()
        } else if port == PORT_JOYPAD_DC {
            self.joypad.read_port_dc()
        } else if port == PORT_JOYPAD_DD {
            self.joypad.read_port_dd()
        } else {
            0xFF
        }
    }

    /// An I/O port write: VDP data or control; every other port ignores it.
    pub fn write_io(&mut self, port: u8, value: u8)
        requires
            old(self).wf(),
        ensures
            final(self).wf(),
            final(self).vdp@ == old(self).vdp_after_io_write(port, value),
            final(self).mmu == old(self).mmu,
            final(self).joypad == old(self).joypad,
    {
        if port == PORT_VDP_DATA || port == PORT_VDP_DATA_MIRROR {
            self.vdp.write_data(value);
        } else if port == PORT_VDP_CONTROL {
            self.vdp.write_control(value);
        }
    }
}

/// The port that an I/O access to 16-bit address `addr` reaches: its low byte.
pub open spec fn port_of(addr: u16) -> u8 {
    (addr % 256) as u8
}

fn low_byte(addr: u16) -> (r: u8)
    ensures
        r == port_of(addr),
{
    let low = addr & 0xFF;
    assert(low == addr % 256) by (bit_vector)
        requires
            low == addr & 0xFF,
    ;
    low as u8
}

/// The machine as the CPU sees it: memory and I/O, all through one bus.
pub struct System {
    pub bus: Bus,
}

impl System {
    pub fn new(bus: Bus) -> (r: Self)
        ensures
            r.bus == bus,
    {
        Self { bus }
    }

    pub fn read_byte(&mut self, addr: u16) -> (r: u8)
        requires
            old(self).bus.wf(),
        ensures
            r == old(self).bus.mmu.read_spec(addr),
            *final(self) == *old(self),
    {
        self.bus.read(addr)
    }

    pub fn write_byte(&mut self, addr: u16, value: u8)
        requires
            old(self).bus.wf(),
        ensures
            final(self).bus.wf(),
            old(self).bus.mmu.written(final(self).bus.mmu, addr, value),
            final(self).bus.vdp == old(self).bus.vdp,
            final(self).bus.joypad == old(self).bus.joypad,
    {
        self.bus.write(addr, value);
    }

    /// An I/O read; only the low byte of `addr` selects the port.
    pub fn port_in(&mut self, addr: u16) -> (r: u8)
        requires
            old(self).bus.wf(),
        ensures
            final(self).bus.wf(),
            r == old(self).bus.io_read_value(port_of(addr)),
            final(self).bus.vdp@ == old(self).bus.vdp_after_io_read(port_of(addr)),
            final(self).bus.mmu == old(self).bus.mmu,
            final(self).bus.joypad == old(self).bus.joypad,
    {
        let port = low_byte(addr);
        self.bus.read_io(port)
    }

    /// An I/O write; only the low byte of `addr` selects the port.
    pub fn port_out(&mut self, addr: u16, value: u8)
        requires
            old(self).bus.wf(),
        ensures
            final(self).bus.wf(),
            final(self).bus.vdp@ == old(self).bus.vdp_after_io_write(port_of(addr), value),
            final(self).bus.mmu == old(self).bus.mmu,
            final(self).bus.joypad == old(self).bus.joypad,
    {
        let port = low_byte(addr);
        self.bus.write_io(port, value);
    }
}

} // verus!
