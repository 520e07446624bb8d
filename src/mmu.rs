use vstd::prelude::*;

verus! {

/// Size of one mapped ROM bank.
pub const BANK_SIZE: usize = 0x4000;

/// The ROM is padded with zeros up to three banks.
pub const MIN_ROM_LEN: usize = 0xC000;

/// Bit of the RAM control register that maps cartridge RAM into slot 2.
pub const CART_RAM_ENABLE: u8 = 0x08;

/// Bit of the RAM control register that selects the second cartridge RAM page.
pub const CART_RAM_PAGE: u8 = 0x04;

/// Work RAM, cartridge ROM and cartridge RAM behind the Sega mapper.
pub struct Mmu {
    /// 8 KiB of work RAM at `$C000`, mirrored at `$E000`.
    pub ram: [u8; 8192],
    pub rom: Vec<u8>,
    pub cart_ram: [u8; 16384],
    /// Mapper register `$FFFC`.
    pub ram_control: u8,
    /// Mapper register `$FFFD`: bank of slot 0, above its first KiB.
    pub rom_bank_0: usize,
    /// Mapper register `$FFFE`: bank of slot 1.
    pub rom_bank_1: usize,
    /// Mapper register `$FFFF`: bank of slot 2.
    pub rom_bank_2: usize,
}

/// The byte at `offset` of bank `bank`, or `0xFF` past the end of the ROM.
pub open spec fn banked_rom(rom: Seq<u8>, bank: usize, offset: int) -> u8 {
    let i = bank * 0x4000 + offset;
    if i < rom.len() {
        rom[i]
    } else {
        0xFF
    }
}

pub open spec fn cart_ram_enabled(ram_control: u8) -> bool {
    ram_control & CART_RAM_ENABLE != 0
}

/// Where an address of slot 2 lands in cartridge RAM: the selected 8 KiB page
/// plus the offset into the slot, kept inside the 16 KiB of RAM.
pub open spec fn cart_ram_index(ram_control: u8, addr: u16) -> int {
    let page: int = if ram_control & CART_RAM_PAGE != 0 {
        1
    } else {
        0
    };
    (page * 0x2000 + (addr - 0x8000)) % 0x4000
}

/// Index into work RAM of an address in `$C000..=$FFFF`.
pub open spec fn work_ram_index(addr: u16) -> int {
    if addr < 0xE000 {
        addr - 0xC000
    } else {
        addr - 0xE000
    }
}

impl Mmu {
    /// The ROM holds three banks, and each bank register holds a byte.
    pub open spec fn wf(&self) -> bool {
        &&& self.rom@.len() >= MIN_ROM_LEN
        &&& self.rom_bank_0 < 256
        &&& self.rom_bank_1 < 256
        &&& self.rom_bank_2 < 256
    }

    /// What the CPU reads at `addr`.
    pub open spec fn read_spec(&self, addr: u16) -> u8 {
        if addr < 0x0400 {
            self.rom@[addr as int]
        } else if addr < 0x4000 {
            banked_rom(self.rom@, self.rom_bank_0, addr as int)
        } else if addr < 0x8000 {
            banked_rom(self.rom@, self.rom_bank_1, addr - 0x4000)
        } else if addr < 0xC000 {
            if cart_ram_enabled(self.ram_control) {
                self.cart_ram@[cart_ram_index(self.ram_control, addr)]
            } else {
                banked_rom(self.rom@, self.rom_bank_2, addr - 0x8000)
            }
        } else {
            self.ram@[work_ram_index(addr)]
        }
    }

    /// `after` is this mapper once `value` is written at `addr`.
    pub open spec fn written(self, after: Mmu, addr: u16, value: u8) -> bool {
        &&& after.rom@ == self.rom@
        &&& after.ram@ == if addr >= 0xC000 {
            self.ram@.update(work_ram_index(addr), value)
        } else {
            self.ram@
        }
        &&& after.cart_ram@ == if 0x8000 <= addr < 0xC000 && cart_ram_enabled(self.ram_control) {
            self.cart_ram@.update(cart_ram_index(self.ram_control, addr), value)
        } else {
            self.cart_ram@
        }
        &&& after.ram_control == if addr == 0xFFFC {
            value
        } else {
            self.ram_control
        }
        &&& after.rom_bank_0 == if addr == 0xFFFD {
            value as usize
        } else {
            self.rom_bank_0
        }
        &&& after.rom_bank_1 == if addr == 0xFFFE {
            value as usize
        } else {
            self.rom_bank_1
        }
        &&& after.rom_bank_2 == if addr == 0xFFFF {
            value as usize
        } else {
            self.rom_bank_2
        }
    }

    /// The mapper at power-on for cartridge `rom`: the ROM zero-padded to three
    /// banks, banks 0, 1, 2 in the three slots, cartridge RAM off, RAM cleared.
    pub open spec fn is_initial(&self, rom: Seq<u8>) -> bool {
        &&& self.wf()
        &&& self.rom@.len() == if rom.len() < MIN_ROM_LEN {
            MIN_ROM_LEN as int
        } else {
            rom.len() as int
        }
        &&& forall|i: int| 0 <= i < rom.len() ==> self.rom@[i] == rom[i]
        &&& forall|i: int| rom.len() <= i < self.rom@.len() ==> self.rom@[i] == 0
        &&& forall|i: int| 0 <= i < 8192 ==> self.ram@[i] == 0
        &&& forall|i: int| 0 <= i < 16384 ==> self.cart_ram@[i] == 0
        &&& self.ram_control == 0
        &&& self.rom_bank_0 == 0
        &&& self.rom_bank_1 == 1
        &&& self.rom_bank_2 == 2
    }

    /// A mapper over `rom`, zero-padded to three banks, with banks 0, 1, 2 in
    /// the three slots, cartridge RAM off and all RAM cleared.
    pub fn new(rom: Vec<u8>) -> (r: Self)
        ensures
            r.is_initial(rom@),
    {
        let mut rom = rom;
        if rom.len() < MIN_ROM_LEN {
            rom.resize(MIN_ROM_LEN, 0);
        }
        Self {
            ram: [0; 8192],
            rom,
            cart_ram: [0; 16384],
            ram_control: 0,
            rom_bank_0: 0,
            rom_bank_1: 1,
            rom_bank_2: 2,
        }
    }

    fn rom_at(&self, bank: usize, offset: usize) -> (r: u8)
        requires
            bank < 256,
            offset < BANK_SIZE,
        ensures
            r == banked_rom(self.rom@, bank, offset as int),
    {
        let i = bank * BANK_SIZE + offset;
        if i < self.rom.len() {
            self.rom[i]
        } else {
            0xFF
        }
    }

    /// Reads the byte that the CPU sees at `addr`; every address reads a byte.
    pub fn read(&self, addr: u16) -> (r: u8)
        requires
            self.wf(),
        ensures
            r == self.read_spec(addr),
    {
        if addr < 0x0400 {
            self.rom[addr as usize]
        } else if addr < 0x4000 {
            self.rom_at(self.rom_bank_0, addr as usize)
        } else if addr < 0x8000 {
            self.rom_at(self.rom_bank_1, (addr - 0x4000) as usize)
        } else if addr < 0xC000 {
            if self.ram_control & CART_RAM_ENABLE != 0 {
                let i = Self::cart_ram_offset(self.ram_control, addr);
                self.cart_ram[i]
            } else {
                self.rom_at(self.rom_bank_2, (addr - 0x8000) as usize)
            }
        } else if addr < 0xE000 {
            self.ram[(addr - 0xC000) as usize]
        } else {
            self.ram[(addr - 0xE000) as usize]
        }
    }

    fn cart_ram_offset(ram_control: u8, addr: u16) -> (r: usize)
        requires
            0x8000 <= addr < 0xC000,
        ensures
            r == cart_ram_index(ram_control, addr),
            r < 16384,
    {
        let page: usize = if ram_control & CART_RAM_PAGE != 0 {
            1
        } else {
            0
        };
        (page * 0x2000 + (addr - 0x8000) as usize) % 0x4000
    }

    /// Writes `value` at `addr`: ROM ignores it, slot 2 takes it only while
    /// cartridge RAM is mapped there, work RAM and its mirror take it, and the
    /// last four addresses also set the mapper registers.
    pub fn write(&mut self, addr: u16, value: u8)
        requires
            old(self).wf(),
        ensures
            final(self).wf(),
            old(self).written(*final(self), addr, value),
    {
        if 0x8000 <= addr && addr < 0xC000 {
            if self.ram_control & CART_RAM_ENABLE != 0 {
                let i = Self::cart_ram_offset(self.ram_control, addr);
                self.cart_ram[i] = value;
            }
        } else if 0xC000 <= addr && addr < 0xE000 {
            self.ram[(addr - 0xC000) as usize] = value;
        } else if addr >= 0xE000 {
            self.ram[(addr - 0xE000) as usize] = value;
            if addr == 0xFFFC {
                self.ram_control = value;
            } else if addr == 0xFFFD {
                self.rom_bank_0 = value as usize;
            } else if addr == 0xFFFE {
                self.rom_bank_1 = value as usize;
            } else if addr == 0xFFFF {
                self.rom_bank_2 = value as usize;
            }
        }
    }
}

/// A write anywhere in `$E000..=$FFFF` lands in work RAM at `addr - 0xE000`,
/// and one of the last four addresses also sets its mapper register.
pub proof fn lemma_mirror_write(m: Mmu, after: Mmu, addr: u16, value: u8)
    requires
        m.wf(),
        m.written(after, addr, value),
        addr >= 0xE000,
    ensures
        after.ram@[addr - 0xE000] == value,
        after.read_spec(addr) == value,
        addr == 0xFFFC ==> after.ram_control == value,
        addr == 0xFFFD ==> after.rom_bank_0 == value as usize,
        addr == 0xFFFE ==> after.rom_bank_1 == value as usize,
        addr == 0xFFFF ==> after.rom_bank_2 == value as usize,
{
}

/// The first KiB of the address space is the first KiB of the ROM, whatever
/// bank slot 0 holds and whatever is written anywhere.
pub proof fn lemma_first_kib_fixed(m: Mmu, after: Mmu, waddr: u16, value: u8, addr: u16, bank: usize)
    requires
        m.wf(),
        addr < 0x0400,
        bank < 256,
    ensures
        m.read_spec(addr) == m.rom@[addr as int],
        (Mmu { rom_bank_0: bank, ..m }).read_spec(addr) == m.rom@[addr as int],
        m.written(after, waddr, value) ==> after.read_spec(addr) == m.rom@[addr as int],
{
}

} // verus!
