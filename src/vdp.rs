use vstd::prelude::*;

verus! {

/// Pixels in a frame: 256 columns by 192 lines.
pub const FRAME_PIXELS: usize = 49152;

pub const SCREEN_WIDTH: usize = 256;

pub const SCREEN_HEIGHT: usize = 192;

/// A sprite Y position of this value ends the sprite list.
pub const SPRITE_LIST_END: u8 = 208;

/// What a data-port access reaches.
#[derive(PartialEq, Eq, Structural, Clone, Copy, Debug)]
pub enum VdpMode {
    VramRead,
    VramWrite,
    CramWrite,
}

/// The video display processor: video and colour memory, registers, the
/// control-port state machine and the frame it renders.
pub struct Vdp {
    pub vram: [u8; 16384],
    /// Palette: 32 entries of the form `--bbggrr`.
    pub cram: [u8; 32],
    pub registers: [u8; 16],
    /// ARGB pixels, row by row.
    pub frame_buffer: [u32; 49152],
    pub control_word: u16,
    pub first_byte_received: bool,
    pub mode: VdpMode,
    pub address_register: u16,
    /// The delayed byte that the next data-port read returns.
    pub read_buffer: u8,
    pub vblank_flag: bool,
    pub line_interrupt_flag: bool,
    pub v_counter: u8,
    pub h_counter: u8,
}

/// The state of a `Vdp` as mathematical values.
pub ghost struct VdpView {
    pub vram: Seq<u8>,
    pub cram: Seq<u8>,
    pub registers: Seq<u8>,
    pub frame_buffer: Seq<u32>,
    pub control_word: u16,
    pub first_byte_received: bool,
    pub mode: VdpMode,
    pub address_register: u16,
    pub read_buffer: u8,
    pub vblank_flag: bool,
    pub line_interrupt_flag: bool,
    pub v_counter: u8,
    pub h_counter: u8,
}

impl View for Vdp {
    type V = VdpView;

    open spec fn view(&self) -> VdpView {
        VdpView {
            vram: self.vram@,
            cram: self.cram@,
            registers: self.registers@,
            frame_buffer: self.frame_buffer@,
            control_word: self.control_word,
            first_byte_received: self.first_byte_received,
            mode: self.mode,
            address_register: self.address_register,
            read_buffer: self.read_buffer,
            vblank_flag: self.vblank_flag,
            line_interrupt_flag: self.line_interrupt_flag,
            v_counter: self.v_counter,
            h_counter: self.h_counter,
        }
    }
}

/// The address after `a`, wrapping inside the 16 KiB of video memory.
pub open spec fn next_address(a: u16) -> u16 {
    ((a + 1) % 0x4000) as u16
}

/// The 16-bit control word once its high byte is `value`.
pub open spec fn with_high_byte(word: u16, value: u8) -> u16 {
    (word & 0x00FF) | ((value as u16) << 8u16)
}

/// The 16-bit control word once its low byte is `value`.
pub open spec fn with_low_byte(word: u16, value: u8) -> u16 {
    (word & 0xFF00) | (value as u16)
}

impl VdpView {
    pub open spec fn wf(&self) -> bool {
        &&& self.vram.len() == 16384
        &&& self.cram.len() == 32
        &&& self.registers.len() == 16
        &&& self.frame_buffer.len() == FRAME_PIXELS
        &&& self.address_register < 0x4000
    }

    /// Power-on state: memories and registers cleared, the frame opaque
    /// black, the latch open and the mode a VRAM read.
    pub open spec fn is_initial(&self) -> bool {
        &&& self.wf()
        &&& forall|i: int| 0 <= i < 16384 ==> self.vram[i] == 0
        &&& forall|i: int| 0 <= i < 32 ==> self.cram[i] == 0
        &&& forall|i: int| 0 <= i < 16 ==> self.registers[i] == 0
        &&& forall|i: int| 0 <= i < FRAME_PIXELS ==> self.frame_buffer[i] == 0xFF00_0000
        &&& self.control_word == 0
        &&& !self.first_byte_received
        &&& self.mode == VdpMode::VramRead
        &&& self.address_register == 0
        &&& self.read_buffer == 0
        &&& !self.vblank_flag
        &&& !self.line_interrupt_flag
        &&& self.v_counter == 0
        &&& self.h_counter == 0
    }

    /// A data-port read: the buffer is refilled from the current address,
    /// which then advances.
    pub open spec fn after_read_data(self) -> VdpView {
        VdpView {
            first_byte_received: false,
            read_buffer: self.vram[self.address_register as int],
            address_register: next_address(self.address_register),
            ..self
        }
    }

    /// A data-port write of `value`.
    pub open spec fn after_write_data(self, value: u8) -> VdpView {
        let a = self.address_register;
        let s = VdpView {
            first_byte_received: false,
            address_register: next_address(a),
            ..self
        };
        if self.mode == VdpMode::CramWrite {
            VdpView { cram: self.cram.update((a % 32) as int, value), ..s }
        } else {
            VdpView { vram: self.vram.update(a as int, value), read_buffer: value, ..s }
        }
    }

    /// A control-port read: the latch and both interrupt flags are cleared.
    pub open spec fn after_read_control(self) -> VdpView {
        VdpView {
            first_byte_received: false,
            vblank_flag: false,
            line_interrupt_flag: false,
            ..self
        }
    }

    /// The status byte of a control-port read: bit 7 is the VBlank flag.
    pub open spec fn status(self) -> u8 {
        if self.vblank_flag {
            0x80
        } else {
            0
        }
    }

    /// A control-port write of `value`: the first byte of a pair is latched,
    /// the second completes a command whose kind is the byte's top two bits.
    pub open spec fn after_write_control(self, value: u8) -> VdpView {
        if !self.first_byte_received {
            VdpView {
                control_word: with_low_byte(self.control_word, value),
                first_byte_received: true,
                ..self
            }
        } else {
            let word = with_high_byte(self.control_word, value);
            let addr = word & 0x3FFF;
            let s = VdpView { control_word: word, first_byte_received: false, ..self };
            let command = value >> 6u8;
            if command == 0 {
                VdpView {
                    address_register: next_address(addr),
                    mode: VdpMode::VramRead,
                    read_buffer: self.vram[addr as int],
                    ..s
                }
            } else if command == 1 {
                VdpView { address_register: addr, mode: VdpMode::VramWrite, ..s }
            } else if command == 2 {
                let index = value & 0x0F;
                let registers = if index <= 10 {
                    self.registers.update(index as int, (word & 0x00FF) as u8)
                } else {
                    self.registers
                };
                VdpView { registers, mode: VdpMode::VramRead, ..s }
            } else {
                VdpView { address_register: addr, mode: VdpMode::CramWrite, ..s }
            }
        }
    }
}

/// A channel of a palette byte, scaled from two bits to eight.
pub open spec fn channel(byte: u8, shift: u8) -> int {
    ((byte >> shift) & 0x03) as int * 85
}

/// The opaque ARGB colour of a palette byte `--bbggrr`.
pub open spec fn color_of(byte: u8) -> u32 {
    (0xFF00_0000 + channel(byte, 0) * 0x10000 + channel(byte, 2) * 0x100 + channel(
        byte,
        4,
    )) as u32
}

/// The colour index of one pixel: bit `bit` of each of the four planes.
pub open spec fn color_index(plane0: u8, plane1: u8, plane2: u8, plane3: u8, bit: u8) -> u8 {
    (((plane0 >> bit) & 1) + 2 * ((plane1 >> bit) & 1) + 4 * ((plane2 >> bit) & 1) + 8 * ((plane3 >> bit)
        & 1)) as u8
}


impl VdpView {
    /// Byte address of the background name table, from register 2.
    pub open spec fn name_table_base(self) -> int {
        ((self.registers[2] & 0x0E) as int) * 1024
    }

    /// The background colour at screen pixel (`x`, `y`), after scrolling by
    /// registers 8 (horizontal) and 9 (vertical, over 224 lines).
    pub open spec fn background_pixel(self, x: int, y: int) -> u32 {
        let bg_y = (y + self.registers[9]) % 224;
        let bg_x = (256 - self.registers[8] + x) % 256;
        let entry = self.name_table_base() + ((bg_y / 8) * 32 + bg_x / 8) * 2;
        let word = self.vram[entry] + self.vram[entry + 1] * 256;
        let tile = word % 512;
        let h_flip = (word / 512) % 2 == 1;
        let v_flip = (word / 1024) % 2 == 1;
        let palette: int = if (word / 2048) % 2 == 1 {
            16
        } else {
            0
        };
        let line = if v_flip {
            7 - bg_y % 8
        } else {
            bg_y % 8
        };
        let a = tile * 32 + line * 4;
        let bit = if h_flip {
            bg_x % 8
        } else {
            7 - bg_x % 8
        };
        let ci = color_index(
            self.vram[a],
            self.vram[a + 1],
            self.vram[a + 2],
            self.vram[a + 3],
            bit as u8,
        );
        color_of(self.cram[(palette + ci) % 32])
    }

    /// Byte address of the sprite attribute table, from register 5.
    pub open spec fn sat_base(self) -> int {
        ((self.registers[5] & 0x7E) as int) * 128
    }

    /// Byte address of the sprite patterns, from register 6.
    pub open spec fn sprite_tile_base(self) -> int {
        ((self.registers[6] & 0x04) as int) * 2048
    }

    /// Register 1 selects 8x16 sprites.
    pub open spec fn tall_sprites(self) -> bool {
        self.registers[1] & 0x02 != 0
    }

    pub open spec fn sprite_height(self) -> int {
        if self.tall_sprites() {
            16
        } else {
            8
        }
    }

    pub open spec fn sprite_y(self, i: int) -> u8 {
        self.vram[self.sat_base() + i]
    }

    pub open spec fn sprite_x(self, i: int) -> u8 {
        self.vram[self.sat_base() + 0x80 + 2 * i]
    }

    /// The first pattern of sprite `i`; an 8x16 sprite starts on an even one.
    pub open spec fn sprite_tile(self, i: int) -> u8 {
        let t = self.vram[self.sat_base() + 0x81 + 2 * i];
        if self.tall_sprites() {
            t & 0xFE
        } else {
            t
        }
    }

    /// The index of the first sprite at or after `i` whose Y ends the list,
    /// or 64.
    pub open spec fn sprite_count_from(self, i: int) -> int
        decreases 64 - i,
    {
        if i >= 64 {
            64
        } else if self.sprite_y(i) == SPRITE_LIST_END {
            i
        } else {
            self.sprite_count_from(i + 1)
        }
    }

    /// How many sprites are drawn: those before the first that ends the list.
    pub open spec fn sprite_count(self) -> int {
        self.sprite_count_from(0)
    }

    /// The colour that sprite `i` puts at screen pixel (`x`, `y`), if it
    /// covers it with a colour other than the transparent index 0.
    pub open spec fn sprite_pixel(self, i: int, x: int, y: int) -> Option<u32> {
        let row = y - (self.sprite_y(i) + 1) % 256;
        let col = x - self.sprite_x(i);
        if 0 <= row < self.sprite_height() && 0 <= col < 8 {
            let a = self.sprite_tile_base() + (self.sprite_tile(i) + row / 8) * 32 + (row % 8) * 4;
            let ci = color_index(
                self.vram[a],
                self.vram[a + 1],
                self.vram[a + 2],
                self.vram[a + 3],
                (7 - col) as u8,
            );
            if ci != 0 {
                Some(color_of(self.cram[16 + ci]))
            } else {
                None
            }
        } else {
            None
        }
    }

    /// Screen pixel (`x`, `y`) once the background and sprites `0..n` are
    /// drawn, each sprite over the ones before it.
    pub open spec fn layered_pixel(self, n: int, x: int, y: int) -> u32
        decreases n,
    {
        if n <= 0 {
            self.background_pixel(x, y)
        } else {
            match self.sprite_pixel(n - 1, x, y) {
                Some(c) => c,
                None => self.layered_pixel(n - 1, x, y),
            }
        }
    }

    /// Screen pixel (`x`, `y`) of a rendered frame.
    pub open spec fn rendered_pixel(self, x: int, y: int) -> u32 {
        self.layered_pixel(self.sprite_count(), x, y)
    }

    /// What sprite `i` has put at (`x`, `y`) once its rows before `rows`, and
    /// the first `cols` pixels of row `rows`, are drawn.
    pub open spec fn sprite_pixel_drawn(self, i: int, x: int, y: int, rows: int, cols: int) -> Option<
        u32,
    > {
        let row = y - (self.sprite_y(i) + 1) % 256;
        let col = x - self.sprite_x(i);
        if row < rows || (row == rows && col < cols) {
            self.sprite_pixel(i, x, y)
        } else {
            None
        }
    }
}

/// Screen pixel (`x`, `y`) of a row-major frame.
pub open spec fn pixel(fb: Seq<u32>, x: int, y: int) -> u32 {
    fb[y * 256 + x]
}

/// The sprite count reads only video memory and registers.
proof fn lemma_sprite_count_from_video(a: VdpView, b: VdpView, i: int)
    requires
        a.vram == b.vram,
        a.registers == b.registers,
    ensures
        a.sprite_count_from(i) == b.sprite_count_from(i),
    decreases 64 - i,
{
    if i < 64 {
        lemma_sprite_count_from_video(a, b, i + 1);
    }
}

proof fn lemma_layered_pixel_video(a: VdpView, b: VdpView, n: int, x: int, y: int)
    requires
        a.vram == b.vram,
        a.cram == b.cram,
        a.registers == b.registers,
    ensures
        a.layered_pixel(n, x, y) == b.layered_pixel(n, x, y),
    decreases n,
{
    if n > 0 {
        lemma_layered_pixel_video(a, b, n - 1, x, y);
    }
}

/// A rendered frame depends on video memory, palette and registers alone.
pub proof fn lemma_rendered_pixel_video(a: VdpView, b: VdpView)
    requires
        a.vram == b.vram,
        a.cram == b.cram,
        a.registers == b.registers,
    ensures
        forall|x: int, y: int| #[trigger] a.rendered_pixel(x, y) == b.rendered_pixel(x, y),
{
    lemma_sprite_count_from_video(a, b, 0);
    assert forall|x: int, y: int| #[trigger] a.rendered_pixel(x, y) == b.rendered_pixel(x, y) by {
        lemma_layered_pixel_video(a, b, a.sprite_count(), x, y);
    }
}

proof fn lemma_count_before_end(s: VdpView, s2: VdpView, t: int, i: int)
    requires
        0 <= i <= t < 64,
        s.sprite_y(t) == SPRITE_LIST_END,
        s2.sprite_y(t) == SPRITE_LIST_END,
        forall|j: int| 0 <= j < t ==> #[trigger] s.sprite_y(j) == s2.sprite_y(j),
    ensures
        s.sprite_count_from(i) == s2.sprite_count_from(i),
        s.sprite_count_from(i) <= t,
    decreases t - i,
{
    if i < t {
        lemma_count_before_end(s, s2, t, i + 1);
    }
}

proof fn lemma_layers_agree(s: VdpView, s2: VdpView, t: int, n: int, x: int, y: int)
    requires
        n <= t,
        forall|i: int, x: int, y: int|
            0 <= i < t ==> #[trigger] s.sprite_pixel(i, x, y) == s2.sprite_pixel(i, x, y),
        forall|x: int, y: int| #[trigger] s.background_pixel(x, y) == s2.background_pixel(x, y),
    ensures
        s.layered_pixel(n, x, y) == s2.layered_pixel(n, x, y),
    decreases n,
{
    if n > 0 {
        lemma_layers_agree(s, s2, t, n - 1, x, y);
    }
}

/// A sprite whose Y is 208 ends the list: neither it nor any sprite after it
/// is drawn. Two states that agree on the background and on the sprites
/// before that one render the same frame, whatever the later sprites hold.
pub proof fn lemma_list_end_hides_later_sprites(s: VdpView, s2: VdpView, t: int)
    requires
        0 <= t < 64,
        s.sprite_y(t) == SPRITE_LIST_END,
        s2.sprite_y(t) == SPRITE_LIST_END,
        forall|i: int| 0 <= i < t ==> #[trigger] s.sprite_y(i) == s2.sprite_y(i),
        forall|i: int, x: int, y: int|
            0 <= i < t ==> #[trigger] s.sprite_pixel(i, x, y) == s2.sprite_pixel(i, x, y),
        forall|x: int, y: int| #[trigger] s.background_pixel(x, y) == s2.background_pixel(x, y),
    ensures
        s.sprite_count() <= t,
        forall|x: int, y: int| #[trigger] s.rendered_pixel(x, y) == s2.rendered_pixel(x, y),
{
    lemma_count_before_end(s, s2, t, 0);
    assert forall|x: int, y: int| #[trigger] s.rendered_pixel(x, y) == s2.rendered_pixel(x, y) by {
        lemma_layers_agree(s, s2, t, s.sprite_count(), x, y);
    }
}

/// Palette addresses wrap at 32: two addresses with the same low five bits
/// give the same colour.
pub proof fn lemma_color_address_wraps(v: Vdp, i: usize, j: usize)
    requires
        i & 0x1F == j & 0x1F,
    ensures
        color_of(v.cram@[(i % 32) as int]) == color_of(v.cram@[(j % 32) as int]),
{
    assert(i % 32 == j % 32) by (bit_vector)
        requires
            i & 0x1F == j & 0x1F,
    ;
}

fn pixel_color_index(plane0: u8, plane1: u8, plane2: u8, plane3: u8, bit: u8) -> (r: u8)
    requires
        bit < 8,
    ensures
        r == color_index(plane0, plane1, plane2, plane3, bit),
        r < 16,
{
    let c0 = (plane0 >> bit) & 1;
    let c1 = (plane1 >> bit) & 1;
    let c2 = (plane2 >> bit) & 1;
    let c3 = (plane3 >> bit) & 1;
    assert(c0 <= 1 && c1 <= 1 && c2 <= 1 && c3 <= 1) by (bit_vector)
        requires
            c0 == (plane0 >> bit) & 1,
            c1 == (plane1 >> bit) & 1,
            c2 == (plane2 >> bit) & 1,
            c3 == (plane3 >> bit) & 1,
    ;
    c0 + 2 * c1 + 4 * c2 + 8 * c3
}

fn channel_value(byte: u8, shift: u8) -> (r: u32)
    requires
        shift <= 4,
    ensures
        r == channel(byte, shift),
        r <= 255,
{
    let c = (byte >> shift) & 0x03;
    assert(c <= 3) by (bit_vector)
        requires
            c == (byte >> shift) & 0x03,
    ;
    (c as u32) * 85
}

impl Vdp {
    pub open spec fn wf(&self) -> bool {
        self@.wf()
    }

    /// A VDP in its power-on state.
    pub fn new() -> (r: Self)
        ensures
            r@.is_initial(),
    {
        Self {
            vram: [0; 16384],
            cram: [0; 32],
            registers: [0; 16],
            frame_buffer: [0xFF00_0000; 49152],
            control_word: 0,
            first_byte_received: false,
            mode: VdpMode::VramRead,
            address_register: 0,
            read_buffer: 0,
            vblank_flag: false,
            line_interrupt_flag: false,
            v_counter: 0,
            h_counter: 0,
        }
    }

    fn advance_address(&mut self)
        requires
            old(self).address_register < 0x4000,
        ensures
            final(self)@ == (VdpView {
                address_register: next_address(old(self).address_register),
                ..old(self)@
            }),
    {
        let a = self.address_register;
        let b = a + 1;
        let n = b & 0x3FFF;
        assert(n == b % 0x4000) by (bit_vector)
            requires
                n == b & 0x3FFF,
        ;
        self.address_register = n;
    }

    /// ARGB colour of palette entry `cram_address`, taken modulo 32.
    pub fn get_color(&self, cram_address: usize) -> (r: u32)
        ensures
            r == color_of(self.cram@[(cram_address % 32) as int]),
    {
        let i = cram_address & 0x1F;
        assert(i == cram_address % 32) by (bit_vector)
            requires
                i == cram_address & 0x1F,
        ;
        let b = self.cram[i];
        let red = channel_value(b, 0);
        let green = channel_value(b, 2);
        let blue = channel_value(b, 4);
        let r = 0xFF00_0000u32 | (red << 16) | (green << 8) | blue;
        assert(r == 0xFF00_0000u32 + red * 0x10000 + green * 0x100 + blue) by (bit_vector)
            requires
                red <= 255,
                green <= 255,
                blue <= 255,
                r == 0xFF00_0000u32 | (red << 16) | (green << 8) | blue,
        ;
        r
    }

    fn background_pixel(&self, x: usize, y: usize) -> (r: u32)
        requires
            self.wf(),
            x < 256,
            y < 192,
        ensures
            r == self@.background_pixel(x as int, y as int),
    {
        let reg2 = self.registers[2];
        let r2 = reg2 & 0x0E;
        assert(r2 <= 14) by (bit_vector)
            requires
                r2 == reg2 & 0x0E,
        ;
        let base = (r2 as usize) * 1024;
        let scroll_x = self.registers[8] as usize;
        let scroll_y = self.registers[9] as usize;
        let bg_y = (y + scroll_y) % 224;
        let bg_x = (256 - scroll_x + x) % 256;
        let entry = base + ((bg_y / 8) * 32 + bg_x / 8) * 2;
        let lo = self.vram[entry] as u16;
        let hi = self.vram[entry + 1] as u16;
        let word = lo | (hi << 8);
        assert(word == lo + hi * 256) by (bit_vector)
            requires
                lo <= 255,
                hi <= 255,
                word == lo | (hi << 8),
        ;
        let tile_bits = word & 0x01FF;
        let h_flip = (word & 0x0200) != 0;
        let v_flip = (word & 0x0400) != 0;
        let high_palette = (word & 0x0800) != 0;
        assert(tile_bits == word % 512 && h_flip == ((word / 512) % 2 == 1) && v_flip == ((word
            / 1024) % 2 == 1) && high_palette == ((word / 2048) % 2 == 1)) by (bit_vector)
            requires
                tile_bits == word & 0x01FF,
                h_flip == ((word & 0x0200) != 0),
                v_flip == ((word & 0x0400) != 0),
                high_palette == ((word & 0x0800) != 0),
        ;
        let palette: usize = if high_palette {
            16
        } else {
            0
        };
        let tile_y = bg_y % 8;
        let tile_x = bg_x % 8;
        let line = if v_flip {
            7 - tile_y
        } else {
            tile_y
        };
        let a = (tile_bits as usize) * 32 + line * 4;
        let bit = if h_flip {
            tile_x
        } else {
            7 - tile_x
        };
        let ci = pixel_color_index(
            self.vram[a],
            self.vram[a + 1],
            self.vram[a + 2],
            self.vram[a + 3],
            bit as u8,
        );
        self.get_color(palette + ci as usize)
    }

    fn sprite_count(&self) -> (n: usize)
        requires
            self.wf(),
        ensures
            n == self@.sprite_count(),
            n <= 64,
    {
        let reg5 = self.registers[5];
        let r5 = reg5 & 0x7E;
        assert(r5 <= 0x7E) by (bit_vector)
            requires
                r5 == reg5 & 0x7E,
        ;
        let sat = (r5 as usize) * 128;
        let mut i: usize = 0;
        while i < 64
            invariant
                self.wf(),
                i <= 64,
                sat == self@.sat_base(),
                sat <= 0x3F00,
                self@.sprite_count() == self@.sprite_count_from(i as int),
            decreases 64 - i,
        {
            if self.vram[sat + i] == SPRITE_LIST_END {
                return i;
            }
            i += 1;
        }
        64
    }

    fn draw_sprite(&mut self, i: usize)
        requires
            old(self).wf(),
            i < 64,
        ensures
            final(self).wf(),
            final(self)@ == (VdpView { frame_buffer: final(self)@.frame_buffer, ..old(self)@ }),
            forall|x: int, y: int|
                0 <= x < 256 && 0 <= y < 192 ==> #[trigger] pixel(final(self).frame_buffer@, x, y)
                    == match old(self)@.sprite_pixel(i as int, x, y) {
                    Some(c) => c,
                    None => pixel(old(self).frame_buffer@, x, y),
                },
    {
        let ghost s = self@;
        let reg5 = self.registers[5];
        let reg6 = self.registers[6];
        let r5 = reg5 & 0x7E;
        let r6 = reg6 & 0x04;
        assert(r5 <= 0x7E && r6 <= 0x04) by (bit_vector)
            requires
                r5 == reg5 & 0x7E,
                r6 == reg6 & 0x04,
        ;
        let sat = (r5 as usize) * 128;
        let tile_base = (r6 as usize) * 2048;
        let tall = (self.registers[1] & 0x02) != 0;
        let height: usize = if tall {
            16
        } else {
            8
        };
        let top = (self.vram[sat + i] as usize + 1) % 256;
        let x_pos = self.vram[sat + 0x80 + i * 2] as usize;
        let mut tile = self.vram[sat + 0x81 + i * 2];
        if tall {
            let t = tile;
            tile = t & 0xFE;
            assert(tile <= 254) by (bit_vector)
                requires
                    tile == t & 0xFE,
            ;
        }
        let mut row: usize = 0;
        while row < height
            invariant
                self.wf(),
                self@ == (VdpView { frame_buffer: self@.frame_buffer, ..s }),
                s.wf(),
                i < 64,
                row <= height,
                height == s.sprite_height(),
                tile_base == s.sprite_tile_base(),
                tile_base <= 0x2000,
                top == (s.sprite_y(i as int) + 1) % 256,
                x_pos == s.sprite_x(i as int),
                tile == s.sprite_tile(i as int),
                tall ==> tile <= 254,
                tall == s.tall_sprites(),
                forall|x: int, y: int|
                    0 <= x < 256 && 0 <= y < 192 ==> #[trigger] pixel(self.frame_buffer@, x, y)
                        == match s.sprite_pixel_drawn(i as int, x, y, row as int, 0) {
                        Some(c) => c,
                        None => pixel(s.frame_buffer, x, y),
                    },
            decreases height - row,
        {
            let draw_y = top + row;
            if draw_y < 192 {
                let a = tile_base + (tile as usize + row / 8) * 32 + (row % 8) * 4;
                let plane0 = self.vram[a];
                let plane1 = self.vram[a + 1];
                let plane2 = self.vram[a + 2];
                let plane3 = self.vram[a + 3];
                let mut col: usize = 0;
                while col < 8
                    invariant
                        self.wf(),
                        self@ == (VdpView { frame_buffer: self@.frame_buffer, ..s }),
                        s.wf(),
                        i < 64,
                        row < height,
                        col <= 8,
                        draw_y == top + row,
                        draw_y < 192,
                        height == s.sprite_height(),
                        a == s.sprite_tile_base() + (s.sprite_tile(i as int) + row / 8) * 32 + (row
                            % 8) * 4,
                        a + 3 < 16384,
                        plane0 == s.vram[a as int],
                        plane1 == s.vram[a + 1],
                        plane2 == s.vram[a + 2],
                        plane3 == s.vram[a + 3],
                        top == (s.sprite_y(i as int) + 1) % 256,
                        x_pos == s.sprite_x(i as int),
                        forall|x: int, y: int|
                            0 <= x < 256 && 0 <= y < 192 ==> #[trigger] pixel(
                                self.frame_buffer@,
                                x,
                                y,
                            ) == match s.sprite_pixel_drawn(i as int, x, y, row as int, col as int) {
                                Some(c) => c,
                                None => pixel(s.frame_buffer, x, y),
                            },
                    decreases 8 - col,
                {
                    let draw_x = x_pos + col;
                    if draw_x < 256 {
                        let ci = pixel_color_index(plane0, plane1, plane2, plane3, (7 - col) as u8);
                        if ci != 0 {
                            let c = self.get_color(16 + ci as usize);
                            let ghost before = self.frame_buffer@;
                            self.frame_buffer[draw_y * 256 + draw_x] = c;
                            assert forall|x: int, y: int|
                                0 <= x < 256 && 0 <= y < 192 implies #[trigger] pixel(
                                    self.frame_buffer@,
                                    x,
                                    y,
                                ) == match s.sprite_pixel_drawn(
                                    i as int,
                                    x,
                                    y,
                                    row as int,
                                    col + 1,
                                ) {
                                    Some(c) => c,
                                    None => pixel(s.frame_buffer, x, y),
                                } by {
                                if x == draw_x && y == draw_y {
                                } else {
                                    assert(y * 256 + x != draw_y * 256 + draw_x);
                                    assert(pixel(self.frame_buffer@, x, y) == pixel(before, x, y));
                                }
                            }
                        }
                    }
                    col += 1;
                }
            }
            row += 1;
        }
    }

    /// Renders the whole frame: the scrolled background, then the sprites of
    /// the list in order, each over the ones before it. Nothing else changes.
    pub fn render_frame(&mut self)
        requires
            old(self).wf(),
        ensures
            final(self).wf(),
            final(self)@ == (VdpView { frame_buffer: final(self)@.frame_buffer, ..old(self)@ }),
            forall|x: int, y: int|
                0 <= x < 256 && 0 <= y < 192 ==> #[trigger] pixel(final(self).frame_buffer@, x, y)
                    == old(self)@.rendered_pixel(x, y),
    {
        let ghost s = self@;
        let mut sy: usize = 0;
        while sy < 192
            invariant
                self.wf(),
                self@ == (VdpView { frame_buffer: self@.frame_buffer, ..s }),
                sy <= 192,
                forall|x: int, y: int|
                    0 <= x < 256 && 0 <= y < sy ==> #[trigger] pixel(self.frame_buffer@, x, y)
                        == s.background_pixel(x, y),
            decreases 192 - sy,
        {
            let mut sx: usize = 0;
            while sx < 256
                invariant
                    self.wf(),
                    self@ == (VdpView { frame_buffer: self@.frame_buffer, ..s }),
                    sy < 192,
                    sx <= 256,
                    forall|x: int, y: int|
                        0 <= x < 256 && 0 <= y < 192 && (y < sy || (y == sy && x < sx))
                            ==> #[trigger] pixel(self.frame_buffer@, x, y) == s.background_pixel(
                            x,
                            y,
                        ),
                decreases 256 - sx,
            {
                let c = self.background_pixel(sx, sy);
                let ghost before = self.frame_buffer@;
                self.frame_buffer[sy * 256 + sx] = c;
                assert forall|x: int, y: int|
                    0 <= x < 256 && 0 <= y < 192 && (y < sy || (y == sy && x < sx + 1))
                        implies #[trigger] pixel(self.frame_buffer@, x, y) == s.background_pixel(
                        x,
                        y,
                    ) by {
                    if x == sx && y == sy {
                    } else {
                        assert(y * 256 + x != sy * 256 + sx);
                        assert(pixel(self.frame_buffer@, x, y) == pixel(before, x, y));
                    }
                }
                sx += 1;
            }
            sy += 1;
        }
        let count = self.sprite_count();
        proof {
            lemma_sprite_count_from_video(self@, s, 0);
        }
        let mut i: usize = 0;
        while i < count
            invariant
                self.wf(),
                self@ == (VdpView { frame_buffer: self@.frame_buffer, ..s }),
                count == s.sprite_count(),
                count <= 64,
                i <= count,
                forall|x: int, y: int|
                    0 <= x < 256 && 0 <= y < 192 ==> #[trigger] pixel(self.frame_buffer@, x, y)
                        == s.layered_pixel(i as int, x, y),
            decreases count - i,
        {
            self.draw_sprite(i);
            i += 1;
        }
    }

    /// The latched V counter, port `$7E`.
    pub fn read_vcounter(&self) -> (r: u8)
        ensures
            r == self.v_counter,
    {
        self.v_counter
    }

    /// The latched H counter, port `$7F`.
    pub fn read_hcounter(&self) -> (r: u8)
        ensures
            r == self.h_counter,
    {
        self.h_counter
    }

    /// Data-port read: returns the delayed buffer, refills it from the
    /// current address and advances the address.
    pub fn read_data(&mut self) -> (r: u8)
        requires
            old(self).wf(),
        ensures
            r == old(self).read_buffer,
            final(self)@ == old(self)@.after_read_data(),
            final(self).wf(),
            final(self).address_register < 0x4000,
            !final(self).first_byte_received,
    {
        self.first_byte_received = false;
        let data = self.read_buffer;
        self.read_buffer = self.vram[self.address_register as usize];
        self.advance_address();
        data
    }

    /// Data-port write: stores `value` in video memory (and the read buffer)
    /// or, in palette mode, in the palette; then advances the address.
    pub fn write_data(&mut self, value: u8)
        requires
            old(self).wf(),
        ensures
            final(self)@ == old(self)@.after_write_data(value),
            final(self).wf(),
            final(self).address_register < 0x4000,
            !final(self).first_byte_received,
    {
        self.first_byte_received = false;
        let a = self.address_register;
        match self.mode {
            VdpMode::VramWrite | VdpMode::VramRead => {
                self.vram[a as usize] = value;
                self.read_buffer = value;
            },
            VdpMode::CramWrite => {
                let i = a & 0x1F;
                assert(i == a % 32) by (bit_vector)
                    requires
                        i == a & 0x1F,
                ;
                self.cram[i as usize] = value;
            },
        }
        self.advance_address();
    }

    /// Control-port read: the status byte, with bit 7 the VBlank flag; clears
    /// both interrupt flags and the latch.
    pub fn read_control(&mut self) -> (r: u8)
        requires
            old(self).wf(),
        ensures
            r == old(self)@.status(),
            final(self)@ == old(self)@.after_read_control(),
            final(self).wf(),
            final(self).address_register < 0x4000,
            !final(self).vblank_flag,
            !final(self).line_interrupt_flag,
            !final(self).first_byte_received,
    {
        self.first_byte_received = false;
        let mut status: u8 = 0;
        if self.vblank_flag {
            status = 0x80;
            self.vblank_flag = false;
        }
        self.line_interrupt_flag = false;
        status
    }

    /// Control-port write: latches a first byte, or completes a command with
    /// the second (set a read or write address, write a register, or select
    /// the palette).
    pub fn write_control(&mut self, value: u8)
        requires
            old(self).wf(),
        ensures
            final(self)@ == old(self)@.after_write_control(value),
            final(self).wf(),
            final(self).address_register < 0x4000,
    {
        if !self.first_byte_received {
            self.control_word = (self.control_word & 0xFF00) | (value as u16);
            self.first_byte_received = true;
        } else {
            let word = (self.control_word & 0x00FF) | ((value as u16) << 8);
            self.control_word = word;
            self.first_byte_received = false;
            let addr = word & 0x3FFF;
            assert(addr < 0x4000) by (bit_vector)
                requires
                    addr == word & 0x3FFF,
            ;
            let command = value >> 6;
            if command == 0 {
                self.address_register = addr;
                self.mode = VdpMode::VramRead;
                self.read_buffer = self.vram[addr as usize];
                self.advance_address();
            } else if command == 1 {
                self.address_register = addr;
                self.mode = VdpMode::VramWrite;
            } else if command == 2 {
                let index = value & 0x0F;
                if index <= 10 {
                    self.registers[index as usize] = (word & 0x00FF) as u8;
                }
                self.mode = VdpMode::VramRead;
            } else {
                self.address_register = addr;
                self.mode = VdpMode::CramWrite;
            }
        }
    }
}

} // verus!
