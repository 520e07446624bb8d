use vibe_sms::vdp::{Vdp, VdpMode};

fn set_address(vdp: &mut Vdp, addr: u16, command: u8) {
    vdp.write_control((addr & 0xFF) as u8);
    vdp.write_control(((addr >> 8) as u8 & 0x3F) | (command << 6));
}

fn set_register(vdp: &mut Vdp, index: u8, value: u8) {
    vdp.write_control(value);
    vdp.write_control(0x80 | index);
}

#[test]
fn register_write_command() {
    let mut vdp = Vdp::new();
    vdp.write_control(0x20);
    assert!(vdp.first_byte_received);
    vdp.write_control(0x81);
    assert_eq!(vdp.registers[1], 0x20);
    assert_eq!(vdp.mode, VdpMode::VramRead);
    assert!(!vdp.first_byte_received);
}

#[test]
fn register_index_above_ten_is_ignored() {
    let mut vdp = Vdp::new();
    set_address(&mut vdp, 0, 3);
    assert_eq!(vdp.mode, VdpMode::CramWrite);
    set_register(&mut vdp, 11, 0x55);
    set_register(&mut vdp, 15, 0x66);
    assert_eq!(vdp.registers, [0u8; 16]);
    assert_eq!(vdp.mode, VdpMode::VramRead);
    set_register(&mut vdp, 10, 0x77);
    assert_eq!(vdp.registers[10], 0x77);
}

#[test]
fn vram_write_then_read_round_trip() {
    let mut vdp = Vdp::new();
    vdp.write_control(0x00);
    vdp.write_control(0x40);
    vdp.write_data(0xDE);
    vdp.write_data(0xAD);
    vdp.write_control(0x00);
    vdp.write_control(0x00);
    assert_eq!(vdp.read_data(), 0xDE);
    assert_eq!(vdp.read_data(), 0xAD);
}

#[test]
fn read_returns_buffer_before_refill() {
    let mut vdp = Vdp::new();
    vdp.vram[0x100] = 1;
    vdp.vram[0x101] = 2;
    vdp.vram[0x102] = 3;
    set_address(&mut vdp, 0x100, 0);
    assert_eq!(vdp.read_buffer, 1);
    assert_eq!(vdp.address_register, 0x101);
    let reads: Vec<u8> = (0..3).map(|_| vdp.read_data()).collect();
    assert_eq!(reads, vec![1, 2, 3]);
}

#[test]
fn read_stream_wraps_at_16k() {
    let mut vdp = Vdp::new();
    vdp.vram[0x3FFF] = 0x11;
    vdp.vram[0x0000] = 0x22;
    vdp.vram[0x0001] = 0x33;
    set_address(&mut vdp, 0x3FFF, 0);
    assert_eq!(vdp.read_data(), 0x11);
    assert_eq!(vdp.read_data(), 0x22);
    assert_eq!(vdp.read_data(), 0x33);
}

#[test]
fn write_stream_wraps_at_16k() {
    let mut vdp = Vdp::new();
    set_address(&mut vdp, 0x3FFE, 1);
    for v in [0xA0u8, 0xA1, 0xA2, 0xA3] {
        vdp.write_data(v);
    }
    assert_eq!(vdp.vram[0x3FFE], 0xA0);
    assert_eq!(vdp.vram[0x3FFF], 0xA1);
    assert_eq!(vdp.vram[0x0000], 0xA2);
    assert_eq!(vdp.vram[0x0001], 0xA3);
    assert_eq!(vdp.address_register, 2);
    assert_eq!(vdp.read_buffer, 0xA3);
}

#[test]
fn palette_write_stream_wraps_at_32() {
    let mut vdp = Vdp::new();
    set_address(&mut vdp, 0x001E, 3);
    for v in [0x01u8, 0x02, 0x03, 0x04] {
        vdp.write_data(v);
    }
    assert_eq!(vdp.cram[0x1E], 0x01);
    assert_eq!(vdp.cram[0x1F], 0x02);
    assert_eq!(vdp.cram[0x00], 0x03);
    assert_eq!(vdp.cram[0x01], 0x04);
    assert_eq!(vdp.vram[0x1E], 0);
    assert_eq!(vdp.address_register, 0x22);
}

#[test]
fn palette_address_uses_low_five_bits() {
    let mut vdp = Vdp::new();
    set_address(&mut vdp, 0x2345, 3);
    vdp.write_data(0x3F);
    assert_eq!(vdp.cram[0x05], 0x3F);
}

#[test]
fn address_register_stays_below_16k() {
    let mut vdp = Vdp::new();
    let mut seed: u32 = 12345;
    for _ in 0..5000 {
        seed = seed.wrapping_mul(1103515245).wrapping_add(12345);
        let v = (seed >> 16) as u8;
        match (seed >> 8) % 4 {
            0 => {
                vdp.read_data();
            }
            1 => vdp.write_data(v),
            2 => {
                vdp.read_control();
            }
            _ => vdp.write_control(v),
        }
        assert!(vdp.address_register < 0x4000);
    }
}

#[test]
fn data_and_status_access_clear_latch() {
    let mut vdp = Vdp::new();
    vdp.write_control(0x12);
    assert!(vdp.first_byte_received);
    vdp.read_data();
    assert!(!vdp.first_byte_received);
    vdp.write_control(0x12);
    vdp.write_data(0);
    assert!(!vdp.first_byte_received);
    vdp.write_control(0x12);
    vdp.read_control();
    assert!(!vdp.first_byte_received);
}

#[test]
fn status_read_clears_both_flags() {
    let mut vdp = Vdp::new();
    vdp.line_interrupt_flag = true;
    assert_eq!(vdp.read_control(), 0x00);
    assert!(!vdp.line_interrupt_flag);
    vdp.vblank_flag = true;
    assert_eq!(vdp.read_control(), 0x80);
    assert!(!vdp.vblank_flag);
    vdp.vblank_flag = true;
    vdp.line_interrupt_flag = true;
    assert_eq!(vdp.read_control(), 0x80);
    assert!(!vdp.vblank_flag && !vdp.line_interrupt_flag);
    assert_eq!(vdp.read_control(), 0x00);
}

#[test]
fn color_decoding() {
    let mut vdp = Vdp::new();
    vdp.cram[0] = 0x00;
    vdp.cram[1] = 0x03;
    vdp.cram[2] = 0x0C;
    vdp.cram[3] = 0x30;
    vdp.cram[4] = 0x3F;
    vdp.cram[5] = 0x19;
    assert_eq!(vdp.get_color(0), 0xFF00_0000);
    assert_eq!(vdp.get_color(1), 0xFFFF_0000);
    assert_eq!(vdp.get_color(2), 0xFF00_FF00);
    assert_eq!(vdp.get_color(3), 0xFF00_00FF);
    assert_eq!(vdp.get_color(4), 0xFFFF_FFFF);
    assert_eq!(vdp.get_color(5), 0xFF55_AA55);
}

#[test]
fn color_index_wraps_at_32() {
    let mut vdp = Vdp::new();
    for i in 0..32 {
        vdp.cram[i] = (i as u8 * 7) & 0x3F;
    }
    for i in 0..32usize {
        assert_eq!(vdp.get_color(i), vdp.get_color(i + 32));
        assert_eq!(vdp.get_color(i), vdp.get_color(i + 0x1000));
    }
}

#[test]
fn counters_read_back() {
    let mut vdp = Vdp::new();
    vdp.v_counter = 0x42;
    vdp.h_counter = 0x80;
    assert_eq!(vdp.read_vcounter(), 0x42);
    assert_eq!(vdp.read_hcounter(), 0x80);
}

/// Name table at 0x3800, sprites at 0x3F00 with patterns from 0.
fn display_vdp() -> Vdp {
    let mut vdp = Vdp::new();
    vdp.registers[2] = 0x0E;
    vdp.registers[5] = 0x7E;
    vdp.registers[6] = 0x00;
    for i in 0..64 {
        vdp.vram[0x3F00 + i] = 0xF0;
    }
    vdp
}

#[test]
fn background_tile_pixels() {
    let mut vdp = display_vdp();
    vdp.registers[5] = 0x7E;
    vdp.vram[0x3F00] = 208;
    vdp.vram[0x3800] = 0x01;
    vdp.vram[0x3801] = 0x00;
    vdp.vram[32] = 0x80;
    vdp.vram[32 + 1] = 0x40;
    vdp.cram[0] = 0x00;
    vdp.cram[1] = 0x03;
    vdp.cram[2] = 0x0C;
    vdp.render_frame();
    assert_eq!(vdp.frame_buffer[0], 0xFFFF_0000);
    assert_eq!(vdp.frame_buffer[1], 0xFF00_FF00);
    assert_eq!(vdp.frame_buffer[2], 0xFF00_0000);
    assert_eq!(vdp.frame_buffer[256], 0xFF00_0000);
}

#[test]
fn background_flip_and_palette() {
    let mut vdp = display_vdp();
    vdp.vram[0x3F00] = 208;
    // Entry 0: tile 1, horizontal flip, second palette.
    vdp.vram[0x3800] = 0x01;
    vdp.vram[0x3801] = 0x0A;
    vdp.vram[32] = 0x80;
    vdp.cram[17] = 0x30;
    vdp.cram[16] = 0x00;
    vdp.render_frame();
    assert_eq!(vdp.frame_buffer[7], 0xFF00_00FF);
    assert_eq!(vdp.frame_buffer[0], 0xFF00_0000);
    // Entry 1: tile 1, vertical flip: its top row shows pattern row 7.
    vdp.vram[0x3802] = 0x01;
    vdp.vram[0x3803] = 0x04;
    vdp.vram[32 + 7 * 4] = 0x80;
    vdp.cram[1] = 0x03;
    vdp.render_frame();
    assert_eq!(vdp.frame_buffer[8], 0xFFFF_0000);
}

#[test]
fn background_scroll() {
    let mut vdp = display_vdp();
    vdp.vram[0x3F00] = 208;
    vdp.vram[0x3800] = 0x01;
    vdp.vram[32] = 0x80;
    vdp.cram[1] = 0x03;
    vdp.registers[8] = 3;
    vdp.render_frame();
    assert_eq!(vdp.frame_buffer[3], 0xFFFF_0000);
    assert_eq!(vdp.frame_buffer[0], 0xFF00_0000);
    vdp.registers[8] = 0;
    vdp.registers[9] = 220;
    vdp.render_frame();
    assert_eq!(vdp.frame_buffer[4 * 256], 0xFFFF_0000);
}

#[test]
fn sprite_is_drawn_over_background() {
    let mut vdp = display_vdp();
    vdp.vram[0x3F00] = 9;
    vdp.vram[0x3F01] = 208;
    vdp.vram[0x3F80] = 20;
    vdp.vram[0x3F81] = 2;
    vdp.vram[64] = 0xFF;
    vdp.vram[64 + 4] = 0x81;
    vdp.cram[17] = 0x0C;
    vdp.render_frame();
    for x in 20..28 {
        assert_eq!(vdp.frame_buffer[10 * 256 + x], 0xFF00_FF00);
    }
    assert_eq!(vdp.frame_buffer[10 * 256 + 19], 0xFF00_0000);
    assert_eq!(vdp.frame_buffer[10 * 256 + 28], 0xFF00_0000);
    assert_eq!(vdp.frame_buffer[9 * 256 + 20], 0xFF00_0000);
    assert_eq!(vdp.frame_buffer[11 * 256 + 20], 0xFF00_FF00);
    assert_eq!(vdp.frame_buffer[11 * 256 + 21], 0xFF00_0000);
    assert_eq!(vdp.frame_buffer[11 * 256 + 27], 0xFF00_FF00);
}

#[test]
fn sprite_list_ends_at_208() {
    let mut vdp = display_vdp();
    vdp.vram[64] = 0xFF;
    vdp.cram[17] = 0x0C;
    vdp.vram[0x3F00] = 9;
    vdp.vram[0x3F80] = 20;
    vdp.vram[0x3F81] = 2;
    vdp.vram[0x3F01] = 208;
    vdp.vram[0x3F02] = 49;
    vdp.vram[0x3F84] = 100;
    vdp.vram[0x3F85] = 2;
    vdp.render_frame();
    assert_eq!(vdp.frame_buffer[10 * 256 + 20], 0xFF00_FF00);
    assert_eq!(vdp.frame_buffer[50 * 256 + 100], 0xFF00_0000);
    vdp.vram[0x3F01] = 100;
    vdp.render_frame();
    assert_eq!(vdp.frame_buffer[50 * 256 + 100], 0xFF00_FF00);
}

#[test]
fn later_sprite_covers_earlier_and_tall_sprites() {
    let mut vdp = display_vdp();
    vdp.vram[0x3F00] = 9;
    vdp.vram[0x3F01] = 9;
    vdp.vram[0x3F02] = 208;
    vdp.vram[0x3F80] = 20;
    vdp.vram[0x3F81] = 2;
    vdp.vram[0x3F82] = 20;
    vdp.vram[0x3F83] = 3;
    vdp.vram[64] = 0xFF;
    vdp.vram[96 + 1] = 0xFF;
    vdp.cram[17] = 0x0C;
    vdp.cram[18] = 0x30;
    vdp.render_frame();
    assert_eq!(vdp.frame_buffer[10 * 256 + 20], 0xFF00_00FF);
    // 8x16: tile 3 becomes 2, and its second half is tile 3.
    vdp.registers[1] = 0x02;
    vdp.vram[0x3F02] = 208;
    vdp.vram[0x3F01] = 208;
    vdp.render_frame();
    assert_eq!(vdp.frame_buffer[10 * 256 + 20], 0xFF00_FF00);
    assert_eq!(vdp.frame_buffer[18 * 256 + 20], 0xFF00_00FF);
}

#[test]
fn sprite_clipped_at_screen_edges() {
    let mut vdp = display_vdp();
    vdp.vram[0x3F00] = 186;
    vdp.vram[0x3F01] = 208;
    vdp.vram[0x3F80] = 252;
    vdp.vram[0x3F81] = 2;
    for row in 0..8 {
        vdp.vram[64 + row * 4] = 0xFF;
    }
    vdp.cram[17] = 0x0C;
    vdp.render_frame();
    assert_eq!(vdp.frame_buffer[187 * 256 + 252], 0xFF00_FF00);
    assert_eq!(vdp.frame_buffer[191 * 256 + 255], 0xFF00_FF00);
    assert_eq!(vdp.frame_buffer[187 * 256 + 0], 0xFF00_0000);
}
