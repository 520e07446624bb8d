use vibe_sms::bus::{Bus, System};
use vibe_sms::vdp::VdpMode;

fn test_rom() -> Vec<u8> {
    (0..0x10000usize).map(|i| (i % 251) as u8).collect()
}

#[test]
fn bus_memory_goes_to_mapper() {
    let rom = test_rom();
    let mut bus = Bus::new(rom.clone());
    assert_eq!(bus.read(0x0010), rom[0x0010]);
    bus.write(0xC010, 0x5A);
    assert_eq!(bus.read(0xC010), 0x5A);
    assert_eq!(bus.read(0xE010), 0x5A);
    bus.write(0xFFFE, 0x03);
    assert_eq!(bus.read(0x4000), rom[0xC000]);
}

#[test]
fn bus_vdp_register_write_through_port() {
    let mut bus = Bus::new(test_rom());
    bus.write_io(0xBF, 0x20);
    bus.write_io(0xBF, 0x81);
    assert_eq!(bus.vdp.registers[1], 0x20);
    assert_eq!(bus.vdp.mode, VdpMode::VramRead);
    assert!(!bus.vdp.first_byte_received);
}

#[test]
fn bus_vram_round_trip_through_ports() {
    let mut bus = Bus::new(test_rom());
    bus.write_io(0xBF, 0x00);
    bus.write_io(0xBF, 0x40);
    bus.write_io(0xBE, 0xDE);
    bus.write_io(0xBD, 0xAD);
    bus.write_io(0xBF, 0x00);
    bus.write_io(0xBF, 0x00);
    assert_eq!(bus.read_io(0xBE), 0xDE);
    assert_eq!(bus.read_io(0xBD), 0xAD);
}

#[test]
fn bus_status_and_counters() {
    let mut bus = Bus::new(test_rom());
    bus.vdp.vblank_flag = true;
    bus.vdp.line_interrupt_flag = true;
    bus.vdp.v_counter = 0xC0;
    bus.vdp.h_counter = 0x80;
    assert_eq!(bus.read_io(0x7E), 0xC0);
    assert_eq!(bus.read_io(0x7F), 0x80);
    assert_eq!(bus.read_io(0xBF), 0x80);
    assert!(!bus.vdp.vblank_flag && !bus.vdp.line_interrupt_flag);
    assert_eq!(bus.read_io(0xBF), 0x00);
}

#[test]
fn bus_joypad_ports() {
    let mut bus = Bus::new(test_rom());
    assert_eq!(bus.read_io(0xDC), 0xFF);
    bus.joypad.p1_up = true;
    bus.joypad.p1_b2 = true;
    assert_eq!(bus.read_io(0xDC), 0xDE);
    assert_eq!(bus.read_io(0xDD), 0xFF);
}

#[test]
fn bus_unmapped_ports() {
    let mut bus = Bus::new(test_rom());
    assert_eq!(bus.read_io(0x00), 0xFF);
    assert_eq!(bus.read_io(0x3E), 0xFF);
    bus.write_io(0x3E, 0x12);
    bus.write_io(0x3F, 0x34);
    bus.write_io(0x10, 0x56);
    assert!(!bus.vdp.first_byte_received);
    assert_eq!(bus.vdp.address_register, 0);
    assert_eq!(bus.vdp.vram[0], 0);
}

#[test]
fn system_ports_use_low_byte() {
    let mut system = System::new(Bus::new(test_rom()));
    system.port_out(0x12BF, 0x05);
    system.port_out(0x34BF, 0x40);
    system.port_out(0xFFBE, 0x99);
    assert_eq!(system.bus.vdp.vram[5], 0x99);
    system.bus.vdp.v_counter = 0x33;
    assert_eq!(system.port_in(0xAB7E), 0x33);
    system.write_byte(0xC000, 0x44);
    assert_eq!(system.read_byte(0xE000), 0x44);
}
