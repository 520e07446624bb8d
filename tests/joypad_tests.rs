use vibe_sms::joypad::Joypad;

#[test]
fn joypad_encoding() {
    let mut pad = Joypad::new();
    assert_eq!(pad.read_port_dc(), 0xFF);
    pad.p1_up = true;
    assert_eq!(pad.read_port_dc(), 0xFE);
    pad.p1_b2 = true;
    assert_eq!(pad.read_port_dc(), 0xDE);
}

#[test]
fn joypad_all_buttons_held() {
    let mut pad = Joypad::new();
    pad.p1_up = true;
    pad.p1_down = true;
    pad.p1_left = true;
    pad.p1_right = true;
    pad.p1_b1 = true;
    pad.p1_b2 = true;
    assert_eq!(pad.read_port_dc(), 0xC0);
    assert_eq!(pad.read_port_dd(), 0xFF);
}

#[test]
fn joypad_single_buttons() {
    let mut pad = Joypad::new();
    pad.p1_right = true;
    assert_eq!(pad.read_port_dc(), 0xF7);
    pad.p1_right = false;
    pad.p1_b1 = true;
    assert_eq!(pad.read_port_dc(), 0xEF);
}
