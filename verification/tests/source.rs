use monitor_switch::source::{InputSource, INPUT_SELECT};

const ALL: [InputSource; 18] = [
    InputSource::Vga1,
    InputSource::Vga2,
    InputSource::Dvi1,
    InputSource::Dvi2,
    InputSource::CompositeVideo1,
    InputSource::CompositeVideo2,
    InputSource::SVideo1,
    InputSource::SVideo2,
    InputSource::Tuner1,
    InputSource::Tuner2,
    InputSource::Tuner3,
    InputSource::ComponentVideo1,
    InputSource::ComponentVideo2,
    InputSource::ComponentVideo3,
    InputSource::DisplayPort1,
    InputSource::DisplayPort2,
    InputSource::Hdmi1,
    InputSource::Hdmi2,
];

#[test]
fn name_to_code_to_name_round_trips() {
    for s in ALL {
        let code = s.code();
        let back = InputSource::from_code(code as u16);
        assert_eq!(back, Some(s));
        assert_eq!(back.unwrap().name(), s.name());
        assert_eq!(InputSource::parse(s.name()), Some(s));
    }
}

#[test]
fn codes_cover_exactly_the_table() {
    for (k, s) in ALL.iter().enumerate() {
        assert_eq!(s.code() as usize, k + 1);
    }
    assert_eq!(InputSource::from_code(0x00), None);
    assert_eq!(InputSource::from_code(0x13), None);
    assert_eq!(InputSource::from_code(0x60), None);
    assert_eq!(InputSource::from_code(0x111), None);
    assert_eq!(InputSource::from_code(u16::MAX), None);
}

#[test]
fn known_codes() {
    assert_eq!(InputSource::Vga1.code(), 0x01);
    assert_eq!(InputSource::DisplayPort1.code(), 0x0f);
    assert_eq!(InputSource::DisplayPort2.code(), 0x10);
    assert_eq!(InputSource::Hdmi1.code(), 0x11);
    assert_eq!(InputSource::Hdmi2.code(), 0x12);
}

#[test]
fn strings_outside_the_table_fail_parsing() {
    assert_eq!(InputSource::parse(""), None);
    assert_eq!(InputSource::parse("hdmi1"), None);
    assert_eq!(InputSource::parse("HDMI1"), None);
    assert_eq!(InputSource::parse("Hdmi"), None);
    assert_eq!(InputSource::parse("Hdmi12"), None);
    assert_eq!(InputSource::parse("Hdmi3"), None);
    assert_eq!(InputSource::parse(" Vga1"), None);
    assert_eq!(InputSource::parse("Vga1 "), None);
    assert_eq!(InputSource::parse("ComponentVideo4"), None);
}

#[test]
fn names_are_pairwise_distinct() {
    for (a, x) in ALL.iter().enumerate() {
        for (b, y) in ALL.iter().enumerate() {
            if a != b {
                assert_ne!(x.name(), y.name());
            }
        }
    }
}

#[test]
fn input_select_is_the_mccs_code() {
    assert_eq!(INPUT_SELECT, 0x60);
}
