use rustysynth::modulator_source::{Controller, ModulatorSource};

#[test]
fn controller_accepts_valid_general_and_cc_sources() {
    assert_eq!(ModulatorSource(0).controller(), Some(Controller::NoController));
    assert_eq!(ModulatorSource(2).controller(), Some(Controller::Velocity));
    assert_eq!(ModulatorSource(3).controller(), Some(Controller::Key));
    assert_eq!(
        ModulatorSource(10).controller(),
        Some(Controller::PolyPressure)
    );
    assert_eq!(
        ModulatorSource(13).controller(),
        Some(Controller::ChannelPressure)
    );
    assert_eq!(
        ModulatorSource(14).controller(),
        Some(Controller::PitchWheel)
    );
    assert_eq!(
        ModulatorSource(16).controller(),
        Some(Controller::PitchWheelSensitivity)
    );
    assert_eq!(
        ModulatorSource(0x80 | 1).controller(),
        Some(Controller::Cc(1))
    );
}

#[test]
fn controller_rejects_reserved_general_indices() {
    assert_eq!(ModulatorSource(1).controller(), None);
    assert_eq!(ModulatorSource(4).controller(), None);
    assert_eq!(ModulatorSource(127).controller(), None); // link source
}

#[test]
fn controller_rejects_banned_cc() {
    for cc in [
        0u8, 6, 32, 38, 98, 99, 100, 101, 120, 121, 122, 123, 124, 125, 126, 127,
    ] {
        let s = ModulatorSource(0x80 | cc as u16);
        assert_eq!(s.controller(), None, "cc {cc} should be banned");
    }
}

#[test]
fn controller_rejects_reserved_curve_type() {
    let s = ModulatorSource(2 | (4 << 10));
    assert_eq!(s.controller(), None);
}

#[test]
fn is_note_on_only_matches_spec() {
    assert!(ModulatorSource(0).is_note_on_only());
    assert!(ModulatorSource(2).is_note_on_only());
    assert!(ModulatorSource(3).is_note_on_only());
    assert!(!ModulatorSource(14).is_note_on_only());
    assert!(!ModulatorSource(0x80 | 1).is_note_on_only());
}
