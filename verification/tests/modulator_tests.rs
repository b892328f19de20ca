use rustysynth::generator_type::GeneratorType;
use rustysynth::modulator::{
    merge, validate_zone, Modulator, ModulatorDropCounts, ModulatorDropReason, ModulatorLevel,
};

fn modulator(source: u16, destination: u16, amount: i16, amount_source: u16, transform: u16) -> Modulator {
    Modulator {
        source,
        destination,
        amount,
        amount_source,
        transform,
    }
}

// CC1 (modulation wheel) -> vibrato LFO to pitch, a plausible real modulator.
fn valid_modulator(amount: i16) -> Modulator {
    modulator(0x0081, GeneratorType::VIBRATO_LFO_TO_PITCH, amount, 0, 0)
}

#[test]
fn valid_modulator_passes_validation() {
    assert!(valid_modulator(50).validate(ModulatorLevel::Instrument).is_ok());
    assert!(valid_modulator(50).validate(ModulatorLevel::Preset).is_ok());
}

#[test]
fn reserved_source_curve_type_is_dropped() {
    // Curve type bits (10-15) set to 4, which is reserved.
    let m = modulator(0x1002, GeneratorType::PAN, 100, 0, 0);
    assert_eq!(
        m.validate(ModulatorLevel::Instrument),
        Err(ModulatorDropReason::ReservedSource)
    );
}

#[test]
fn primary_source_none_is_dropped() {
    let m = modulator(0, GeneratorType::PAN, 100, 0, 0);
    assert_eq!(
        m.validate(ModulatorLevel::Instrument),
        Err(ModulatorDropReason::PrimarySourceNone)
    );
}

#[test]
fn amount_source_none_is_allowed() {
    let m = modulator(0x0002, GeneratorType::PAN, 100, 0, 0);
    assert!(m.validate(ModulatorLevel::Instrument).is_ok());
}

#[test]
fn zone_validation_tells_the_link_failures_apart() {
    const LINK_SOURCE: u16 = 127;

    // A well-formed pair: modulator 0 feeds modulator 1, which drives a generator.
    // Both are dropped, but only because chains are unsupported.
    let chain = [
        modulator(0x0081, 0x8000 | 1, 100, 0, 0),
        modulator(LINK_SOURCE, GeneratorType::VIBRATO_LFO_TO_PITCH, 50, 0, 0),
    ];
    let mut counts = ModulatorDropCounts::default();
    assert!(validate_zone(&chain, ModulatorLevel::Instrument, &mut counts).is_empty());
    assert_eq!(counts.linked, 2);
    assert_eq!(counts.dangling_link, 0);
    assert_eq!(counts.unfed_link_source, 0);

    // A link naming a modulator the zone does not have.
    let dangling = [modulator(0x0081, 0x8000 | 7, 100, 0, 0)];
    let mut counts = ModulatorDropCounts::default();
    assert!(validate_zone(&dangling, ModulatorLevel::Instrument, &mut counts).is_empty());
    assert_eq!(counts.dangling_link, 1);
    assert_eq!(counts.linked, 0);

    // A link source with nothing feeding it.
    let unfed = [
        modulator(LINK_SOURCE, GeneratorType::VIBRATO_LFO_TO_PITCH, 50, 0, 0),
        valid_modulator(50),
    ];
    let mut counts = ModulatorDropCounts::default();
    let kept = validate_zone(&unfed, ModulatorLevel::Instrument, &mut counts);
    assert_eq!(kept.len(), 1);
    assert_eq!(counts.unfed_link_source, 1);
    assert_eq!(counts.linked, 0);

    // A link used as the amount source is never legal.
    let amount_link = [modulator(
        0x0081,
        GeneratorType::VIBRATO_LFO_TO_PITCH,
        50,
        LINK_SOURCE,
        0,
    )];
    let mut counts = ModulatorDropCounts::default();
    assert!(validate_zone(&amount_link, ModulatorLevel::Instrument, &mut counts).is_empty());
    assert_eq!(counts.linked_amount_source, 1);
    assert_eq!(counts.linked, 0);
}

#[test]
fn linked_source_is_dropped() {
    // General controller index 127 (link), CC flag clear.
    let m = modulator(0x007F, GeneratorType::PAN, 100, 0, 0);
    assert_eq!(m.validate(ModulatorLevel::Instrument), Err(ModulatorDropReason::Linked));
}

#[test]
fn linked_destination_is_dropped() {
    let m = modulator(0x0002, GeneratorType::PAN | 0x8000, 100, 0, 0);
    assert_eq!(m.validate(ModulatorLevel::Instrument), Err(ModulatorDropReason::Linked));
}

#[test]
fn banned_cc6_source_is_dropped() {
    // CC flag set (bit 7), controller number 6 (data entry MSB), banned.
    let m = modulator(0x0086, GeneratorType::PAN, 100, 0, 0);
    assert_eq!(m.validate(ModulatorLevel::Instrument), Err(ModulatorDropReason::BannedCc));
}

#[test]
fn banned_cc120_source_is_dropped() {
    // CC flag set, controller number 120 (all sound off), banned.
    let m = modulator(0x00F8, GeneratorType::PAN, 100, 0, 0);
    assert_eq!(m.validate(ModulatorLevel::Instrument), Err(ModulatorDropReason::BannedCc));
}

#[test]
fn transform_one_is_dropped() {
    let m = modulator(0x0002, GeneratorType::PAN, 100, 0, 1);
    assert_eq!(
        m.validate(ModulatorLevel::Instrument),
        Err(ModulatorDropReason::InvalidTransform)
    );
}

#[test]
fn sample_modes_destination_is_valid_for_instrument_but_not_preset() {
    let m = modulator(0x0002, GeneratorType::SAMPLE_MODES, 1, 0, 0);
    assert!(m.validate(ModulatorLevel::Instrument).is_ok());
    assert_eq!(
        m.validate(ModulatorLevel::Preset),
        Err(ModulatorDropReason::InvalidDestination)
    );
}

#[test]
fn common_invalid_destination_is_dropped_at_both_levels() {
    let m = modulator(0x0002, GeneratorType::SAMPLE_ID, 1, 0, 0);
    assert_eq!(
        m.validate(ModulatorLevel::Instrument),
        Err(ModulatorDropReason::InvalidDestination)
    );
    assert_eq!(
        m.validate(ModulatorLevel::Preset),
        Err(ModulatorDropReason::InvalidDestination)
    );
}

#[test]
fn later_duplicate_within_zone_wins() {
    let mut counts = ModulatorDropCounts::default();
    let zone = vec![valid_modulator(50), valid_modulator(75)];
    let result = validate_zone(&zone, ModulatorLevel::Instrument, &mut counts);
    assert_eq!(result.len(), 1);
    assert_eq!(result[0].amount, 75);
    // A same-zone override is not a validation failure.
    assert_eq!(counts.into_messages().len(), 0);
}

#[test]
fn invalid_modulators_are_dropped_and_counted() {
    let mut counts = ModulatorDropCounts::default();
    let zone = vec![
        valid_modulator(50),
        modulator(0, GeneratorType::PAN, 1, 0, 0), // primary source None
        modulator(0x0086, GeneratorType::PAN, 1, 0, 0), // banned CC6
    ];
    let result = validate_zone(&zone, ModulatorLevel::Instrument, &mut counts);
    assert_eq!(result.len(), 1);
    assert_eq!(counts.into_messages().len(), 2);
}

#[test]
fn local_replaces_identical_global() {
    let global = vec![valid_modulator(50)];
    let mut counts = ModulatorDropCounts::default();
    let global = validate_zone(&global, ModulatorLevel::Instrument, &mut counts);
    let local = validate_zone(&[valid_modulator(75)], ModulatorLevel::Instrument, &mut counts);

    let merged = merge(&global, local);

    assert_eq!(merged.len(), 1);
    assert_eq!(merged[0].amount, 75);
}

#[test]
fn merge_keeps_non_overridden_global_entries() {
    let global_source = vec![valid_modulator(50), modulator(0x028A, GeneratorType::PAN, 1000, 0, 0)];
    let mut counts = ModulatorDropCounts::default();
    let global = validate_zone(&global_source, ModulatorLevel::Instrument, &mut counts);
    let local = validate_zone(&[valid_modulator(75)], ModulatorLevel::Instrument, &mut counts);

    let merged = merge(&global, local);

    assert_eq!(merged.len(), 2);
    assert!(merged.iter().any(|m| m.destination == GeneratorType::PAN && m.amount == 1000));
    assert!(merged
        .iter()
        .any(|m| m.destination == GeneratorType::VIBRATO_LFO_TO_PITCH && m.amount == 75));
}


#[test]
fn duplicate_keeps_the_last_amount_at_the_first_place() {
    let mut counts = ModulatorDropCounts::default();
    let pan = |amount: i16| modulator(0x028A, GeneratorType::PAN, amount, 0, 0);
    let zone = vec![
        valid_modulator(50),
        pan(10),
        modulator(0, GeneratorType::PAN, 1, 0, 0), // dropped
        valid_modulator(75),
        pan(20),
    ];
    let result = validate_zone(&zone, ModulatorLevel::Instrument, &mut counts);
    assert_eq!(result.len(), 2);
    assert_eq!(result[0].destination, GeneratorType::VIBRATO_LFO_TO_PITCH);
    assert_eq!(result[0].amount, 75);
    assert_eq!(result[1].destination, GeneratorType::PAN);
    assert_eq!(result[1].amount, 20);
    // One modulator dropped, one count.
    assert_eq!(counts.into_messages().len(), 1);
}

#[test]
fn merge_is_the_local_list_then_the_new_global_entries() {
    let pan = modulator(0x028A, GeneratorType::PAN, 1000, 0, 0);
    let reverb = modulator(0x028A, GeneratorType::REVERB_EFFECTS_SEND, 200, 0, 0);
    let global = vec![pan, valid_modulator(50), reverb];
    let local = vec![valid_modulator(75)];
    let merged = merge(&global, local);
    assert_eq!(merged, vec![valid_modulator(75), pan, reverb]);
}
