use rustysynth::generator_type::GeneratorType;
use rustysynth::region_pair::{combined_generator, generator_range};

#[test]
fn generator_ranges_cover_the_restricted_generators() {
    assert_eq!(generator_range(GeneratorType::INITIAL_ATTENUATION as usize), Some((0, 1440)));
    assert_eq!(generator_range(GeneratorType::PAN as usize), Some((-500, 500)));
    // Generators this file does not restrict pass through untouched.
    assert_eq!(generator_range(GeneratorType::SAMPLE_MODES as usize), None);
}

#[test]
fn combined_generator_clamps_only_when_asked() {
    let pan = GeneratorType::PAN as usize;
    assert_eq!(combined_generator(pan, 300, 400, None, true), 500);
    assert_eq!(combined_generator(pan, 300, 400, None, false), 700);
    assert_eq!(combined_generator(pan, -300, -400, Some(-10), true), -500);
    assert_eq!(combined_generator(pan, 10, 20, Some(5), true), 35);
    // Coarse tune has no range and is never clamped.
    let coarse = GeneratorType::COARSE_TUNE as usize;
    assert_eq!(combined_generator(coarse, 100, 100, Some(1000), true), 1200);
    // An attenuation below zero is brought up to zero.
    let attenuation = GeneratorType::INITIAL_ATTENUATION as usize;
    assert_eq!(combined_generator(attenuation, -100, 0, None, true), 0);
}
