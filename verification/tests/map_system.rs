use sbrx::map_system::{
    FieldColors, FieldId, MapSystem, GROUND_LEVEL_MAX_BITS, GROUND_LEVEL_MIN_BITS,
    LEVEL_BLACK_BITS, LEVEL_MID_GREY_BITS,
};

#[test]
fn level_bit_patterns_are_the_documented_levels() {
    assert_eq!(f32::from_bits(LEVEL_BLACK_BITS), 0.0);
    assert_eq!(f32::from_bits(LEVEL_MID_GREY_BITS), 0.5);
    assert_eq!(f32::from_bits(GROUND_LEVEL_MIN_BITS), 0.25);
    assert_eq!(f32::from_bits(GROUND_LEVEL_MAX_BITS), 0.75);
}

#[test]
fn display_string_of_origin() {
    let m = MapSystem::new("FLATLINE".to_string(), FieldId(0, 0));
    assert_eq!(m.get_display_string(), "FLATLINE_field.x[0]y[0]");
}

#[test]
fn display_string_after_transitions() {
    let mut m = MapSystem::new("FLATLINE".to_string(), FieldId(0, 0));
    m.transition_field_by_delta(-2, 5);
    assert_eq!(m.current_field_id, FieldId(-2, 5));
    assert_eq!(m.get_display_string(), "FLATLINE_field.x[-2]y[5]");
    m.transition_field_by_delta(-23, 20);
    assert_eq!(m.get_display_string(), "FLATLINE_field.x[-25]y[25]");
    m.transition_field_by_delta(1_000_025, -1_000_025);
    assert_eq!(m.get_display_string(), "FLATLINE_field.x[1000000]y[-1000000]");
}

#[test]
fn transition_and_back_returns_home() {
    let mut m = MapSystem::new("FLATLINE".to_string(), FieldId(3, -4));
    m.transition_field_by_delta(7, 9);
    m.transition_field_by_delta(-7, -9);
    assert_eq!(m.current_field_id, FieldId(3, -4));
}

#[test]
fn origin_field_has_fixed_colors() {
    let mut m = MapSystem::new("FLATLINE".to_string(), FieldId(0, 0));
    assert_eq!(m.color_seed_needed(), None);
    let c = m.get_current_field_colors(GROUND_LEVEL_MAX_BITS);
    assert_eq!(
        c,
        FieldColors { ground_level_bits: LEVEL_MID_GREY_BITS, sky_level_bits: LEVEL_BLACK_BITS }
    );
}

#[test]
fn origin_colors_are_stored_whatever_the_start_field() {
    let mut m = MapSystem::new("FLATLINE".to_string(), FieldId(4, 4));
    m.transition_field_by_delta(-4, -4);
    assert_eq!(m.color_seed_needed(), None);
    assert_eq!(m.get_current_field_colors(0).ground_level_bits, LEVEL_MID_GREY_BITS);
}

#[test]
fn seed_of_a_new_field() {
    let mut m = MapSystem::new("FLATLINE".to_string(), FieldId(1, 2));
    assert_eq!(m.color_seed_needed(), Some(33));
    m.transition_field_by_delta(-3, 3);
    assert_eq!(m.current_field_id, FieldId(-2, 5));
    assert_eq!(m.color_seed_needed(), Some(57));
}

#[test]
fn new_field_colors_are_generated_once_and_kept() {
    let mut m = MapSystem::new("FLATLINE".to_string(), FieldId(1, 0));
    assert_eq!(m.color_seed_needed(), Some(31));
    let first = m.get_current_field_colors(0x3E90_0000);
    assert_eq!(
        first,
        FieldColors { ground_level_bits: 0x3E90_0000, sky_level_bits: LEVEL_BLACK_BITS }
    );
    assert_eq!(m.color_seed_needed(), None);
    let second = m.get_current_field_colors(0x3F30_0000);
    assert_eq!(second, first);
}

#[test]
fn colors_of_other_fields_are_untouched() {
    let mut m = MapSystem::new("FLATLINE".to_string(), FieldId(0, 0));
    m.transition_field_by_delta(1, 0);
    let a = m.get_current_field_colors(0x3E90_0000);
    m.transition_field_by_delta(0, 1);
    let b = m.get_current_field_colors(0x3F10_0000);
    assert_ne!(a, b);
    m.transition_field_by_delta(0, -1);
    assert_eq!(m.get_current_field_colors(0x3F30_0000), a);
    m.transition_field_by_delta(-1, 0);
    assert_eq!(m.get_current_field_colors(0x3F30_0000).ground_level_bits, LEVEL_MID_GREY_BITS);
}
