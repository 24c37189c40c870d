use cpuinfo::bitfield::{Bindable, BoundField, Field, Flag, Int, Register, X86Family, X86Model};
use cpuinfo::facts::FactValue;

#[test]
fn x86_model_test() {
    let field_definition = X86Model { name: "model".to_string() };
    let regular_model: Register = 0x0AF50341;
    assert_eq!(field_definition.value(regular_model).unwrap(), 0x4);
    let extended_family_model: Register = 0x0AF50641;
    assert_eq!(field_definition.value(extended_family_model).unwrap(), 0x54);
    let extended_family_model: Register = 0x0AF50F41;
    assert_eq!(field_definition.value(extended_family_model).unwrap(), 0x54);
}

#[test]
fn x86_family_test() {
    let field_definition = X86Family { name: "model".to_string() };
    let regular_model: Register = 0x0AE50341;
    assert_eq!(field_definition.value(regular_model).unwrap(), 0x3);
    let extended_family_model: Register = 0x0AE50F41;
    assert_eq!(field_definition.value(extended_family_model).unwrap(), 0xAE + 0xF);
}

#[test]
fn flag_decodes_single_bit() {
    let flag = Flag { name: "feature".to_string(), bit: 5 };
    assert_eq!(flag.value(1u128 << 5), Some(true));
    assert_eq!(flag.value(!(1u128 << 5)), Some(false));
    let wide = Flag { name: "too_far".to_string(), bit: 200 };
    assert_eq!(wide.value(u128::MAX), None);
}

#[test]
fn int_decodes_masked_range() {
    let nibble = Int { name: "model".to_string(), bounds: 4..8 };
    assert_eq!(nibble.value(0x0AF50341), Some(0x4));
    let empty = Int { name: "nothing".to_string(), bounds: 8..8 };
    assert_eq!(empty.value(0xFFFF_FFFF), Some(0));
    let wide = Int { name: "wide".to_string(), bounds: 0..40 };
    assert_eq!(wide.value(0xFF_FFFF_FFFF), None);
    assert_eq!(wide.value(0x00_1234_5678), Some(0x1234_5678));
}

#[test]
fn bound_field_renders_right_justified() {
    let flag = Field::Flag(Flag { name: "sse2".to_string(), bit: 26 });
    let bound = BoundField::from_register_and_field(1u128 << 26, &flag);
    assert_eq!(bound.render(), "sse2 =       true");
    let cleared = BoundField::from_register_and_field(0, &flag);
    assert_eq!(cleared.render(), "sse2 =      false");
    let int = Field::Int(Int { name: "stepping".to_string(), bounds: 0..4 });
    let bound = BoundField::from_register_and_field(0x0AF5034E, &int);
    assert_eq!(bound.render(), "stepping =          e");
}

#[test]
fn bound_field_collects_decoded_or_zero() {
    let int = Field::Int(Int { name: "huge".to_string(), bounds: 0..64 });
    let bound = BoundField::from_register_and_field(u128::MAX, &int);
    let fact = bound.collect_fact::<FactValue>();
    assert_eq!(fact.name, "huge");
    assert_eq!(fact.value, FactValue::Num(0));
    let flag = Field::Flag(Flag { name: "present".to_string(), bit: 0 });
    let fact = BoundField::from_register_and_field(1, &flag).collect_fact::<FactValue>();
    assert_eq!(fact.value, FactValue::Bool(true));
}
