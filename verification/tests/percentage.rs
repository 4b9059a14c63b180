use upower::types::Percentage;
use upower::wire::{ConversionError, WireDouble, WireKind, WireValue};

#[test]
fn new_accepts_every_number_up_to_100() {
    for n in 0u8..=100 {
        let p = Percentage::new(n).expect("a number up to 100 is a percentage");
        assert_eq!(p.get(), n);
    }
}

#[test]
fn new_rejects_every_number_above_100() {
    for n in 101u8..=255 {
        assert_eq!(Percentage::new(n), None);
    }
}

#[test]
fn bounds_are_0_and_100() {
    assert_eq!(Percentage::MIN, 0);
    assert_eq!(Percentage::MAX, 100);
    assert!(Percentage::new(Percentage::MAX).is_some());
    assert!(Percentage::new(Percentage::MAX + 1).is_none());
}

#[test]
fn try_new_reports_out_of_bounds() {
    assert_eq!(Percentage::try_new_else_zvariant_error(100).map(|p| p.get()), Ok(100));
    assert_eq!(Percentage::try_new_else_zvariant_error(0).map(|p| p.get()), Ok(0));
    assert_eq!(
        Percentage::try_new_else_zvariant_error(101),
        Err(ConversionError::OutOfBounds)
    );
}

#[test]
fn accessors_agree() {
    let p = Percentage::new(37).unwrap();
    assert_eq!(p.get(), 37);
    assert_eq!(*p.as_ref(), 37);
    assert_eq!(u8::from(p), 37);
    let n: u8 = p.into();
    assert_eq!(n, 37);
}

#[test]
fn default_is_zero() {
    assert_eq!(Percentage::default().get(), 0);
}

#[test]
fn renders_as_number_and_percent_sign() {
    assert_eq!(Percentage::new(0).unwrap().to_string(), "0%");
    assert_eq!(Percentage::new(7).unwrap().to_string(), "7%");
    assert_eq!(Percentage::new(42).unwrap().to_string(), "42%");
    assert_eq!(Percentage::new(100).unwrap().to_string(), "100%");
}

#[test]
fn to_wire_is_an_unsigned_byte() {
    assert_eq!(Percentage::new(64).unwrap().to_zvariant(), WireValue::U8(64));
}

#[test]
fn wire_round_trip() {
    for n in 0u8..=100 {
        let p = Percentage::new(n).unwrap();
        assert_eq!(Percentage::try_from(&p.to_zvariant()), Ok(p));
    }
}

#[test]
fn decodes_every_integer_member() {
    let expected = Percentage::new(55).unwrap();
    assert_eq!(Percentage::try_from(&WireValue::U8(55)), Ok(expected));
    assert_eq!(Percentage::try_from(&WireValue::I16(55)), Ok(expected));
    assert_eq!(Percentage::try_from(&WireValue::U16(55)), Ok(expected));
    assert_eq!(Percentage::try_from(&WireValue::I32(55)), Ok(expected));
    assert_eq!(Percentage::try_from(&WireValue::U32(55)), Ok(expected));
    assert_eq!(Percentage::try_from(&WireValue::I64(55)), Ok(expected));
    assert_eq!(Percentage::try_from(&WireValue::U64(55)), Ok(expected));
}

#[test]
fn decodes_the_magnitude_of_a_negative_integer() {
    let expected = Percentage::new(20).unwrap();
    assert_eq!(Percentage::try_from(&WireValue::I16(-20)), Ok(expected));
    assert_eq!(Percentage::try_from(&WireValue::I32(-20)), Ok(expected));
    assert_eq!(Percentage::try_from(&WireValue::I64(-20)), Ok(expected));
    assert_eq!(
        Percentage::try_from(&WireValue::I32(-100)).map(|p| p.get()),
        Ok(100)
    );
}

#[test]
fn decodes_a_double_by_its_nearest_integer() {
    let value = 72.5f64;
    let wire = WireValue::Double(WireDouble { bits: value.to_bits(), nearest: value.round() as i64 });
    assert_eq!(Percentage::try_from(&wire).map(|p| p.get()), Ok(73));
    let value = -12.2f64;
    let wire = WireValue::Double(WireDouble { bits: value.to_bits(), nearest: value.round() as i64 });
    assert_eq!(Percentage::try_from(&wire).map(|p| p.get()), Ok(12));
}

#[test]
fn rejects_magnitudes_above_100() {
    let out = Err(ConversionError::OutOfBounds);
    assert_eq!(Percentage::try_from(&WireValue::U8(101)), out);
    assert_eq!(Percentage::try_from(&WireValue::I32(101)), out);
    assert_eq!(Percentage::try_from(&WireValue::I32(-101)), out);
    assert_eq!(Percentage::try_from(&WireValue::I32(256)), out);
    assert_eq!(Percentage::try_from(&WireValue::U16(356)), out);
    assert_eq!(Percentage::try_from(&WireValue::U64(u64::MAX)), out);
    assert_eq!(Percentage::try_from(&WireValue::I64(i64::MIN)), out);
    let value = 100.6f64;
    let wire = WireValue::Double(WireDouble { bits: value.to_bits(), nearest: value.round() as i64 });
    assert_eq!(Percentage::try_from(&wire), out);
}

#[test]
fn rejects_members_that_are_no_numbers() {
    assert_eq!(
        Percentage::try_from(&WireValue::Str("50".to_string())),
        Err(ConversionError::IncorrectType(WireKind::Str))
    );
    assert_eq!(
        Percentage::try_from(&WireValue::Bool(true)),
        Err(ConversionError::IncorrectType(WireKind::Bool))
    );
    assert_eq!(
        Percentage::try_from(&WireValue::Structure),
        Err(ConversionError::IncorrectType(WireKind::Structure))
    );
    assert_eq!(
        Percentage::try_from(&WireValue::Array),
        Err(ConversionError::IncorrectType(WireKind::Array))
    );
    assert_eq!(
        Percentage::try_from(&WireValue::Variant(Box::new(WireValue::U8(50)))),
        Err(ConversionError::IncorrectType(WireKind::Variant))
    );
}

#[test]
fn percentages_order_by_their_number() {
    let low = Percentage::new(10).unwrap();
    let high = Percentage::new(90).unwrap();
    assert!(low < high);
    assert_eq!(low.max(high), high);
}
