use comm::codec::{
    column_result, from_json, from_wire, to_json, to_sql, to_wire, ColumnError, ColumnValue,
    DecodeError, Variant, WireError, VARIANT_WIRE_MAX_SIZE,
};
use comm::gui::{CompositeValveState, ValveState, COMPOSITE_VALVE_STATE_WIRE_MAX_SIZE};
use comm::sam::{ChannelType, Unit};
use comm::Computer;

const UNITS: [Unit; 5] = [Unit::Amps, Unit::Psi, Unit::Kelvin, Unit::Pounds, Unit::Volts];
const CHANNEL_TYPES: [ChannelType; 8] = [
    ChannelType::CurrentLoop,
    ChannelType::ValveVoltage,
    ChannelType::ValveCurrent,
    ChannelType::RailVoltage,
    ChannelType::RailCurrent,
    ChannelType::DifferentialSignal,
    ChannelType::Rtd,
    ChannelType::Tc,
];
const VALVE_STATES: [ValveState; 5] = [
    ValveState::Undetermined,
    ValveState::Disconnected,
    ValveState::Open,
    ValveState::Closed,
    ValveState::Fault,
];
const COMPUTERS: [Computer; 2] = [Computer::Flight, Computer::Ground];

fn text_of(v: &ColumnValue) -> String {
    match v {
        ColumnValue::Text(t) => String::from_utf8(t.clone()).unwrap(),
        _ => panic!("not text"),
    }
}

fn round_trips<T: Variant + Copy + PartialEq + std::fmt::Debug>(all: &[T]) {
    for v in all {
        let json = to_json(v);
        assert!(matches!(from_json::<T>(&json), Ok(x) if x == *v));
        let stored = to_sql(v);
        assert!(matches!(column_result::<T>(&stored), Ok(x) if x == *v));
        let wire = to_wire(v);
        assert!(wire.len() <= VARIANT_WIRE_MAX_SIZE);
        assert!(matches!(from_wire::<T>(&wire), Ok(x) if x == *v));
    }
}

#[test]
fn every_variant_round_trips() {
    round_trips(&UNITS);
    round_trips(&CHANNEL_TYPES);
    round_trips(&VALVE_STATES);
    round_trips(&COMPUTERS);
}

#[test]
fn json_names_are_snake_case() {
    assert_eq!(to_json(&ChannelType::CurrentLoop), "\"current_loop\"");
    assert_eq!(to_json(&ChannelType::DifferentialSignal), "\"differential_signal\"");
    assert_eq!(to_json(&Unit::Psi), "\"psi\"");
    assert_eq!(to_json(&ValveState::Disconnected), "\"disconnected\"");
    assert_eq!(to_json(&Computer::Flight), "\"flight\"");
}

#[test]
fn storage_text_is_json_without_quotes() {
    assert_eq!(text_of(&to_sql(&Computer::Ground)), "ground");
    assert_eq!(text_of(&to_sql(&ChannelType::ValveCurrent)), "valve_current");
    assert_eq!(text_of(&to_sql(&ValveState::Fault)), "fault");
    for c in COMPUTERS {
        assert_eq!(format!("\"{}\"", text_of(&to_sql(&c))), to_json(&c));
    }
}

#[test]
fn storage_decodes_known_text() {
    let v = ColumnValue::Text(b"flight".to_vec());
    assert!(matches!(column_result::<Computer>(&v), Ok(Computer::Flight)));
    let v = ColumnValue::Text(b"rail_voltage".to_vec());
    assert!(matches!(column_result::<ChannelType>(&v), Ok(ChannelType::RailVoltage)));
}

#[test]
fn storage_decodes_escaped_text() {
    let v = ColumnValue::Text(b"gr\\u006fund".to_vec());
    assert!(matches!(column_result::<Computer>(&v), Ok(Computer::Ground)));
}

#[test]
fn non_text_column_is_invalid_type() {
    let values = [
        ColumnValue::Null,
        ColumnValue::Integer(0),
        ColumnValue::Real(1.5f64.to_bits()),
        ColumnValue::Blob(b"flight".to_vec()),
    ];
    for v in &values {
        assert!(matches!(column_result::<Computer>(v), Err(ColumnError::InvalidType)));
        assert!(matches!(column_result::<ValveState>(v), Err(ColumnError::InvalidType)));
    }
}

#[test]
fn unknown_stored_text_fails_to_deserialize() {
    let v = ColumnValue::Text(b"Flight".to_vec());
    match column_result::<Computer>(&v) {
        Err(ColumnError::Deserialize(DecodeError::UnknownVariant(name))) => {
            assert_eq!(name, "Flight")
        }
        _ => panic!("expected an unknown variant"),
    }
    let v = ColumnValue::Text(b"half_open".to_vec());
    assert!(matches!(
        column_result::<ValveState>(&v),
        Err(ColumnError::Deserialize(DecodeError::UnknownVariant(_)))
    ));
}

#[test]
fn malformed_stored_text_fails_as_json() {
    let v = ColumnValue::Text(b"fli\"ght".to_vec());
    assert!(matches!(
        column_result::<Computer>(&v),
        Err(ColumnError::Deserialize(DecodeError::Json(_)))
    ));
    let v = ColumnValue::Text(b"bad\\escape".to_vec());
    assert!(matches!(
        column_result::<Computer>(&v),
        Err(ColumnError::Deserialize(DecodeError::Json(_)))
    ));
}

#[test]
fn json_decode_errors() {
    assert!(matches!(from_json::<Unit>("psi"), Err(DecodeError::Json(_))));
    assert!(matches!(from_json::<Unit>("\"Psi\""), Err(DecodeError::UnknownVariant(_))));
    assert!(matches!(from_json::<Unit>(" \"psi\" "), Ok(Unit::Psi)));
}

#[test]
fn wire_bytes_are_variant_indices() {
    assert_eq!(to_wire(&Unit::Amps), vec![0u8]);
    assert_eq!(to_wire(&Unit::Volts), vec![4u8]);
    assert_eq!(to_wire(&ChannelType::Tc), vec![7u8]);
    assert_eq!(to_wire(&ValveState::Closed), vec![3u8]);
    assert_eq!(to_wire(&Computer::Ground), vec![1u8]);
    assert_eq!(VARIANT_WIRE_MAX_SIZE, 1);
}

#[test]
fn wire_decode_errors() {
    assert!(matches!(from_wire::<Computer>(&[]), Err(WireError::Postcard(_))));
    assert!(matches!(from_wire::<Computer>(&[2u8]), Err(WireError::UnknownVariant(2))));
    assert!(matches!(from_wire::<ValveState>(&[0x85, 0x01]), Err(WireError::UnknownVariant(133))));
    assert!(matches!(from_wire::<ChannelType>(&[5u8, 9u8]), Ok(ChannelType::DifferentialSignal)));
}

#[test]
fn composite_state_wire_form() {
    let s = CompositeValveState { commanded: ValveState::Open, actual: ValveState::Fault };
    let b = s.to_wire();
    assert_eq!(b, vec![2u8, 4u8]);
    assert!(b.len() <= COMPOSITE_VALVE_STATE_WIRE_MAX_SIZE);
    assert_eq!(CompositeValveState::from_wire(&b).ok(), Some(s));
    assert!(matches!(CompositeValveState::from_wire(&[2u8]), Err(WireError::Postcard(_))));
    assert!(matches!(CompositeValveState::from_wire(&[2u8, 9u8]), Err(WireError::UnknownVariant(9))));
}
