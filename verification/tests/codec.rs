use gpio_recorder::{DecodeError, IntCodec, Level};

#[test]
fn encode_levels() {
    assert_eq!(Level::Low.encode(), 0);
    assert_eq!(Level::High.encode(), 1);
}

#[test]
fn decode_defined_codes() {
    assert_eq!(Level::decode(0), Ok(Level::Low));
    assert_eq!(Level::decode(1), Ok(Level::High));
}

#[test]
fn decode_round_trip() {
    for level in [Level::Low, Level::High] {
        assert_eq!(Level::decode(level.encode()), Ok(level));
    }
}

#[test]
fn decode_rejects_unknowns() {
    for value in [2u64, 3, 10, 255, u64::MAX] {
        assert_eq!(
            Level::decode(value),
            Err(DecodeError::UnknownValue { enum_name: "Level", value })
        );
    }
}
