use fems_exporter::catalog::ModbusType;
use fems_exporter::decode::{decode, decode_f32, decode_f64, decode_u16, Value};

fn words_of_f32(value: f32) -> Vec<u16> {
    let b = value.to_be_bytes();
    vec![u16::from_be_bytes([b[0], b[1]]), u16::from_be_bytes([b[2], b[3]])]
}

fn words_of_f64(value: f64) -> Vec<u16> {
    let b = value.to_be_bytes();
    vec![
        u16::from_be_bytes([b[0], b[1]]),
        u16::from_be_bytes([b[2], b[3]]),
        u16::from_be_bytes([b[4], b[5]]),
        u16::from_be_bytes([b[6], b[7]]),
    ]
}

#[test]
fn register_count_is_one_two_four() {
    assert_eq!(ModbusType::U16.register_count(), 1);
    assert_eq!(ModbusType::F32.register_count(), 2);
    assert_eq!(ModbusType::F64.register_count(), 4);
}

#[test]
fn u16_is_returned_verbatim() {
    assert_eq!(decode_u16(&[0x0003]), 3);
    assert_eq!(decode_u16(&[0]), 0);
    assert_eq!(decode_u16(&[0xffff]), 65535);
    assert_eq!(decode_u16(&[0x8000]), 32768);
}

#[test]
fn f32_bits_are_big_endian() {
    assert_eq!(decode_f32(&[0x4120, 0x0000]), 0x4120_0000);
    assert_eq!(decode_f32(&[0x1234, 0xabcd]), 0x1234_abcd);
    assert_eq!(decode_f32(&[0xffff, 0xffff]), u32::MAX);
    assert_eq!(decode_f32(&[0, 1]), 1);
    assert_eq!(decode_f32(&[1, 0]), 65536);
}

#[test]
fn f64_bits_are_big_endian() {
    assert_eq!(decode_f64(&[0x0123, 0x4567, 0x89ab, 0xcdef]), 0x0123_4567_89ab_cdef);
    assert_eq!(decode_f64(&[0xffff, 0xffff, 0xffff, 0xffff]), u64::MAX);
    assert_eq!(decode_f64(&[0, 0, 0, 1]), 1);
    assert_eq!(decode_f64(&[1, 0, 0, 0]), 1 << 48);
}

#[test]
fn f32_ten_decodes_from_its_words() {
    let bits = decode_f32(&[0x4120, 0x0000]);
    assert_eq!(f32::from_bits(bits), 10.0);
    assert_eq!(f32::from_bits(bits).to_string(), "10");
}

#[test]
fn f32_round_trip() {
    for value in [0.0f32, -0.0, 1.5, -230.25, 10.0, f32::MAX, f32::MIN_POSITIVE, f32::INFINITY] {
        let bits = decode_f32(&words_of_f32(value));
        assert_eq!(bits, value.to_bits());
        assert_eq!(f32::from_bits(bits).to_bits(), value.to_bits());
    }
    let nan = decode_f32(&words_of_f32(f32::NAN));
    assert!(f32::from_bits(nan).is_nan());
}

#[test]
fn f64_round_trip() {
    for value in [0.0f64, -0.0, 1.5, 123456.789, -1e300, f64::MAX, f64::MIN_POSITIVE] {
        let bits = decode_f64(&words_of_f64(value));
        assert_eq!(bits, value.to_bits());
        assert_eq!(f64::from_bits(bits), value);
    }
}

#[test]
fn decode_dispatches_on_the_type() {
    assert_eq!(decode(ModbusType::U16, &[7]), Value::U16(7));
    assert_eq!(decode(ModbusType::F32, &[0x4120, 0]), Value::F32(0x4120_0000));
    assert_eq!(
        decode(ModbusType::F64, &[0x4024, 0, 0, 0]),
        Value::F64(10.0f64.to_bits())
    );
}
