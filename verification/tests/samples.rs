use akumuli_rs::sample::{
    default_sample, Payload, Sample, DATA_OFFSET, FLOAT_BIT, PADDING, PARAMID_BIT, PARAMID_OFFSET,
    PAYLOAD_FLOAT, SAMPLE_SIZE, SIZE_OFFSET, TIMESTAMP_BIT, TIMESTAMP_OFFSET, TYPE_OFFSET,
    VALUE_OFFSET,
};

#[test]
fn scalar_tag_has_exactly_three_bits() {
    assert_eq!(PARAMID_BIT, 1);
    assert_eq!(TIMESTAMP_BIT, 2);
    assert_eq!(FLOAT_BIT, 16);
    assert_eq!(PAYLOAD_FLOAT, 0x13);
    assert_eq!(PAYLOAD_FLOAT.count_ones(), 3);
    assert_eq!(PAYLOAD_FLOAT & !(PARAMID_BIT | TIMESTAMP_BIT | FLOAT_BIT), 0);
}

#[test]
fn record_offsets() {
    assert_eq!(TIMESTAMP_OFFSET, 0);
    assert_eq!(PARAMID_OFFSET, 8);
    assert_eq!(VALUE_OFFSET, 16);
    assert_eq!(SIZE_OFFSET, 24);
    assert_eq!(TYPE_OFFSET, 26);
    assert_eq!(DATA_OFFSET, 28);
    assert_eq!(PADDING, 4);
    assert_eq!(SAMPLE_SIZE, 32);
}

#[test]
fn default_sample_is_zero_and_scalar() {
    let sample = default_sample();
    assert_eq!(sample.timestamp, 0);
    assert_eq!(sample.paramid, 0);
    assert_eq!(sample.payload.float64, 0.0f64.to_bits());
    assert_eq!(sample.payload.size, 32);
    assert_eq!(sample.payload.type_, PAYLOAD_FLOAT);
}

#[test]
fn float_sample_fields() {
    let sample = Sample::float(1_700_000_000, 1024, 21.5f64.to_bits());
    assert_eq!(
        sample,
        Sample {
            timestamp: 1_700_000_000,
            paramid: 1024,
            payload: Payload { float64: 0x4035_8000_0000_0000, size: 32, type_: 0x13 },
        }
    );
    assert_eq!(f64::from_bits(sample.payload.float64), 21.5);
}

#[test]
fn size_field_is_the_encoded_length() {
    let sample = Sample::float(7, 9, 1.1f64.to_bits());
    assert_eq!(sample.encode().len(), sample.payload.size as usize);
    assert_eq!(default_sample().encode().len(), default_sample().payload.size as usize);
}

#[test]
fn encode_lays_fields_out_little_endian() {
    let sample = Sample::float(0x0102_0304_0506_0708, 0x1112_1314_1516_1718, 0x2122_2324_2526_2728);
    let expected: [u8; 32] = [
        0x08, 0x07, 0x06, 0x05, 0x04, 0x03, 0x02, 0x01, // timestamp
        0x18, 0x17, 0x16, 0x15, 0x14, 0x13, 0x12, 0x11, // paramid
        0x28, 0x27, 0x26, 0x25, 0x24, 0x23, 0x22, 0x21, // value
        0x20, 0x00, // size
        0x13, 0x00, // type tag
        0x00, 0x00, 0x00, 0x00, // padding
    ];
    assert_eq!(sample.encode(), expected.to_vec());
}

#[test]
fn encode_of_the_default_sample() {
    let mut expected = vec![0u8; 32];
    expected[24] = 32;
    expected[26] = 0x13;
    assert_eq!(default_sample().encode(), expected);
}

#[test]
fn encode_of_a_float_value() {
    let bytes = Sample::float(1, 2, 21.5f64.to_bits()).encode();
    assert_eq!(&bytes[0..8], &1u64.to_le_bytes());
    assert_eq!(&bytes[8..16], &2u64.to_le_bytes());
    assert_eq!(&bytes[16..24], &21.5f64.to_le_bytes());
    assert_eq!(&bytes[24..26], &32u16.to_le_bytes());
    assert_eq!(&bytes[26..28], &0x13u16.to_le_bytes());
    assert_eq!(&bytes[28..32], &[0u8; 4]);
}

#[test]
fn decode_reads_every_field() {
    let mut bytes = vec![0u8; 32];
    bytes[0] = 0x2a;
    bytes[9] = 0x01;
    bytes[16..24].copy_from_slice(&(-0.5f64).to_le_bytes());
    bytes[24] = 0x30;
    bytes[27] = 0x01;
    let sample = Sample::decode(&bytes).unwrap();
    assert_eq!(sample.timestamp, 42);
    assert_eq!(sample.paramid, 256);
    assert_eq!(f64::from_bits(sample.payload.float64), -0.5);
    assert_eq!(sample.payload.size, 0x30);
    assert_eq!(sample.payload.type_, 0x0100);
}

#[test]
fn decode_ignores_the_padding() {
    let mut bytes = Sample::float(3, 4, 5).encode();
    bytes[28] = 0xff;
    bytes[31] = 0xee;
    assert_eq!(Sample::decode(&bytes), Some(Sample::float(3, 4, 5)));
}

#[test]
fn decode_wants_a_whole_record() {
    assert_eq!(Sample::decode(&[]), None);
    assert_eq!(Sample::decode(&[0u8; 31]), None);
    assert_eq!(Sample::decode(&[0u8; 33]), None);
    assert!(Sample::decode(&[0u8; 32]).is_some());
}

#[test]
fn decode_undoes_encode() {
    let samples = [
        default_sample(),
        Sample::float(u64::MAX, u64::MAX, u64::MAX),
        Sample::float(1_431_648_000, 77, 21.5f64.to_bits()),
        Sample {
            timestamp: 5,
            paramid: 6,
            payload: Payload { float64: 7, size: 0xabcd, type_: 0xfedc },
        },
    ];
    for sample in samples {
        assert_eq!(Sample::decode(&sample.encode()), Some(sample));
    }
}

#[test]
fn encode_undoes_decode_on_zero_padding() {
    let mut bytes: Vec<u8> = (1u8..=32).collect();
    for b in &mut bytes[28..] {
        *b = 0;
    }
    assert_eq!(Sample::decode(&bytes).unwrap().encode(), bytes);
}
