//! The sample record: one timestamped scalar measurement in the fixed layout
//! that the engine reads and writes.
//!
//! A record is 32 bytes, every field little-endian:
//!
//! | bytes    | field                                   |
//! |----------|-----------------------------------------|
//! | 0 .. 8   | timestamp                               |
//! | 8 .. 16  | parameter identifier                    |
//! | 16 .. 24 | value, the bits of a 64-bit float       |
//! | 24 .. 26 | size of the whole record                |
//! | 26 .. 28 | type tag                                |
//! | 28 .. 32 | padding up to the record's alignment    |
//!
//! The variable-length data that the engine allows after the type tag is
//! empty in a scalar record.

use vstd::bytes::{
    lemma_auto_spec_u16_to_from_le_bytes, lemma_auto_spec_u64_to_from_le_bytes,
    spec_u16_from_le_bytes, spec_u16_to_le_bytes, spec_u64_from_le_bytes, spec_u64_to_le_bytes,
    u16_from_le_bytes, u16_to_le_bytes, u64_from_le_bytes, u64_to_le_bytes,
};
use vstd::prelude::*;
use vstd::slice::slice_subrange;

verus! {

/// Tag bit: the record names a parameter identifier.
pub const PARAMID_BIT: u16 = 0x01;

/// Tag bit: the record carries a timestamp.
pub const TIMESTAMP_BIT: u16 = 0x02;

/// Tag bit: the record carries a floating-point value.
pub const FLOAT_BIT: u16 = 0x10;

/// Type tag of a scalar record: identifier, timestamp and value, nothing
/// else.
pub const PAYLOAD_FLOAT: u16 = PARAMID_BIT | TIMESTAMP_BIT | FLOAT_BIT;

/// Offset of the timestamp in a record.
pub const TIMESTAMP_OFFSET: usize = 0;

/// Offset of the parameter identifier in a record.
pub const PARAMID_OFFSET: usize = 8;

/// Offset of the value in a record.
pub const VALUE_OFFSET: usize = 16;

/// Offset of the size field in a record.
pub const SIZE_OFFSET: usize = 24;

/// Offset of the type tag in a record.
pub const TYPE_OFFSET: usize = 26;

/// Offset at which the fields of a record end and its padding begins.
pub const DATA_OFFSET: usize = 28;

/// Bytes of padding that bring a scalar record up to its alignment.
pub const PADDING: usize = 4;

/// Size of a scalar record in bytes.
pub const SAMPLE_SIZE: usize = DATA_OFFSET + PADDING;

/// The payload of a record: the value and what describes it.
#[derive(Clone, Copy, Debug, PartialEq, Eq, Structural)]
pub struct Payload {
    /// The bits of the value, a 64-bit float.
    pub float64: u64,
    /// Size of the whole record in bytes.
    pub size: u16,
    /// Which fields of the record hold something.
    pub type_: u16,
}

/// One record as the engine sees it.
#[derive(Clone, Copy, Debug, PartialEq, Eq, Structural)]
pub struct Sample {
    pub timestamp: u64,
    pub paramid: u64,
    pub payload: Payload,
}

/// Whether a type tag has all the bits of `mask`.
pub open spec fn tag_has(tag: u16, mask: u16) -> bool {
    tag & mask == mask
}

/// The scalar tag has the three bits of a scalar record and no other.
pub proof fn lemma_payload_float_bits()
    ensures
        PAYLOAD_FLOAT == 0x13,
        tag_has(PAYLOAD_FLOAT, PARAMID_BIT),
        tag_has(PAYLOAD_FLOAT, TIMESTAMP_BIT),
        tag_has(PAYLOAD_FLOAT, FLOAT_BIT),
        PAYLOAD_FLOAT & !(PARAMID_BIT | TIMESTAMP_BIT | FLOAT_BIT) == 0,
{
    assert(0x01u16 | 0x02u16 | 0x10u16 == 0x13u16) by (bit_vector);
    assert(0x13u16 & 0x01u16 == 0x01u16) by (bit_vector);
    assert(0x13u16 & 0x02u16 == 0x02u16) by (bit_vector);
    assert(0x13u16 & 0x10u16 == 0x10u16) by (bit_vector);
    assert(0x13u16 & !(0x01u16 | 0x02u16 | 0x10u16) == 0) by (bit_vector);
}

impl Sample {
    /// The scalar record of a value measured at `timestamp` for the series
    /// `paramid`.
    pub open spec fn scalar(timestamp: u64, paramid: u64, value_bits: u64) -> Sample {
        Sample {
            timestamp,
            paramid,
            payload: Payload {
                float64: value_bits,
                size: SAMPLE_SIZE as u16,
                type_: PAYLOAD_FLOAT,
            },
        }
    }

    /// Whether the record is a scalar one: tagged with exactly identifier,
    /// timestamp and value, and as large as its size field says.
    pub open spec fn is_scalar(&self) -> bool {
        &&& self.payload.type_ == PAYLOAD_FLOAT
        &&& self.payload.size == self.layout().len()
    }

    /// The bytes of the record.
    pub open spec fn layout(&self) -> Seq<u8> {
        spec_u64_to_le_bytes(self.timestamp) + spec_u64_to_le_bytes(self.paramid)
            + spec_u64_to_le_bytes(self.payload.float64) + spec_u16_to_le_bytes(self.payload.size)
            + spec_u16_to_le_bytes(self.payload.type_) + Seq::new(PADDING as nat, |i: int| 0u8)
    }

    /// The record that `bytes` hold.
    pub open spec fn parse(bytes: Seq<u8>) -> Sample
        recommends
            bytes.len() == SAMPLE_SIZE,
    {
        Sample {
            timestamp: spec_u64_from_le_bytes(
                bytes.subrange(TIMESTAMP_OFFSET as int, PARAMID_OFFSET as int),
            ),
            paramid: spec_u64_from_le_bytes(
                bytes.subrange(PARAMID_OFFSET as int, VALUE_OFFSET as int),
            ),
            payload: Payload {
                float64: spec_u64_from_le_bytes(
                    bytes.subrange(VALUE_OFFSET as int, SIZE_OFFSET as int),
                ),
                size: spec_u16_from_le_bytes(
                    bytes.subrange(SIZE_OFFSET as int, TYPE_OFFSET as int),
                ),
                type_: spec_u16_from_le_bytes(
                    bytes.subrange(TYPE_OFFSET as int, DATA_OFFSET as int),
                ),
            },
        }
    }

    /// Builds the scalar record of a value, given as the bits of a 64-bit
    /// float, measured at `timestamp` for the series `paramid`.
    pub fn float(timestamp: u64, paramid: u64, value_bits: u64) -> (sample: Sample)
        ensures
            sample == Sample::scalar(timestamp, paramid, value_bits),
            sample.is_scalar(),
    {
        proof {
            lemma_layout_len(Sample::scalar(timestamp, paramid, value_bits));
        }
        Sample {
            timestamp,
            paramid,
            payload: Payload { float64: value_bits, size: SAMPLE_SIZE as u16, type_: PAYLOAD_FLOAT },
        }
    }

    /// Writes the record out in the engine's layout.
    pub fn encode(&self) -> (bytes: Vec<u8>)
        ensures
            bytes@ == self.layout(),
            bytes@.len() == SAMPLE_SIZE,
    {
        proof {
            lemma_layout_len(*self);
        }
        let mut bytes = u64_to_le_bytes(self.timestamp);
        let mut paramid = u64_to_le_bytes(self.paramid);
        let mut value = u64_to_le_bytes(self.payload.float64);
        let mut size = u16_to_le_bytes(self.payload.size);
        let mut type_ = u16_to_le_bytes(self.payload.type_);
        bytes.append(&mut paramid);
        bytes.append(&mut value);
        bytes.append(&mut size);
        bytes.append(&mut type_);
        let mut i: usize = 0;
        while i < PADDING
            invariant
                i <= PADDING,
                bytes@ == spec_u64_to_le_bytes(self.timestamp) + spec_u64_to_le_bytes(
                    self.paramid,
                ) + spec_u64_to_le_bytes(self.payload.float64) + spec_u16_to_le_bytes(
                    self.payload.size,
                ) + spec_u16_to_le_bytes(self.payload.type_) + Seq::new(i as nat, |j: int| 0u8),
            decreases PADDING - i,
        {
            bytes.push(0u8);
            i += 1;
        }
        bytes
    }

    /// Reads a record back from the engine's layout. There is a record in
    /// `bytes` exactly when they are as many as a scalar record has; what the
    /// size field and the type tag hold is handed on as it is.
    pub fn decode(bytes: &[u8]) -> (sample: Option<Sample>)
        ensures
            sample is Some <==> bytes@.len() == SAMPLE_SIZE,
            sample matches Some(s) ==> s == Sample::parse(bytes@),
    {
        if bytes.len() != SAMPLE_SIZE {
            return None;
        }
        let timestamp = u64_from_le_bytes(slice_subrange(bytes, TIMESTAMP_OFFSET, PARAMID_OFFSET));
        let paramid = u64_from_le_bytes(slice_subrange(bytes, PARAMID_OFFSET, VALUE_OFFSET));
        let float64 = u64_from_le_bytes(slice_subrange(bytes, VALUE_OFFSET, SIZE_OFFSET));
        let size = u16_from_le_bytes(slice_subrange(bytes, SIZE_OFFSET, TYPE_OFFSET));
        let type_ = u16_from_le_bytes(slice_subrange(bytes, TYPE_OFFSET, DATA_OFFSET));
        Some(Sample { timestamp, paramid, payload: Payload { float64, size, type_ } })
    }
}

/// The record that a request starts from: every field zero, tagged and sized
/// as a scalar record.
pub fn default_sample() -> (sample: Sample)
    ensures
        sample == Sample::scalar(0, 0, 0),
        sample.is_scalar(),
{
    Sample::float(0, 0, 0)
}

/// Every record is laid out in as many bytes as a scalar record has.
pub proof fn lemma_layout_len(sample: Sample)
    ensures
        sample.layout().len() == SAMPLE_SIZE,
{
    lemma_auto_spec_u64_to_from_le_bytes();
    lemma_auto_spec_u16_to_from_le_bytes();
}

/// Reading back what was written gives the record that was written.
pub proof fn lemma_parse_layout(sample: Sample)
    ensures
        Sample::parse(sample.layout()) == sample,
{
    lemma_auto_spec_u64_to_from_le_bytes();
    lemma_auto_spec_u16_to_from_le_bytes();
    let bytes = sample.layout();
    assert(bytes.subrange(TIMESTAMP_OFFSET as int, PARAMID_OFFSET as int) == spec_u64_to_le_bytes(
        sample.timestamp,
    ));
    assert(bytes.subrange(PARAMID_OFFSET as int, VALUE_OFFSET as int) == spec_u64_to_le_bytes(
        sample.paramid,
    ));
    assert(bytes.subrange(VALUE_OFFSET as int, SIZE_OFFSET as int) == spec_u64_to_le_bytes(
        sample.payload.float64,
    ));
    assert(bytes.subrange(SIZE_OFFSET as int, TYPE_OFFSET as int) == spec_u16_to_le_bytes(
        sample.payload.size,
    ));
    assert(bytes.subrange(TYPE_OFFSET as int, DATA_OFFSET as int) == spec_u16_to_le_bytes(
        sample.payload.type_,
    ));
}

/// Writing out what was read gives the bytes that were read, as long as
/// their padding is zero.
pub proof fn lemma_layout_parse(bytes: Seq<u8>)
    requires
        bytes.len() == SAMPLE_SIZE,
        forall|i: int| DATA_OFFSET <= i < SAMPLE_SIZE ==> bytes[i] == 0,
    ensures
        Sample::parse(bytes).layout() == bytes,
{
    lemma_auto_spec_u64_to_from_le_bytes();
    lemma_auto_spec_u16_to_from_le_bytes();
    let timestamp = bytes.subrange(TIMESTAMP_OFFSET as int, PARAMID_OFFSET as int);
    let paramid = bytes.subrange(PARAMID_OFFSET as int, VALUE_OFFSET as int);
    let value = bytes.subrange(VALUE_OFFSET as int, SIZE_OFFSET as int);
    let size = bytes.subrange(SIZE_OFFSET as int, TYPE_OFFSET as int);
    let type_ = bytes.subrange(TYPE_OFFSET as int, DATA_OFFSET as int);
    assert(spec_u64_to_le_bytes(spec_u64_from_le_bytes(timestamp)) == timestamp);
    assert(spec_u64_to_le_bytes(spec_u64_from_le_bytes(paramid)) == paramid);
    assert(spec_u64_to_le_bytes(spec_u64_from_le_bytes(value)) == value);
    assert(spec_u16_to_le_bytes(spec_u16_from_le_bytes(size)) == size);
    assert(spec_u16_to_le_bytes(spec_u16_from_le_bytes(type_)) == type_);
    assert(Sample::parse(bytes).layout() =~= bytes);
}

} // verus!
