use vstd::prelude::*;

verus! {

/// Why a TLV decode failed.  A malformed record covers a truncated
/// buffer as well as a known tag whose length field does not match.
#[derive(Clone, Copy, PartialEq, Eq, Structural, Debug)]
pub enum TlvError {
    MalformedRecord,
    UnknownTag,
    MissingTimestamp,
    MissingMeasurement,
}

/// One sensor reading.  The battery level is a percentage; the four
/// analog channels are carried as raw IEEE-754 single-precision bit
/// patterns, so that encoding and decoding are bit-exact and the codec
/// itself stays free of floating point.
#[derive(Clone, Copy, PartialEq, Eq, Structural, Debug)]
pub struct Measurement {
    pub battery: u8,
    pub lux: u32,
    pub temperature: u32,
    pub humidity: u32,
    pub soil_pf: u32,
}

/// Canonical length of one encoded measurement: five records of
/// tag, length and value.
pub const MEASUREMENT_TLV_LEN: usize = 27;

pub const TAG_BATTERY: u8 = 1;

pub const TAG_LUX: u8 = 2;

pub const TAG_TEMPERATURE: u8 = 3;

pub const TAG_HUMIDITY: u8 = 4;

pub const TAG_SOIL_PF: u8 = 5;

/// The 32-bit value read little-endian from four bytes.
pub open spec fn spec_le32(b0: u8, b1: u8, b2: u8, b3: u8) -> u32 {
    (b0 + 256 * b1 + 65536 * b2 + 16777216 * b3) as u32
}

/// Rebuilding a 32-bit value from its four little-endian bytes gives
/// the value back.
pub proof fn lemma_le32_roundtrip(x: u32)
    ensures
        spec_le32(
            (x % 256) as u8,
            ((x / 256) % 256) as u8,
            ((x / 65536) % 256) as u8,
            ((x / 16777216) % 256) as u8,
        ) == x,
{
    assert(x % 256 + 256 * ((x / 256) % 256) + 65536 * ((x / 65536) % 256) + 16777216 * ((x
        / 16777216) % 256) == x) by (bit_vector);
}

/// The 27 wire bytes of a measurement: the five records in ascending
/// tag order, each value little-endian, all emitted unconditionally.
pub open spec fn spec_measurement_tlv(m: Measurement) -> Seq<u8> {
    seq![
        TAG_BATTERY,
        1u8,
        m.battery,
        TAG_LUX,
        4u8,
        (m.lux % 256) as u8,
        ((m.lux / 256) % 256) as u8,
        ((m.lux / 65536) % 256) as u8,
        ((m.lux / 16777216) % 256) as u8,
        TAG_TEMPERATURE,
        4u8,
        (m.temperature % 256) as u8,
        ((m.temperature / 256) % 256) as u8,
        ((m.temperature / 65536) % 256) as u8,
        ((m.temperature / 16777216) % 256) as u8,
        TAG_HUMIDITY,
        4u8,
        (m.humidity % 256) as u8,
        ((m.humidity / 256) % 256) as u8,
        ((m.humidity / 65536) % 256) as u8,
        ((m.humidity / 16777216) % 256) as u8,
        TAG_SOIL_PF,
        4u8,
        (m.soil_pf % 256) as u8,
        ((m.soil_pf / 256) % 256) as u8,
        ((m.soil_pf / 65536) % 256) as u8,
        ((m.soil_pf / 16777216) % 256) as u8,
    ]
}

/// A measurement with every field zero, the starting point of the
/// lenient decode: a field whose record is absent stays zero.
pub open spec fn spec_zero_measurement() -> Measurement {
    Measurement { battery: 0, lux: 0, temperature: 0, humidity: 0, soil_pf: 0 }
}

/// Reads the records of `data` from offset `i` on into `acc`.  Records
/// may come in any order; an unknown tag is skipped; a known tag with
/// the wrong length, or a record that runs past the buffer, is a
/// malformed record.
pub open spec fn spec_decode_measurement_records(data: Seq<u8>, i: int, acc: Measurement) -> Result<
    Measurement,
    TlvError,
>
    decreases data.len() - i,
{
    if i >= data.len() {
        Ok(acc)
    } else if i + 2 > data.len() {
        Err(TlvError::MalformedRecord)
    } else {
        let tag = data[i];
        let len = data[i + 1] as int;
        if i + 2 + len > data.len() {
            Err(TlvError::MalformedRecord)
        } else if tag == TAG_BATTERY {
            if len != 1 {
                Err(TlvError::MalformedRecord)
            } else {
                spec_decode_measurement_records(
                    data,
                    i + 3,
                    Measurement { battery: data[i + 2], ..acc },
                )
            }
        } else if tag == TAG_LUX {
            if len != 4 {
                Err(TlvError::MalformedRecord)
            } else {
                spec_decode_measurement_records(
                    data,
                    i + 6,
                    Measurement {
                        lux: spec_le32(data[i + 2], data[i + 3], data[i + 4], data[i + 5]),
                        ..acc
                    },
                )
            }
        } else if tag == TAG_TEMPERATURE {
            if len != 4 {
                Err(TlvError::MalformedRecord)
            } else {
                spec_decode_measurement_records(
                    data,
                    i + 6,
                    Measurement {
                        temperature: spec_le32(data[i + 2], data[i + 3], data[i + 4], data[i + 5]),
                        ..acc
                    },
                )
            }
        } else if tag == TAG_HUMIDITY {
            if len != 4 {
                Err(TlvError::MalformedRecord)
            } else {
                spec_decode_measurement_records(
                    data,
                    i + 6,
                    Measurement {
                        humidity: spec_le32(data[i + 2], data[i + 3], data[i + 4], data[i + 5]),
                        ..acc
                    },
                )
            }
        } else if tag == TAG_SOIL_PF {
            if len != 4 {
                Err(TlvError::MalformedRecord)
            } else {
                spec_decode_measurement_records(
                    data,
                    i + 6,
                    Measurement {
                        soil_pf: spec_le32(data[i + 2], data[i + 3], data[i + 4], data[i + 5]),
                        ..acc
                    },
                )
            }
        } else {
            spec_decode_measurement_records(data, i + 2 + len, acc)
        }
    }
}

/// What decoding a measurement buffer yields: lenient over record
/// order and unknown tags, strict about lengths and truncation,
/// missing fields left at zero.
pub open spec fn spec_decode_measurement(data: Seq<u8>) -> Result<Measurement, TlvError> {
    spec_decode_measurement_records(data, 0, spec_zero_measurement())
}

impl Measurement {
    /// Encodes the measurement into its 27 canonical wire bytes.
    pub fn to_tlv(&self) -> (r: [u8; 27])
        ensures
            r@ == spec_measurement_tlv(*self),
    {
        let r: [u8; 27] = [
            TAG_BATTERY,
            1u8,
            self.battery,
            TAG_LUX,
            4u8,
            (self.lux % 256) as u8,
            ((self.lux / 256) % 256) as u8,
            ((self.lux / 65536) % 256) as u8,
            ((self.lux / 16777216) % 256) as u8,
            TAG_TEMPERATURE,
            4u8,
            (self.temperature % 256) as u8,
            ((self.temperature / 256) % 256) as u8,
            ((self.temperature / 65536) % 256) as u8,
            ((self.temperature / 16777216) % 256) as u8,
            TAG_HUMIDITY,
            4u8,
            (self.humidity % 256) as u8,
            ((self.humidity / 256) % 256) as u8,
            ((self.humidity / 65536) % 256) as u8,
            ((self.humidity / 16777216) % 256) as u8,
            TAG_SOIL_PF,
            4u8,
            (self.soil_pf % 256) as u8,
            ((self.soil_pf / 256) % 256) as u8,
            ((self.soil_pf / 65536) % 256) as u8,
            ((self.soil_pf / 16777216) % 256) as u8,
        ];
        proof {
            assert(r@ =~= spec_measurement_tlv(*self));
        }
        r
    }

    /// Decodes a measurement from TLV bytes, accepting records in any
    /// order, skipping unknown tags and leaving absent fields zero.
    pub fn from_tlv(data: &[u8]) -> (r: Result<Self, TlvError>)
        ensures
            r == spec_decode_measurement(data@),
    {
        let mut m = Measurement { battery: 0, lux: 0, temperature: 0, humidity: 0, soil_pf: 0 };
        let mut i: usize = 0;
        while i < data.len()
            invariant
                i <= data@.len(),
                spec_decode_measurement(data@) == spec_decode_measurement_records(
                    data@,
                    i as int,
                    m,
                ),
            decreases data@.len() - i,
        {
            if data.len() - i < 2 {
                return Err(TlvError::MalformedRecord);
            }
            let tag = data[i];
            let len = data[i + 1] as usize;
            if data.len() - (i + 2) < len {
                return Err(TlvError::MalformedRecord);
            }
            if tag == TAG_BATTERY {
                if len != 1 {
                    return Err(TlvError::MalformedRecord);
                }
                m.battery = data[i + 2];
            } else if tag == TAG_LUX {
                if len != 4 {
                    return Err(TlvError::MalformedRecord);
                }
                m.lux = read_le32(data, i + 2);
            } else if tag == TAG_TEMPERATURE {
                if len != 4 {
                    return Err(TlvError::MalformedRecord);
                }
                m.temperature = read_le32(data, i + 2);
            } else if tag == TAG_HUMIDITY {
                if len != 4 {
                    return Err(TlvError::MalformedRecord);
                }
                m.humidity = read_le32(data, i + 2);
            } else if tag == TAG_SOIL_PF {
                if len != 4 {
                    return Err(TlvError::MalformedRecord);
                }
                m.soil_pf = read_le32(data, i + 2);
            }
            i = i + 2 + len;
        }
        Ok(m)
    }
}

/// Reads a little-endian 32-bit value at offset `i`.
pub fn read_le32(data: &[u8], i: usize) -> (r: u32)
    requires
        i + 4 <= data@.len(),
    ensures
        r == spec_le32(data@[i as int], data@[i + 1], data@[i + 2], data@[i + 3]),
{
    data[i] as u32 + 256 * data[i + 1] as u32 + 65536 * data[i + 2] as u32 + 16777216 * data[i
        + 3] as u32
}

/// Decoding a canonically encoded measurement gives the measurement
/// back, bit for bit, for every value of every field.
pub proof fn lemma_measurement_roundtrip(m: Measurement)
    ensures
        spec_decode_measurement(spec_measurement_tlv(m)) == Ok::<Measurement, TlvError>(m),
{
    let data = spec_measurement_tlv(m);
    lemma_le32_roundtrip(m.lux);
    lemma_le32_roundtrip(m.temperature);
    lemma_le32_roundtrip(m.humidity);
    lemma_le32_roundtrip(m.soil_pf);
    let m0 = spec_zero_measurement();
    let m1 = Measurement { battery: m.battery, ..m0 };
    let m2 = Measurement { lux: m.lux, ..m1 };
    let m3 = Measurement { temperature: m.temperature, ..m2 };
    let m4 = Measurement { humidity: m.humidity, ..m3 };
    let m5 = Measurement { soil_pf: m.soil_pf, ..m4 };
    assert(spec_decode_measurement_records(data, 0, m0) == spec_decode_measurement_records(
        data,
        3,
        m1,
    ));
    assert(spec_decode_measurement_records(data, 3, m1) == spec_decode_measurement_records(
        data,
        9,
        m2,
    ));
    assert(spec_decode_measurement_records(data, 9, m2) == spec_decode_measurement_records(
        data,
        15,
        m3,
    ));
    assert(spec_decode_measurement_records(data, 15, m3) == spec_decode_measurement_records(
        data,
        21,
        m4,
    ));
    assert(spec_decode_measurement_records(data, 21, m4) == spec_decode_measurement_records(
        data,
        27,
        m5,
    ));
    assert(m5 == m);
}

} // verus!
