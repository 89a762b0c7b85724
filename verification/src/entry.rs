use vstd::prelude::*;
use crate::measurement::{
    lemma_measurement_roundtrip, read_le32, spec_decode_measurement, spec_measurement_tlv,
    Measurement, TlvError, MEASUREMENT_TLV_LEN,
};

verus! {

/// One point of a measurement series: a Unix-second timestamp and the
/// reading taken then.
#[derive(Clone, Copy, PartialEq, Eq, Structural, Debug)]
pub struct MeasurementSerieEntry {
    pub timestamp: i64,
    pub measurement: Measurement,
}

/// Canonical length of one encoded entry, derived from its parts: the
/// timestamp record's tag, length and eight bytes, then the nested
/// measurement record's tag, length and payload.
pub const ENTRY_TLV_LEN: usize = 1 + 1 + 8 + 1 + 1 + MEASUREMENT_TLV_LEN;

pub const ENTRY_TAG_TIMESTAMP: u8 = 1;

pub const ENTRY_TAG_MEASUREMENT: u8 = 2;

/// The 64-bit value read little-endian from eight bytes.
pub open spec fn spec_le64(b0: u8, b1: u8, b2: u8, b3: u8, b4: u8, b5: u8, b6: u8, b7: u8) -> u64 {
    (b0 + 256 * b1 + 65536 * b2 + 16777216 * b3 + 4294967296 * b4 + 1099511627776 * b5
        + 281474976710656 * b6 + 72057594037927936 * b7) as u64
}

/// Rebuilding a 64-bit value from its eight little-endian bytes gives
/// the value back.
pub proof fn lemma_le64_roundtrip(x: u64)
    ensures
        spec_le64(
            (x % 256) as u8,
            ((x / 256) % 256) as u8,
            ((x / 65536) % 256) as u8,
            ((x / 16777216) % 256) as u8,
            ((x / 4294967296) % 256) as u8,
            ((x / 1099511627776) % 256) as u8,
            ((x / 281474976710656) % 256) as u8,
            ((x / 72057594037927936) % 256) as u8,
        ) == x,
{
    assert(x % 256 + 256 * ((x / 256) % 256) + 65536 * ((x / 65536) % 256) + 16777216 * ((x
        / 16777216) % 256) + 4294967296 * ((x / 4294967296) % 256) + 1099511627776 * ((x
        / 1099511627776) % 256) + 281474976710656 * ((x / 281474976710656) % 256)
        + 72057594037927936 * ((x / 72057594037927936) % 256) == x) by (bit_vector);
}

/// A signed timestamp survives the trip through its unsigned
/// two's-complement image.
pub proof fn lemma_timestamp_cast_roundtrip(ts: i64)
    ensures
        ((ts as u64) as i64) == ts,
{
    assert(((ts as u64) as i64) == ts) by (bit_vector);
}

/// The 39 wire bytes of an entry: the eight-byte little-endian signed
/// timestamp record, then the nested measurement record with its own
/// length prefix.
pub open spec fn spec_entry_tlv(e: MeasurementSerieEntry) -> Seq<u8> {
    let u = e.timestamp as u64;
    seq![
        ENTRY_TAG_TIMESTAMP,
        8u8,
        (u % 256) as u8,
        ((u / 256) % 256) as u8,
        ((u / 65536) % 256) as u8,
        ((u / 16777216) % 256) as u8,
        ((u / 4294967296) % 256) as u8,
        ((u / 1099511627776) % 256) as u8,
        ((u / 281474976710656) % 256) as u8,
        ((u / 72057594037927936) % 256) as u8,
        ENTRY_TAG_MEASUREMENT,
        27u8,
    ] + spec_measurement_tlv(e.measurement)
}

/// Reads the top-level records of an entry from offset `i` on.  The
/// decode is strict: an unknown top-level tag, a timestamp record of
/// the wrong length, an unparsable nested measurement or a missing
/// record all fail.
pub open spec fn spec_decode_entry_records(
    data: Seq<u8>,
    i: int,
    ts: Option<i64>,
    m: Option<Measurement>,
) -> Result<MeasurementSerieEntry, TlvError>
    decreases data.len() - i,
{
    if i >= data.len() {
        match ts {
            None => Err(TlvError::MissingTimestamp),
            Some(t) => match m {
                None => Err(TlvError::MissingMeasurement),
                Some(mm) => Ok(MeasurementSerieEntry { timestamp: t, measurement: mm }),
            },
        }
    } else if i + 2 > data.len() {
        Err(TlvError::MalformedRecord)
    } else {
        let tag = data[i];
        let len = data[i + 1] as int;
        if i + 2 + len > data.len() {
            Err(TlvError::MalformedRecord)
        } else if tag == ENTRY_TAG_TIMESTAMP {
            if len != 8 {
                Err(TlvError::MalformedRecord)
            } else {
                spec_decode_entry_records(
                    data,
                    i + 10,
                    Some(
                        spec_le64(
                            data[i + 2],
                            data[i + 3],
                            data[i + 4],
                            data[i + 5],
                            data[i + 6],
                            data[i + 7],
                            data[i + 8],
                            data[i + 9],
                        ) as i64,
                    ),
                    m,
                )
            }
        } else if tag == ENTRY_TAG_MEASUREMENT {
            match spec_decode_measurement(data.subrange(i + 2, i + 2 + len)) {
                Ok(mm) => spec_decode_entry_records(data, i + 2 + len, ts, Some(mm)),
                Err(e) => Err(e),
            }
        } else {
            Err(TlvError::UnknownTag)
        }
    }
}

/// What decoding an entry buffer yields.
pub open spec fn spec_decode_entry(data: Seq<u8>) -> Result<MeasurementSerieEntry, TlvError> {
    spec_decode_entry_records(data, 0, None, None)
}

impl MeasurementSerieEntry {
    /// Encodes the entry into its 39 canonical wire bytes.
    pub fn to_tlv(&self) -> (r: [u8; 39])
        ensures
            r@ == spec_entry_tlv(*self),
    {
        let u: u64 = #[verifier::truncate] (self.timestamp as u64);
        let mt = self.measurement.to_tlv();
        let r: [u8; 39] = [
            ENTRY_TAG_TIMESTAMP,
            8u8,
            (u % 256) as u8,
            ((u / 256) % 256) as u8,
            ((u / 65536) % 256) as u8,
            ((u / 16777216) % 256) as u8,
            ((u / 4294967296) % 256) as u8,
            ((u / 1099511627776) % 256) as u8,
            ((u / 281474976710656) % 256) as u8,
            ((u / 72057594037927936) % 256) as u8,
            ENTRY_TAG_MEASUREMENT,
            27u8,
            mt[0],
            mt[1],
            mt[2],
            mt[3],
            mt[4],
            mt[5],
            mt[6],
            mt[7],
            mt[8],
            mt[9],
            mt[10],
            mt[11],
            mt[12],
            mt[13],
            mt[14],
            mt[15],
            mt[16],
            mt[17],
            mt[18],
            mt[19],
            mt[20],
            mt[21],
            mt[22],
            mt[23],
            mt[24],
            mt[25],
            mt[26],
        ];
        proof {
            assert(r@ =~= spec_entry_tlv(*self));
        }
        r
    }

    /// Decodes an entry from TLV bytes.  Strict by design, in contrast
    /// to the lenient measurement decode: both records must be present,
    /// the timestamp must be eight bytes, the nested payload must
    /// parse, and no foreign top-level tag is tolerated.
    pub fn from_tlv(data: &[u8]) -> (r: Result<Self, TlvError>)
        ensures
            r == spec_decode_entry(data@),
    {
        let mut ts: Option<i64> = None;
        let mut m: Option<Measurement> = None;
        let mut i: usize = 0;
        while i < data.len()
            invariant
                i <= data@.len(),
                spec_decode_entry(data@) == spec_decode_entry_records(data@, i as int, ts, m),
            decreases data@.len() - i,
        {
            if data.len() - i < 2 {
                return Err(TlvError::MalformedRecord);
            }
            let tag = data[i];
            let len = data[i + 1] as usize;
            if data.len() - (i + 2) < len {
                return Err(TlvError::MalformedRecord);
            }
            if tag == ENTRY_TAG_TIMESTAMP {
                if len != 8 {
                    return Err(TlvError::MalformedRecord);
                }
                let lo = read_le32(data, i + 2);
                let hi = read_le32(data, i + 6);
                let u: u64 = lo as u64 + 4294967296 * hi as u64;
                let t: i64 = #[verifier::truncate] (u as i64);
                proof {
                    let d = data@;
                    let ii = i as int;
                    assert(lo as u64 + 4294967296 * (hi as u64) == spec_le64(
                        d[ii + 2],
                        d[ii + 3],
                        d[ii + 4],
                        d[ii + 5],
                        d[ii + 6],
                        d[ii + 7],
                        d[ii + 8],
                        d[ii + 9],
                    ));
                }
                ts = Some(t);
            } else if tag == ENTRY_TAG_MEASUREMENT {
                let payload = vstd::slice::slice_subrange(data, i + 2, i + 2 + len);
                match Measurement::from_tlv(payload) {
                    Ok(mm) => {
                        m = Some(mm);
                    },
                    Err(e) => {
                        return Err(e);
                    },
                }
            } else {
                return Err(TlvError::UnknownTag);
            }
            i = i + 2 + len;
        }
        match ts {
            None => Err(TlvError::MissingTimestamp),
            Some(t) => match m {
                None => Err(TlvError::MissingMeasurement),
                Some(mm) => Ok(MeasurementSerieEntry { timestamp: t, measurement: mm }),
            },
        }
    }
}

/// Decoding a canonically encoded entry gives the entry back, for
/// every timestamp and every measurement bit pattern.
pub proof fn lemma_entry_roundtrip(e: MeasurementSerieEntry)
    ensures
        spec_decode_entry(spec_entry_tlv(e)) == Ok::<MeasurementSerieEntry, TlvError>(e),
{
    let data = spec_entry_tlv(e);
    let u = e.timestamp as u64;
    lemma_le64_roundtrip(u);
    lemma_timestamp_cast_roundtrip(e.timestamp);
    lemma_measurement_roundtrip(e.measurement);
    assert(data.subrange(12, 39) =~= spec_measurement_tlv(e.measurement));
    assert(spec_decode_entry_records(data, 0, None, None) == spec_decode_entry_records(
        data,
        10,
        Some(e.timestamp),
        None,
    ));
    assert(spec_decode_entry_records(data, 10, Some(e.timestamp), None)
        == spec_decode_entry_records(data, 39, Some(e.timestamp), Some(e.measurement)));
}

} // verus!
