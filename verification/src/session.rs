use vstd::prelude::*;
use crate::entry::{spec_decode_entry, spec_entry_tlv, MeasurementSerieEntry, ENTRY_TLV_LEN};
use crate::measurement::TlvError;
use crate::time::{
    spec_current_time_bytes, spec_day_limit, spec_decode_current_time, spec_unix_seconds,
    spec_valid_date, spec_weekday_from_days, CurrentTime,
};

verus! {

pub const ADDRESS_SERVICE_UUID_16: u16 = 0xFFF5;

pub const ADDRESS_CHARACTERISTIC_UUID_16: u16 = 0xFFF7;

pub const MEASUREMENT_SERVICE_UUID_16: u16 = 0xFFF6;

pub const MEASUREMENT_CHARACTERISTIC_UUID_16: u16 = 0xFFF8;

pub const CURRENT_TIME_SERVICE_UUID: u16 = 0x1805;

pub const CURRENT_TIME_CHARACTERISTIC_UUID: u16 = 0x2a2b;

/// Entries one measurement-batch blob can carry.
pub const BATCH_MAX_ENTRIES: usize = 6;

/// Size of the fixed measurement-batch blob, derived from the entry
/// size rather than written out, so a grown measurement record can
/// never be truncated by a stale segment width.
pub const BATCH_LEN: usize = BATCH_MAX_ENTRIES * ENTRY_TLV_LEN;

/// Why a session step was abandoned.  Each aborts the session with the
/// one peer; the node's buffer is never touched by a failed session.
#[derive(Clone, Copy, PartialEq, Eq, Structural, Debug)]
pub enum SessionError {
    /// The address attribute was not exactly six bytes.
    BadAddress,
    /// The current-time attribute was short, named no real instant, or
    /// put the drift out of range.
    BadTime,
    /// The client's own clock cannot be carried by the wire format.
    ClockOutOfRange,
    /// The measurement attribute was not the fixed blob size.
    BadBatch,
    /// A written current-time value was refused by the node.
    WriteRejected,
}

/// A segment of zeros: the state of a blob slot no entry was placed
/// in.
pub open spec fn spec_zero_segment() -> Seq<u8> {
    Seq::new(ENTRY_TLV_LEN as nat, |k: int| 0u8)
}

/// The blob bytes from segment `i` on: an encoded entry per slot that
/// has one, zero padding in the slots after.
pub open spec fn spec_batch_blob_from(entries: Seq<MeasurementSerieEntry>, i: int) -> Seq<u8>
    decreases BATCH_MAX_ENTRIES - i,
{
    if i < 0 || i >= BATCH_MAX_ENTRIES {
        Seq::empty()
    } else {
        (if i < entries.len() {
            spec_entry_tlv(entries[i])
        } else {
            spec_zero_segment()
        }) + spec_batch_blob_from(entries, i + 1)
    }
}

/// The whole fixed-size blob for a batch of entries.
pub open spec fn spec_batch_blob(entries: Seq<MeasurementSerieEntry>) -> Seq<u8> {
    spec_batch_blob_from(entries, 0)
}

/// The blob always has the fixed size, however many entries fill it.
pub proof fn lemma_batch_blob_len(entries: Seq<MeasurementSerieEntry>, i: int)
    requires
        0 <= i <= BATCH_MAX_ENTRIES,
        entries.len() <= BATCH_MAX_ENTRIES,
    ensures
        spec_batch_blob_from(entries, i).len() == (BATCH_MAX_ENTRIES - i) * ENTRY_TLV_LEN,
    decreases BATCH_MAX_ENTRIES - i,
{
    assert(ENTRY_TLV_LEN == 39);
    if i < BATCH_MAX_ENTRIES {
        lemma_batch_blob_len(entries, i + 1);
    }
}

/// Segment `j` of the blob is the encoding of entry `j`, or zeros for
/// an unfilled slot.
#[verifier::rlimit(100)]
pub proof fn lemma_batch_blob_segment(entries: Seq<MeasurementSerieEntry>, i: int, j: int)
    requires
        0 <= i <= j < BATCH_MAX_ENTRIES,
        entries.len() <= BATCH_MAX_ENTRIES,
    ensures
        spec_batch_blob_from(entries, i).subrange(
            ENTRY_TLV_LEN * (j - i),
            ENTRY_TLV_LEN * (j - i) + ENTRY_TLV_LEN,
        ) == if j < entries.len() {
            spec_entry_tlv(entries[j])
        } else {
            spec_zero_segment()
        },
    decreases BATCH_MAX_ENTRIES - i,
{
    assert(ENTRY_TLV_LEN == 39);
    lemma_batch_blob_len(entries, i + 1);
    let head: Seq<u8> = if i < entries.len() {
        spec_entry_tlv(entries[i])
    } else {
        spec_zero_segment()
    };
    let tail = spec_batch_blob_from(entries, i + 1);
    if j == i {
        assert((head + tail).subrange(0, ENTRY_TLV_LEN as int) =~= head);
    } else {
        lemma_batch_blob_segment(entries, i + 1, j);
        assert((head + tail).subrange(
            ENTRY_TLV_LEN * (j - i),
            ENTRY_TLV_LEN * (j - i) + ENTRY_TLV_LEN,
        ) =~= tail.subrange(
            ENTRY_TLV_LEN * (j - i - 1),
            ENTRY_TLV_LEN * (j - i - 1) + ENTRY_TLV_LEN,
        ));
    }
}

/// Packs up to six entries back to back into the fixed-size blob,
/// zero-filling the slots left over.
#[verifier::rlimit(100)]
pub fn encode_batch(entries: &Vec<MeasurementSerieEntry>) -> (r: Vec<u8>)
    requires
        entries@.len() <= BATCH_MAX_ENTRIES,
    ensures
        r@ == spec_batch_blob(entries@),
        r@.len() == BATCH_LEN,
{
    let mut r: Vec<u8> = Vec::new();
    let mut i: usize = 0;
    while i < BATCH_MAX_ENTRIES
        invariant
            0 <= i <= BATCH_MAX_ENTRIES,
            entries@.len() <= BATCH_MAX_ENTRIES,
            r@.len() == i * ENTRY_TLV_LEN,
            spec_batch_blob(entries@) == r@ + spec_batch_blob_from(entries@, i as int),
        decreases BATCH_MAX_ENTRIES - i,
    {
        let ghost r_before = r@;
        proof {
            assert(ENTRY_TLV_LEN == 39);
        }
        if i < entries.len() {
            let tlv = entries[i].to_tlv();
            proof {
                assert(r@ =~= r_before + tlv@.take(0));
            }
            let mut j: usize = 0;
            while j < ENTRY_TLV_LEN
                invariant
                    0 <= j <= ENTRY_TLV_LEN,
                    tlv@.len() == ENTRY_TLV_LEN,
                    r@ == r_before + tlv@.take(j as int),
                decreases ENTRY_TLV_LEN - j,
            {
                r.push(tlv[j]);
                proof {
                    assert(r@ =~= r_before + tlv@.take(j as int + 1));
                }
                j += 1;
            }
            proof {
                assert(tlv@.take(ENTRY_TLV_LEN as int) =~= tlv@);
            }
        } else {
            proof {
                assert(r@ =~= r_before + spec_zero_segment().take(0));
            }
            let mut j: usize = 0;
            while j < ENTRY_TLV_LEN
                invariant
                    0 <= j <= ENTRY_TLV_LEN,
                    r@ == r_before + spec_zero_segment().take(j as int),
                decreases ENTRY_TLV_LEN - j,
            {
                r.push(0);
                proof {
                    assert(r@ =~= r_before + spec_zero_segment().take(j as int + 1));
                }
                j += 1;
            }
            proof {
                assert(spec_zero_segment().take(ENTRY_TLV_LEN as int) =~= spec_zero_segment());
            }
        }
        proof {
            let head: Seq<u8> = if (i as int) < entries@.len() {
                spec_entry_tlv(entries@[i as int])
            } else {
                spec_zero_segment()
            };
            assert(r@ =~= r_before + head);
            assert(r_before + (head + spec_batch_blob_from(entries@, i as int + 1)) =~= (r_before
                + head) + spec_batch_blob_from(entries@, i as int + 1));
            assert(head.len() == ENTRY_TLV_LEN);
            assert(r@.len() == (i + 1) * ENTRY_TLV_LEN);
        }
        i += 1;
    }
    proof {
        assert(r@ + spec_batch_blob_from(entries@, BATCH_MAX_ENTRIES as int) =~= r@);
        lemma_batch_blob_len(entries@, 0);
    }
    r
}

/// The entries that survive decoding the blob from segment `i` on:
/// each segment is decoded on its own, and one that fails to parse is
/// dropped without touching its neighbours.
pub open spec fn spec_decoded_batch_from(data: Seq<u8>, i: int) -> Seq<MeasurementSerieEntry>
    decreases BATCH_MAX_ENTRIES - i,
{
    if i < 0 || i >= BATCH_MAX_ENTRIES {
        Seq::empty()
    } else {
        let rest = spec_decoded_batch_from(data, i + 1);
        match spec_decode_entry(
            data.subrange(ENTRY_TLV_LEN * i, ENTRY_TLV_LEN * i + ENTRY_TLV_LEN),
        ) {
            Ok(e) => seq![e] + rest,
            Err(_) => rest,
        }
    }
}

/// What decoding a whole blob yields.
pub open spec fn spec_decoded_batch(data: Seq<u8>) -> Seq<MeasurementSerieEntry> {
    spec_decoded_batch_from(data, 0)
}

/// Splits the fixed-size blob into its six segments and decodes each
/// independently, discarding any segment that fails to parse, so a
/// partially corrupt batch still yields its valid entries.
pub fn decode_batch(data: &[u8]) -> (r: Vec<MeasurementSerieEntry>)
    requires
        data@.len() == BATCH_LEN,
    ensures
        r@ == spec_decoded_batch(data@),
{
    let mut r: Vec<MeasurementSerieEntry> = Vec::new();
    let mut i: usize = 0;
    while i < BATCH_MAX_ENTRIES
        invariant
            0 <= i <= BATCH_MAX_ENTRIES,
            data@.len() == BATCH_LEN,
            spec_decoded_batch(data@) == r@ + spec_decoded_batch_from(data@, i as int),
        decreases BATCH_MAX_ENTRIES - i,
    {
        let ghost r_before = r@;
        proof {
            assert(ENTRY_TLV_LEN == 39);
            assert(BATCH_LEN == 234);
        }
        let segment = vstd::slice::slice_subrange(
            data,
            i * ENTRY_TLV_LEN,
            i * ENTRY_TLV_LEN + ENTRY_TLV_LEN,
        );
        match MeasurementSerieEntry::from_tlv(segment) {
            Ok(e) => {
                r.push(e);
                proof {
                    assert(r@ =~= r_before + seq![e]);
                    assert(r_before + (seq![e] + spec_decoded_batch_from(data@, i as int + 1))
                        =~= r@ + spec_decoded_batch_from(data@, i as int + 1));
                }
            },
            Err(_) => {},
        }
        i += 1;
    }
    proof {
        assert(r@ + spec_decoded_batch_from(data@, BATCH_MAX_ENTRIES as int) =~= r@);
    }
    r
}

/// A segment of zeros carries no entry: its first byte is no known
/// tag, so the strict entry decode refuses it.
pub proof fn lemma_zero_segment_decodes_to_nothing()
    ensures
        spec_decode_entry(spec_zero_segment()) == Err::<MeasurementSerieEntry, TlvError>(
            TlvError::UnknownTag,
        ),
{
    let z = spec_zero_segment();
    assert(z[0] == 0);
    assert(z[1] == 0);
}

/// Decoding a finalized blob from segment `i` on yields exactly the
/// entries placed there: the filled slots come back in order and the
/// zero padding contributes nothing.
proof fn lemma_batch_roundtrip_from(entries: Seq<MeasurementSerieEntry>, i: int)
    requires
        0 <= i <= BATCH_MAX_ENTRIES,
        entries.len() <= BATCH_MAX_ENTRIES,
    ensures
        spec_decoded_batch_from(spec_batch_blob(entries), i) == if i < entries.len() {
            entries.skip(i)
        } else {
            Seq::<MeasurementSerieEntry>::empty()
        },
    decreases BATCH_MAX_ENTRIES - i,
{
    let blob = spec_batch_blob(entries);
    if i < BATCH_MAX_ENTRIES {
        lemma_batch_roundtrip_from(entries, i + 1);
        assert(ENTRY_TLV_LEN == 39);
        lemma_batch_blob_segment(entries, 0, i);
        if i < entries.len() {
            crate::entry::lemma_entry_roundtrip(entries[i]);
            assert(seq![entries[i]] + spec_decoded_batch_from(blob, i + 1) =~= entries.skip(i));
        } else {
            lemma_zero_segment_decodes_to_nothing();
        }
    }
}

/// What goes in comes out: a blob finalized from up to six entries
/// decodes, on the hub side, to exactly those entries in order.
pub proof fn lemma_batch_roundtrip(entries: Seq<MeasurementSerieEntry>)
    requires
        entries.len() <= BATCH_MAX_ENTRIES,
    ensures
        spec_decoded_batch(spec_batch_blob(entries)) == entries,
{
    lemma_batch_roundtrip_from(entries, 0);
    if entries.len() > 0 {
        assert(entries.skip(0) =~= entries);
    } else {
        assert(entries =~= Seq::<MeasurementSerieEntry>::empty());
    }
}

/// The node's reactive side of a session: its fixed address, its
/// real-time counter in Unix seconds, and the batch blob finalized
/// before advertising.
#[derive(Debug)]
pub struct SyncServer {
    pub address: [u8; 6],
    pub clock: i64,
    pub batch: Vec<u8>,
}

impl SyncServer {
    /// The clock stays inside what the wire format can carry and the
    /// batch keeps its fixed size.
    pub open spec fn wf(self) -> bool {
        &&& 0 <= self.clock
        &&& self.clock / 86400 < spec_day_limit()
        &&& self.batch@.len() == BATCH_LEN
    }

    /// Sets a node up for a session: address fixed here, the given
    /// entries finalized into the batch blob.  `None` when the clock
    /// cannot be carried by the wire format or the entries outnumber
    /// the blob's slots.
    pub fn new(address: [u8; 6], clock: i64, entries: &Vec<MeasurementSerieEntry>) -> (r: Option<
        SyncServer,
    >)
        ensures
            r is Some <==> (0 <= clock && clock / 86400 < spec_day_limit() && entries@.len()
                <= BATCH_MAX_ENTRIES),
            r matches Some(s) ==> s.address == address && s.clock == clock && s.batch@
                == spec_batch_blob(entries@) && s.wf(),
    {
        if entries.len() > BATCH_MAX_ENTRIES {
            return None;
        }
        match CurrentTime::from_unix_timestamp(clock) {
            None => None,
            Some(_) => {
                let batch = encode_batch(entries);
                Some(SyncServer { address, clock, batch })
            },
        }
    }

    /// Read of the address attribute: the six fixed identity bytes.
    pub fn read_address(&self) -> (r: [u8; 6])
        ensures
            r == self.address,
    {
        self.address
    }

    /// Read of the current-time attribute: the live clock encoded on
    /// demand.  The bytes decode to a real date whose seconds equal
    /// the clock, with the matching day of week, no fraction and an
    /// empty adjust reason — and they are that instant's canonical
    /// encoding.
    pub fn read_current_time(&self) -> (r: [u8; 10])
        requires
            self.wf(),
        ensures
            ({
                let ct = spec_decode_current_time(r@);
                &&& spec_valid_date(ct.year as int, ct.month as int, ct.day as int)
                &&& spec_unix_seconds(ct) == self.clock
                &&& ct.day_of_week == spec_weekday_from_days(self.clock / 86400)
                &&& ct.fractions256 == 0
                &&& ct.adjust_reason.0 == 0
                &&& r@ == spec_current_time_bytes(ct)
            }),
    {
        let ct = match CurrentTime::from_unix_timestamp(self.clock) {
            Some(ct) => ct,
            None => {
                proof {
                    assert(false);
                }
                CurrentTime::unix_epoch()
            },
        };
        let r = ct.to_bytes();
        proof {
            crate::time::lemma_current_time_roundtrip(ct);
            crate::time::lemma_time_of_day_recompose(self.clock as int);
        }
        r
    }

    /// Write of the current-time attribute: the node adopts the
    /// written instant as its real-time counter immediately, with no
    /// separate acknowledgement.  A short buffer or one naming no real
    /// instant is rejected and leaves the clock alone.
    pub fn write_current_time(&mut self, bytes: &[u8]) -> (r: Result<(), SessionError>)
        ensures
            r is Ok <==> (bytes@.len() >= 10 && ({
                let ct = spec_decode_current_time(bytes@);
                spec_valid_date(ct.year as int, ct.month as int, ct.day as int) && ct.hour < 24
                    && ct.minute < 60 && ct.second < 60
            })),
            r is Ok ==> final(self).clock == spec_unix_seconds(spec_decode_current_time(bytes@)),
            r matches Err(e) ==> e == SessionError::WriteRejected && final(self).clock == old(
                self,
            ).clock,
            final(self).address == old(self).address,
            final(self).batch == old(self).batch,
            old(self).wf() ==> final(self).wf(),
    {
        if bytes.len() < 10 {
            return Err(SessionError::WriteRejected);
        }
        let ct = CurrentTime::from_bytes(bytes);
        if ct.hour >= 24 || ct.minute >= 60 || ct.second >= 60 {
            return Err(SessionError::WriteRejected);
        }
        match ct.to_unix_timestamp() {
            None => Err(SessionError::WriteRejected),
            Some((secs, _nanos)) => {
                proof {
                    crate::time::lemma_unix_seconds_in_range(ct);
                }
                self.clock = secs;
                Ok(())
            },
        }
    }

    /// Read of the measurement attribute: the finalized batch blob.
    pub fn read_measurements(&self) -> (r: &Vec<u8>)
        ensures
            r@ == self.batch@,
    {
        &self.batch
    }
}

/// What one completed session hands the storage collaborator: the
/// node's identity, the measured clock drift in seconds, and the
/// entries recovered from the batch.
#[derive(Debug)]
pub struct SyncResult {
    pub address: [u8; 6],
    pub time_drift: i64,
    pub measurements: Vec<MeasurementSerieEntry>,
}

/// The current-time attribute bytes name a real instant.
pub open spec fn spec_node_time_ok(time_data: Seq<u8>) -> bool {
    &&& time_data.len() >= 10
    &&& ({
        let ct = spec_decode_current_time(time_data);
        spec_valid_date(ct.year as int, ct.month as int, ct.day as int)
    })
}

/// The node's clock in Unix seconds, as read from the current-time
/// attribute.
pub open spec fn spec_node_secs(time_data: Seq<u8>) -> int {
    spec_unix_seconds(spec_decode_current_time(time_data))
}

/// The hub's half of a session, computed from what it read: the
/// address attribute, the current-time attribute, the measurement
/// blob, and its own clock.  On success it returns the session result
/// together with the ten bytes the hub writes back to the node as the
/// authoritative time.
pub fn client_sync(
    address_data: &[u8],
    time_data: &[u8],
    batch_data: &[u8],
    client_now: i64,
) -> (r: Result<(SyncResult, [u8; 10]), SessionError>)
    ensures
        r matches Err(e) ==> match e {
            SessionError::BadAddress => address_data@.len() != 6,
            SessionError::BadTime => address_data@.len() == 6 && !(spec_node_time_ok(time_data@)
                && i64::MIN <= client_now - spec_node_secs(time_data@) <= i64::MAX),
            SessionError::ClockOutOfRange => address_data@.len() == 6 && spec_node_time_ok(
                time_data@,
            ) && i64::MIN <= client_now - spec_node_secs(time_data@) <= i64::MAX && !(0
                <= client_now && client_now / 86400 < spec_day_limit()),
            SessionError::BadBatch => address_data@.len() == 6 && spec_node_time_ok(time_data@)
                && i64::MIN <= client_now - spec_node_secs(time_data@) <= i64::MAX && 0
                <= client_now && client_now / 86400 < spec_day_limit() && batch_data@.len()
                != BATCH_LEN,
            SessionError::WriteRejected => false,
        },
        r is Ok <==> (address_data@.len() == 6 && spec_node_time_ok(time_data@) && i64::MIN
            <= client_now - spec_node_secs(time_data@) <= i64::MAX && 0 <= client_now && client_now
            / 86400 < spec_day_limit() && batch_data@.len() == BATCH_LEN),
        r matches Ok((res, write_back)) ==> {
            &&& res.address@ == address_data@
            &&& res.time_drift == client_now - spec_node_secs(time_data@)
            &&& res.measurements@ == spec_decoded_batch(batch_data@)
            &&& ({
                let ct = spec_decode_current_time(write_back@);
                &&& spec_valid_date(ct.year as int, ct.month as int, ct.day as int)
                &&& spec_unix_seconds(ct) == client_now
                &&& ct.day_of_week == spec_weekday_from_days(client_now / 86400)
                &&& ct.fractions256 == 0
                &&& ct.adjust_reason.0 == 0
                &&& write_back@ == spec_current_time_bytes(ct)
            })
        },
{
    if address_data.len() != 6 {
        return Err(SessionError::BadAddress);
    }
    let address: [u8; 6] = [
        address_data[0],
        address_data[1],
        address_data[2],
        address_data[3],
        address_data[4],
        address_data[5],
    ];
    proof {
        assert(address@ =~= address_data@);
    }
    if time_data.len() < 10 {
        return Err(SessionError::BadTime);
    }
    let node_time = CurrentTime::from_bytes(time_data);
    let node_secs: i64 = match node_time.to_unix_timestamp() {
        None => {
            return Err(SessionError::BadTime);
        },
        Some((secs, _nanos)) => secs,
    };
    let drift: i64 = match client_now.checked_sub(node_secs) {
        None => {
            return Err(SessionError::BadTime);
        },
        Some(d) => d,
    };
    let own_time = match CurrentTime::from_unix_timestamp(client_now) {
        None => {
            return Err(SessionError::ClockOutOfRange);
        },
        Some(ct) => ct,
    };
    let write_back = own_time.to_bytes();
    proof {
        crate::time::lemma_current_time_roundtrip(own_time);
        crate::time::lemma_time_of_day_recompose(client_now as int);
    }
    if batch_data.len() != BATCH_LEN {
        return Err(SessionError::BadBatch);
    }
    let measurements = decode_batch(batch_data);
    Ok((SyncResult { address, time_drift: drift, measurements }, write_back))
}

} // verus!
