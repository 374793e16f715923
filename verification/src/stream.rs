//! The trace stream: a length prefix and the messages' records, in a segment
//! of fixed capacity.
//!
//! The prefix is the length of the records in bytes, as eight little-endian
//! bytes. A record is the call site, the branch and the offset, eight
//! little-endian bytes each, then one byte for the operator and one for the
//! operand. Whatever follows the records in the segment is not part of the
//! stream.

use vstd::prelude::*;
use vstd::bytes::{
    lemma_auto_spec_u64_to_from_le_bytes, spec_u64_from_le_bytes, spec_u64_to_le_bytes,
    u64_from_le_bytes, u64_to_le_bytes,
};
use vstd::slice::slice_subrange;
use crate::coverage::SharedMemoryAttachError;
use crate::trace::{CompareOp, Comparison, SiteId, TraceMessage};

verus! {

/// The length of the stream's prefix in bytes.
pub const HEADER_LEN: usize = 8;

/// The length of one record in bytes.
pub const RECORD_LEN: usize = 26;

/// Why a trace could not be written or read.
#[derive(Clone, Copy, Debug, PartialEq, Eq, Structural)]
pub enum TraceIoError {
    /// The segment has no room for another record.
    CapacityExhausted,
    /// The segment ends before the stream that its prefix announces.
    Truncated,
    /// The records are not whole, or one of them names no operator.
    Malformed,
}

/// The byte that stands for an operator.
pub open spec fn op_code(op: CompareOp) -> u8 {
    match op {
        CompareOp::Equal => 0,
        CompareOp::NotEqual => 1,
        CompareOp::Less => 2,
        CompareOp::LessEqual => 3,
        CompareOp::Greater => 4,
        CompareOp::GreaterEqual => 5,
    }
}

/// The operator that a byte stands for, if any.
pub open spec fn op_of(code: u8) -> Option<CompareOp> {
    if code == 0 {
        Some(CompareOp::Equal)
    } else if code == 1 {
        Some(CompareOp::NotEqual)
    } else if code == 2 {
        Some(CompareOp::Less)
    } else if code == 3 {
        Some(CompareOp::LessEqual)
    } else if code == 4 {
        Some(CompareOp::Greater)
    } else if code == 5 {
        Some(CompareOp::GreaterEqual)
    } else {
        None
    }
}

/// The record of a message.
pub open spec fn encode_message(message: TraceMessage) -> Seq<u8> {
    spec_u64_to_le_bytes(message.site.call_site) + spec_u64_to_le_bytes(message.site.branch)
        + spec_u64_to_le_bytes(message.offset) + seq![
        op_code(message.comparison.op),
        message.comparison.operand,
    ]
}

/// The message of a record: none unless it has `RECORD_LEN` bytes and its
/// operator byte names an operator.
pub open spec fn decode_message(record: Seq<u8>) -> Option<TraceMessage> {
    match op_of(record[24]) {
        Some(op) if record.len() == RECORD_LEN => Some(
            TraceMessage {
                site: SiteId {
                    call_site: spec_u64_from_le_bytes(record.subrange(0, 8)),
                    branch: spec_u64_from_le_bytes(record.subrange(8, 16)),
                },
                offset: spec_u64_from_le_bytes(record.subrange(16, 24)),
                comparison: Comparison { op, operand: record[25] },
            },
        ),
        _ => None,
    }
}

/// The records of `messages`, one after the other.
pub open spec fn encode_records(messages: Seq<TraceMessage>) -> Seq<u8>
    decreases messages.len(),
{
    if messages.len() == 0 {
        Seq::empty()
    } else {
        encode_records(messages.drop_last()) + encode_message(messages.last())
    }
}

/// The stream that holds `messages`: the prefix, then the records.
pub open spec fn encode_stream(messages: Seq<TraceMessage>) -> Seq<u8> {
    spec_u64_to_le_bytes((RECORD_LEN * messages.len()) as u64) + encode_records(messages)
}

/// The messages of `count` whole records at the start of `records`.
pub open spec fn decode_records(records: Seq<u8>, count: nat) -> Result<
    Seq<TraceMessage>,
    TraceIoError,
>
    decreases count,
{
    if count == 0 {
        Ok(Seq::empty())
    } else {
        match decode_records(records, (count - 1) as nat) {
            Err(e) => Err(e),
            Ok(messages) => match decode_message(
                records.subrange(RECORD_LEN * (count - 1), RECORD_LEN * count),
            ) {
                Some(message) => Ok(messages.push(message)),
                None => Err(TraceIoError::Malformed),
            },
        }
    }
}

/// The messages of the stream at the start of `segment`.
pub open spec fn decode_stream(segment: Seq<u8>) -> Result<Seq<TraceMessage>, TraceIoError> {
    if segment.len() < HEADER_LEN {
        Err(TraceIoError::Truncated)
    } else {
        let announced = spec_u64_from_le_bytes(segment.subrange(0, HEADER_LEN as int));
        if announced > segment.len() - HEADER_LEN {
            Err(TraceIoError::Truncated)
        } else if announced % (RECORD_LEN as u64) != 0 {
            Err(TraceIoError::Malformed)
        } else {
            decode_records(
                segment.subrange(HEADER_LEN as int, segment.len() as int),
                (announced / (RECORD_LEN as u64)) as nat,
            )
        }
    }
}

fn op_to_byte(op: CompareOp) -> (code: u8)
    ensures
        code == op_code(op),
{
    match op {
        CompareOp::Equal => 0,
        CompareOp::NotEqual => 1,
        CompareOp::Less => 2,
        CompareOp::LessEqual => 3,
        CompareOp::Greater => 4,
        CompareOp::GreaterEqual => 5,
    }
}

fn op_from_byte(code: u8) -> (op: Option<CompareOp>)
    ensures
        op == op_of(code),
{
    if code == 0 {
        Some(CompareOp::Equal)
    } else if code == 1 {
        Some(CompareOp::NotEqual)
    } else if code == 2 {
        Some(CompareOp::Less)
    } else if code == 3 {
        Some(CompareOp::LessEqual)
    } else if code == 4 {
        Some(CompareOp::Greater)
    } else if code == 5 {
        Some(CompareOp::GreaterEqual)
    } else {
        None
    }
}

/// Appends the bytes of `tail` to `out`.
fn extend(out: &mut Vec<u8>, tail: &Vec<u8>)
    ensures
        final(out)@ == old(out)@ + tail@,
{
    let mut i: usize = 0;
    while i < tail.len()
        invariant
            i <= tail.len(),
            out@ == old(out)@ + tail@.take(i as int),
        decreases tail.len() - i,
    {
        out.push(tail[i]);
        i += 1;
    }
}

/// Writes the record of `message`.
pub fn write_message(message: TraceMessage) -> (record: Vec<u8>)
    ensures
        record@ == encode_message(message),
        record@.len() == RECORD_LEN,
{
    let mut record = u64_to_le_bytes(message.site.call_site);
    let branch = u64_to_le_bytes(message.site.branch);
    let offset = u64_to_le_bytes(message.offset);
    extend(&mut record, &branch);
    extend(&mut record, &offset);
    record.push(op_to_byte(message.comparison.op));
    record.push(message.comparison.operand);
    record
}

/// Reads the message of one record.
pub fn read_message(record: &[u8]) -> (message: Option<TraceMessage>)
    ensures
        message == decode_message(record@),
{
    if record.len() != RECORD_LEN {
        return None;
    }
    match op_from_byte(record[24]) {
        Some(op) => {
            let call_site = u64_from_le_bytes(slice_subrange(record, 0, 8));
            let branch = u64_from_le_bytes(slice_subrange(record, 8, 16));
            let offset = u64_from_le_bytes(slice_subrange(record, 16, 24));
            Some(
                TraceMessage {
                    site: SiteId { call_site, branch },
                    offset,
                    comparison: Comparison { op, operand: record[25] },
                },
            )
        },
        None => None,
    }
}

/// A record reads back as the message it was written for.
pub proof fn lemma_message_round_trip(message: TraceMessage)
    ensures
        encode_message(message).len() == RECORD_LEN,
        decode_message(encode_message(message)) == Some(message),
{
    lemma_auto_spec_u64_to_from_le_bytes();
    let record = encode_message(message);
    assert(record.subrange(0, 8) == spec_u64_to_le_bytes(message.site.call_site));
    assert(record.subrange(8, 16) == spec_u64_to_le_bytes(message.site.branch));
    assert(record.subrange(16, 24) == spec_u64_to_le_bytes(message.offset));
}

/// The records of `messages` take `RECORD_LEN` bytes each.
pub proof fn lemma_records_len(messages: Seq<TraceMessage>)
    ensures
        encode_records(messages).len() == RECORD_LEN * messages.len(),
    decreases messages.len(),
{
    if messages.len() > 0 {
        lemma_records_len(messages.drop_last());
        lemma_message_round_trip(messages.last());
    }
}

/// Records read back as the messages they were written for, whatever follows
/// them.
pub proof fn lemma_records_round_trip(messages: Seq<TraceMessage>, rest: Seq<u8>)
    ensures
        decode_records(encode_records(messages) + rest, messages.len()) == Ok::<
            Seq<TraceMessage>,
            TraceIoError,
        >(messages),
    decreases messages.len(),
{
    if messages.len() > 0 {
        let front = messages.drop_last();
        let last = messages.last();
        let records = encode_records(messages) + rest;
        lemma_records_len(front);
        lemma_message_round_trip(last);
        lemma_records_round_trip(front, encode_message(last) + rest);
        assert(records =~= encode_records(front) + (encode_message(last) + rest));
        assert(records.subrange(RECORD_LEN * (messages.len() - 1), RECORD_LEN * messages.len())
            =~= encode_message(last));
        assert(front.push(last) =~= messages);
    } else {
        assert(messages =~= Seq::<TraceMessage>::empty());
    }
}

/// A stream reads back as the messages it was written for, whatever follows
/// it in the segment.
pub proof fn lemma_stream_round_trip(messages: Seq<TraceMessage>, rest: Seq<u8>)
    requires
        RECORD_LEN * messages.len() <= u64::MAX,
    ensures
        decode_stream(encode_stream(messages) + rest) == Ok::<Seq<TraceMessage>, TraceIoError>(
            messages,
        ),
{
    lemma_auto_spec_u64_to_from_le_bytes();
    lemma_records_len(messages);
    lemma_records_round_trip(messages, rest);
    let announced = (RECORD_LEN * messages.len()) as u64;
    let segment = encode_stream(messages) + rest;
    assert(segment.subrange(0, HEADER_LEN as int) == spec_u64_to_le_bytes(announced));
    assert(segment.subrange(HEADER_LEN as int, segment.len() as int) == encode_records(messages)
        + rest);
    assert(announced % (RECORD_LEN as u64) == 0 && announced / (RECORD_LEN as u64)
        == messages.len()) by (nonlinear_arith)
        requires
            announced == RECORD_LEN * messages.len(),
            RECORD_LEN == 26,
    ;
}

/// Once a record is bad, so is every longer run of records.
proof fn lemma_error_persists(records: Seq<u8>, bad: nat, count: nat)
    requires
        bad <= count,
        decode_records(records, bad) is Err,
    ensures
        decode_records(records, count) == decode_records(records, bad),
    decreases count,
{
    if bad < count {
        lemma_error_persists(records, bad, (count - 1) as nat);
    }
}

/// Reads the messages of the stream at the start of `segment`.
///
/// Fails where the segment is too short for a prefix or for the records that
/// the prefix announces, where the announced length is not a whole number of
/// records, and where a record names no operator.
pub fn read_trace(segment: &[u8]) -> (trace: Result<Vec<TraceMessage>, TraceIoError>)
    ensures
        match trace {
            Ok(messages) => decode_stream(segment@) == Ok::<Seq<TraceMessage>, TraceIoError>(
                messages@,
            ),
            Err(e) => decode_stream(segment@) == Err::<Seq<TraceMessage>, TraceIoError>(e),
        },
{
    if segment.len() < HEADER_LEN {
        return Err(TraceIoError::Truncated);
    }
    let announced = u64_from_le_bytes(slice_subrange(segment, 0, HEADER_LEN));
    if announced > (segment.len() - HEADER_LEN) as u64 {
        return Err(TraceIoError::Truncated);
    }
    if announced % (RECORD_LEN as u64) != 0 {
        return Err(TraceIoError::Malformed);
    }
    let records = slice_subrange(segment, HEADER_LEN, segment.len());
    let count = (announced / (RECORD_LEN as u64)) as usize;
    let mut messages: Vec<TraceMessage> = Vec::new();
    let mut k: usize = 0;
    while k < count
        invariant
            k <= count,
            segment@.len() >= HEADER_LEN,
            segment@.len() <= usize::MAX,
            announced == spec_u64_from_le_bytes(segment@.subrange(0, HEADER_LEN as int)),
            announced <= segment@.len() - HEADER_LEN,
            announced == RECORD_LEN * count,
            records@ == segment@.subrange(HEADER_LEN as int, segment@.len() as int),
            decode_records(records@, k as nat) == Ok::<Seq<TraceMessage>, TraceIoError>(
                messages@,
            ),
        decreases count - k,
    {
        assert(RECORD_LEN * (k + 1) <= RECORD_LEN * count) by (nonlinear_arith)
            requires
                k < count,
        ;
        let record = slice_subrange(records, RECORD_LEN * k, RECORD_LEN * k + RECORD_LEN);
        match read_message(record) {
            Some(message) => {
                messages.push(message);
            },
            None => {
                proof {
                    lemma_error_persists(records@, (k + 1) as nat, count as nat);
                }
                return Err(TraceIoError::Malformed);
            },
        }
        k += 1;
    }
    Ok(messages)
}

/// The writer's end of a trace stream: the segment as far as it is written,
/// and the capacity that it may not outgrow.
pub struct TraceStream {
    segment: Vec<u8>,
    capacity: usize,
    messages: Ghost<Seq<TraceMessage>>,
}

impl View for TraceStream {
    type V = Seq<TraceMessage>;

    closed spec fn view(&self) -> Seq<TraceMessage> {
        self.messages@
    }
}

impl TraceStream {
    /// The segment holds the stream of the messages, and fits the capacity.
    pub closed spec fn wf(&self) -> bool {
        &&& self.segment@ == encode_stream(self.messages@)
        &&& self.segment@.len() == HEADER_LEN + RECORD_LEN * self.messages@.len()
        &&& self.segment@.len() <= self.capacity
    }

    /// The capacity of the segment in bytes.
    pub closed spec fn limit(&self) -> usize {
        self.capacity
    }

    /// The bytes of the segment that are written.
    pub closed spec fn image(&self) -> Seq<u8> {
        self.segment@
    }

    /// Whether the segment has room for one more record.
    pub open spec fn has_room(&self) -> bool {
        HEADER_LEN + RECORD_LEN * (self@.len() + 1) <= self.limit()
    }

    /// An empty stream in a segment of `capacity` bytes. A segment that
    /// cannot hold the prefix cannot hold a stream.
    pub fn new(capacity: usize) -> (stream: Result<TraceStream, SharedMemoryAttachError>)
        ensures
            capacity < HEADER_LEN ==> stream is Err,
            capacity >= HEADER_LEN ==> (stream matches Ok(s) && s.wf() && s@ == Seq::<
                TraceMessage,
            >::empty() && s.limit() == capacity),
    {
        if capacity < HEADER_LEN {
            return Err(SharedMemoryAttachError);
        }
        let segment = u64_to_le_bytes(0);
        let ghost messages = Seq::<TraceMessage>::empty();
        assert(segment@ == encode_stream(messages));
        Ok(TraceStream { segment, capacity, messages: Ghost(messages) })
    }

    /// The capacity of the segment in bytes.
    pub fn capacity(&self) -> (capacity: usize)
        ensures
            capacity == self.limit(),
    {
        self.capacity
    }

    /// The number of messages in the stream.
    pub fn len(&self) -> (len: usize)
        requires
            self.wf(),
        ensures
            len == self@.len(),
    {
        (self.segment.len() - HEADER_LEN) / RECORD_LEN
    }

    /// The segment as far as it is written: the stream of the messages.
    pub fn bytes(&self) -> (bytes: &Vec<u8>)
        requires
            self.wf(),
        ensures
            bytes@ == encode_stream(self@),
            bytes@ == self.image(),
    {
        &self.segment
    }

    /// Appends the record of `message` and brings the prefix up to date.
    ///
    /// Where the segment has no room for the record, nothing is written and
    /// the stream stays as it was: a trace is never cut short in silence.
    pub fn append(&mut self, message: TraceMessage) -> (written: Result<(), TraceIoError>)
        requires
            old(self).wf(),
        ensures
            final(self).wf(),
            final(self).limit() == old(self).limit(),
            old(self).has_room() ==> written is Ok && final(self)@ == old(self)@.push(message),
            !old(self).has_room() ==> written == Err::<(), TraceIoError>(
                TraceIoError::CapacityExhausted,
            ) && final(self)@ == old(self)@ && final(self).image() == old(self).image(),
    {
        let used = self.segment.len();
        if self.capacity - used < RECORD_LEN {
            return Err(TraceIoError::CapacityExhausted);
        }
        let record = write_message(message);
        let announced = (used - HEADER_LEN + RECORD_LEN) as u64;
        let header = u64_to_le_bytes(announced);
        let ghost before = self.segment@;
        let mut i: usize = 0;
        while i < HEADER_LEN
            invariant
                i <= HEADER_LEN,
                header@.len() == HEADER_LEN,
                self.segment@.len() == before.len(),
                before.len() >= HEADER_LEN,
                forall|j: int| 0 <= j < i ==> self.segment@[j] == header@[j],
                forall|j: int| i <= j < before.len() ==> self.segment@[j] == before[j],
                self.capacity == old(self).capacity,
                self.messages == old(self).messages,
            decreases HEADER_LEN - i,
        {
            self.segment[i] = header[i];
            i += 1;
        }
        let ghost patched = self.segment@;
        extend(&mut self.segment, &record);
        self.messages = Ghost(self.messages@.push(message));
        proof {
            lemma_auto_spec_u64_to_from_le_bytes();
            let earlier = old(self).messages@;
            lemma_records_len(earlier);
            let later = earlier.push(message);
            assert(later.drop_last() =~= earlier);
            assert(forall|j: int| HEADER_LEN <= j < before.len() ==> patched[j] == before[j]);
            assert(self.segment@ =~= header@ + (encode_records(earlier) + encode_message(
                message,
            )));
        }
        Ok(())
    }
}

/// What a writer leaves in its segment reads back as the messages that were
/// appended, in their order, whatever the rest of the segment holds.
pub proof fn lemma_written_trace_reads_back(stream: &TraceStream, rest: Seq<u8>)
    requires
        stream.wf(),
    ensures
        decode_stream(stream.image() + rest) == Ok::<Seq<TraceMessage>, TraceIoError>(stream@),
{
    lemma_stream_round_trip(stream@, rest);
}

} // verus!
