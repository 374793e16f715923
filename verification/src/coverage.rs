//! The coverage byte map, one byte per edge, and the decision whether a
//! process has one.

use vstd::prelude::*;
use crate::text::{decimal, decimal_string};

verus! {

/// The environment variable that carries the identifier of the shared
/// coverage map.
pub const EDGES_MAP_ENV: &'static str = "EDGES_MAP_SHMEM";

/// What a process says when it starts without a coverage map.
pub const NO_EDGES_MAP: &'static str = "No edges map shared memory found.";

/// A coverage map could not be attached although its identifier was given.
#[derive(Clone, Copy, Debug, PartialEq, Eq, Structural)]
pub struct SharedMemoryAttachError;

/// The entries of `bytes` that are not zero, each with its index, in the
/// order of their indices.
pub open spec fn nonzero_entries(bytes: Seq<u8>) -> Seq<(usize, u8)>
    decreases bytes.len(),
{
    if bytes.len() == 0 {
        Seq::empty()
    } else if bytes.last() != 0 {
        nonzero_entries(bytes.drop_last()).push(((bytes.len() - 1) as usize, bytes.last()))
    } else {
        nonzero_entries(bytes.drop_last())
    }
}

/// The report of `entries`: a line for each, with the edge id, a tab and the
/// byte, both in decimal.
pub open spec fn report_of(entries: Seq<(usize, u8)>) -> Seq<char>
    decreases entries.len(),
{
    if entries.len() == 0 {
        Seq::empty()
    } else {
        report_of(entries.drop_last()) + decimal(entries.last().0 as nat).push('\t') + decimal(
            entries.last().1 as nat,
        ).push('\n')
    }
}

/// A byte map of fixed length with one slot per edge id.
#[derive(Debug)]
pub struct CoverageMap {
    bytes: Vec<u8>,
}

impl View for CoverageMap {
    type V = Seq<u8>;

    closed spec fn view(&self) -> Seq<u8> {
        self.bytes@
    }
}

impl CoverageMap {
    /// The map over a segment as it was found. Its length is the segment's,
    /// from now on.
    pub fn attach(segment: Vec<u8>) -> (map: CoverageMap)
        ensures
            map@ == segment@,
    {
        CoverageMap { bytes: segment }
    }

    /// The number of slots.
    pub fn len(&self) -> (len: usize)
        ensures
            len == self@.len(),
    {
        self.bytes.len()
    }

    /// The byte of `edge`, or `None` for an edge id that the map has no slot
    /// for.
    pub fn get(&self, edge: usize) -> (byte: Option<u8>)
        ensures
            byte == if edge < self@.len() {
                Some(self@[edge as int])
            } else {
                None
            },
    {
        if edge < self.bytes.len() {
            Some(self.bytes[edge])
        } else {
            None
        }
    }

    /// Records that `edge` was executed: its byte becomes 1. No other byte
    /// changes, and an edge id that the map has no slot for changes nothing.
    /// Returns whether the edge has a slot.
    pub fn record(&mut self, edge: usize) -> (recorded: bool)
        ensures
            recorded == (edge < old(self)@.len()),
            final(self)@ == if edge < old(self)@.len() {
                old(self)@.update(edge as int, 1u8)
            } else {
                old(self)@
            },
    {
        if edge < self.bytes.len() {
            self.bytes[edge] = 1;
            true
        } else {
            false
        }
    }

    /// The edges that were executed, each with its byte, by rising edge id.
    pub fn hits(&self) -> (entries: Vec<(usize, u8)>)
        ensures
            entries@ == nonzero_entries(self@),
    {
        let mut entries: Vec<(usize, u8)> = Vec::new();
        let mut i: usize = 0;
        while i < self.bytes.len()
            invariant
                i <= self.bytes.len(),
                entries@ == nonzero_entries(self@.take(i as int)),
            decreases self.bytes.len() - i,
        {
            assert(self@.take(i + 1).drop_last() == self@.take(i as int));
            let byte = self.bytes[i];
            if byte != 0 {
                entries.push((i, byte));
            }
            i += 1;
        }
        assert(self@.take(i as int) == self@);
        entries
    }
}

/// Writes the report of the edges that were executed, as `hits` lists them.
pub fn report(entries: &[(usize, u8)]) -> (text: String)
    ensures
        text@ == report_of(entries@),
{
    let mut text = String::new();
    let mut i: usize = 0;
    while i < entries.len()
        invariant
            i <= entries.len(),
            text@ == report_of(entries@.take(i as int)),
        decreases entries.len() - i,
    {
        assert(entries@.take(i + 1).drop_last() == entries@.take(i as int));
        let (edge, byte) = entries[i];
        proof {
            reveal_strlit("\t");
            reveal_strlit("\n");
        }
        text.append(decimal_string(edge).as_str());
        text.append("\t");
        text.append(decimal_string(byte as usize).as_str());
        text.append("\n");
        i += 1;
    }
    assert(entries@.take(i as int) == entries@);
    text
}

/// The coverage sink of a process: a map, or none.
#[derive(Debug)]
pub enum CoverageChannel {
    /// The process runs without a coverage map.
    Absent,
    /// The process writes to this map.
    Attached(CoverageMap),
}

impl CoverageChannel {
    /// The map's bytes; none without a map.
    pub open spec fn bytes(&self) -> Seq<u8> {
        match self {
            CoverageChannel::Absent => Seq::empty(),
            CoverageChannel::Attached(map) => map@,
        }
    }

    /// What the process is to say of its coverage sink at start-up: a line
    /// for a missing map, nothing for an attached one.
    pub fn diagnostic(&self) -> (line: Option<&'static str>)
        ensures
            line == match self {
                CoverageChannel::Absent => Some(NO_EDGES_MAP),
                CoverageChannel::Attached(_) => None,
            },
    {
        match self {
            CoverageChannel::Absent => Some(NO_EDGES_MAP),
            CoverageChannel::Attached(_) => None,
        }
    }

    /// Records that `edge` was executed, as `CoverageMap::record` does.
    /// Without a map nothing is recorded and nothing changes.
    pub fn record(&mut self, edge: usize) -> (recorded: bool)
        ensures
            recorded == (*old(self) is Attached && edge < old(self).bytes().len()),
            *old(self) is Absent ==> *final(self) is Absent,
            *old(self) is Attached ==> *final(self) is Attached,
            final(self).bytes() == if edge < old(self).bytes().len() {
                old(self).bytes().update(edge as int, 1u8)
            } else {
                old(self).bytes()
            },
    {
        match self {
            CoverageChannel::Absent => false,
            CoverageChannel::Attached(map) => map.record(edge),
        }
    }
}

/// What `segment` makes of an attachment: the map over the segment, or the
/// error where there is none.
pub open spec fn attached(segment: Option<Vec<u8>>, channel: Result<
    CoverageChannel,
    SharedMemoryAttachError,
>) -> bool {
    match segment {
        Some(bytes) => channel matches Ok(CoverageChannel::Attached(map)) && map@ == bytes@,
        None => channel == Err::<CoverageChannel, SharedMemoryAttachError>(SharedMemoryAttachError),
    }
}

/// Sets up the coverage sink at process start.
///
/// `id` is the value of `EDGES_MAP_ENV`, `None` where it is not set, and
/// `attach` maps the segment with a given identifier, `None` where it cannot.
/// Without an identifier the process goes on without a map and nothing is
/// attached; that is no error. With one, the segment must attach.
pub fn open_channel<F: FnOnce(String) -> Option<Vec<u8>>>(id: Option<String>, attach: F) -> (channel:
    Result<CoverageChannel, SharedMemoryAttachError>)
    requires
        id matches Some(name) ==> call_requires(attach, (name,)),
    ensures
        match id {
            None => channel matches Ok(CoverageChannel::Absent),
            Some(name) => exists|segment: Option<Vec<u8>>| #[trigger]
                call_ensures(attach, (name,), segment) && attached(segment, channel),
        },
{
    match id {
        None => Ok(CoverageChannel::Absent),
        Some(name) => {
            let segment = attach(name);
            complete_attach(segment)
        },
    }
}

/// The channel for the outcome of an attachment.
pub fn complete_attach(segment: Option<Vec<u8>>) -> (channel: Result<
    CoverageChannel,
    SharedMemoryAttachError,
>)
    ensures
        attached(segment, channel),
{
    match segment {
        Some(bytes) => Ok(CoverageChannel::Attached(CoverageMap::attach(bytes))),
        None => Err(SharedMemoryAttachError),
    }
}

} // verus!
