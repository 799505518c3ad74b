//! Captured system-call events and the decoding of a raw trace.
//!
//! A trace is a run of fixed-width records, one per event, with no header
//! and no separator. A record is 36 bytes long: the timestamp (8 bytes), the
//! system-call number, the process id and the parent process id (4 bytes
//! each), all little-endian, then the 16 bytes of the process name.

use vstd::prelude::*;
use vstd::slice::slice_subrange;
use crate::syscall::{is_named, X86_64Syscalls};
use crate::uptime::Uptime;

verus! {

/// Width of the process-name buffer of an event.
pub const COMM_LEN: usize = 16;

/// Width of one trace record.
pub const RECORD_LEN: usize = 36;

/// One observed system-call invocation.
#[derive(Debug, Clone, Copy)]
pub struct SyscallEvent {
    /// Nanoseconds since the sandbox-local epoch.
    pub timestamp: u64,
    /// Raw system-call number.
    pub nr: u32,
    pub pid: u32,
    pub ppid: u32,
    /// Process name, padded with NUL bytes.
    pub comm: [u8; 16],
}

/// `bytes` without the NUL bytes at its end.
pub open spec fn strip_trailing_nuls(bytes: Seq<u8>) -> Seq<u8>
    decreases bytes.len(),
{
    if bytes.len() > 0 && bytes.last() == 0 {
        strip_trailing_nuls(bytes.drop_last())
    } else {
        bytes
    }
}

/// The name under which the tracer tags the monitored process: `target`.
pub open spec fn target_marker() -> Seq<u8> {
    seq![0x74u8, 0x61u8, 0x72u8, 0x67u8, 0x65u8, 0x74u8]
}

/// The value that `bytes` encode, least significant byte first.
pub open spec fn le_value(bytes: Seq<u8>) -> nat
    decreases bytes.len(),
{
    if bytes.len() == 0 {
        0
    } else {
        bytes.first() as nat + 256 * le_value(bytes.drop_first())
    }
}

/// Whether `event` is what the record `record` holds.
pub open spec fn decodes_to(record: Seq<u8>, event: SyscallEvent) -> bool {
    &&& record.len() == RECORD_LEN
    &&& event.timestamp == le_value(record.subrange(0, 8))
    &&& event.nr == le_value(record.subrange(8, 12))
    &&& event.pid == le_value(record.subrange(12, 16))
    &&& event.ppid == le_value(record.subrange(16, 20))
    &&& event.comm@ == record.subrange(20, 36)
}

/// The event that the record `record` holds.
pub open spec fn decoded(record: Seq<u8>) -> SyscallEvent {
    choose|event: SyscallEvent| decodes_to(record, event)
}

/// A record holds one event and no other.
pub proof fn lemma_decoded_unique(record: Seq<u8>, event: SyscallEvent)
    requires
        decodes_to(record, event),
    ensures
        decoded(record) == event,
{
    let other = decoded(record);
    assert(decodes_to(record, other));
    assert(other.comm =~= event.comm);
}

/// The events of the trace `bytes`, in capture order. It is meant for a
/// trace that ends on a record boundary.
pub open spec fn decoded_trace(bytes: Seq<u8>) -> Seq<SyscallEvent> {
    Seq::new(bytes.len() / (RECORD_LEN as nat), |i: int| decoded(record_at(bytes, i)))
}

/// The `index`-th record of the trace `bytes`.
pub open spec fn record_at(bytes: Seq<u8>, index: int) -> Seq<u8> {
    bytes.subrange(index * RECORD_LEN, index * RECORD_LEN + RECORD_LEN)
}

/// Why a raw trace could not be decoded.
#[derive(Debug, Clone, Copy, PartialEq, Eq, Structural)]
pub enum TraceDecodeError {
    /// The trace ends inside record number `index`, of which only
    /// `available` bytes are there.
    TruncatedRecord { index: usize, available: usize },
}

/// The text that `String::from_utf8_lossy` makes of `bytes`: their decoding
/// as UTF-8, with the replacement character for what is not valid.
pub uninterp spec fn utf8_lossy(bytes: Seq<u8>) -> Seq<char>;

/// Calls `String::from_utf8_lossy` of the standard library and takes the
/// result as an owned string. Nothing is proved of the decoding: the
/// contract only gives its result the name `utf8_lossy`.
#[verifier::external_body]
fn lossy_string(bytes: &[u8]) -> (text: String)
    ensures
        text@ == utf8_lossy(bytes@),
{
    String::from_utf8_lossy(bytes).into_owned()
}

proof fn lemma_le_value_bound(bytes: Seq<u8>)
    ensures
        bytes.len() == 4 ==> le_value(bytes) == bytes[0] + 0x100 * bytes[1] + 0x1_0000 * bytes[2]
            + 0x100_0000 * bytes[3],
        bytes.len() == 8 ==> le_value(bytes) == bytes[0] + 0x100 * bytes[1] + 0x1_0000 * bytes[2]
            + 0x100_0000 * bytes[3] + 0x1_0000_0000 * bytes[4] + 0x100_0000_0000 * bytes[5]
            + 0x1_0000_0000_0000 * bytes[6] + 0x100_0000_0000_0000 * bytes[7],
{
    reveal_with_fuel(le_value, 9);
    if bytes.len() == 4 {
        let b1 = bytes.drop_first();
        let b2 = b1.drop_first();
        let b3 = b2.drop_first();
        assert(b3.drop_first().len() == 0);
    }
    if bytes.len() == 8 {
        let b1 = bytes.drop_first();
        let b2 = b1.drop_first();
        let b3 = b2.drop_first();
        let b4 = b3.drop_first();
        let b5 = b4.drop_first();
        let b6 = b5.drop_first();
        let b7 = b6.drop_first();
        assert(b7.drop_first().len() == 0);
    }
}

fn read_u32(bytes: &[u8]) -> (value: u32)
    requires
        bytes@.len() == 4,
    ensures
        value == le_value(bytes@),
{
    proof {
        lemma_le_value_bound(bytes@);
    }
    let b0: u32 = bytes[0] as u32;
    let b1: u32 = bytes[1] as u32;
    let b2: u32 = bytes[2] as u32;
    let b3: u32 = bytes[3] as u32;
    b0 + 0x100 * b1 + 0x1_0000 * b2 + 0x100_0000 * b3
}

fn read_u64(bytes: &[u8]) -> (value: u64)
    requires
        bytes@.len() == 8,
    ensures
        value == le_value(bytes@),
{
    proof {
        lemma_le_value_bound(bytes@);
    }
    let b0: u64 = bytes[0] as u64;
    let b1: u64 = bytes[1] as u64;
    let b2: u64 = bytes[2] as u64;
    let b3: u64 = bytes[3] as u64;
    let b4: u64 = bytes[4] as u64;
    let b5: u64 = bytes[5] as u64;
    let b6: u64 = bytes[6] as u64;
    let b7: u64 = bytes[7] as u64;
    b0 + 0x100 * b1 + 0x1_0000 * b2 + 0x100_0000 * b3 + 0x1_0000_0000 * b4 + 0x100_0000_0000 * b5
        + 0x1_0000_0000_0000 * b6 + 0x100_0000_0000_0000 * b7
}

impl SyscallEvent {
    /// Whether the event comes from the monitored process: its process name,
    /// without the NUL padding, is the target marker.
    pub open spec fn spec_is_target(&self) -> bool {
        strip_trailing_nuls(self.comm@) == target_marker()
    }

    /// Length of the process name without its NUL padding.
    pub fn name_len(&self) -> (n: usize)
        ensures
            n <= COMM_LEN,
            self.comm@.take(n as int) == strip_trailing_nuls(self.comm@),
    {
        let mut n: usize = COMM_LEN;
        assert(self.comm@.take(n as int) =~= self.comm@);
        while n > 0 && self.comm[n - 1] == 0
            invariant
                n <= COMM_LEN,
                strip_trailing_nuls(self.comm@.take(n as int)) == strip_trailing_nuls(self.comm@),
            decreases n,
        {
            assert(self.comm@.take(n as int).drop_last() =~= self.comm@.take(n - 1));
            n = n - 1;
        }
        n
    }

    #[verifier::when_used_as_spec(spec_is_target)]
    pub fn is_target(&self) -> (b: bool)
        ensures
            b == self.spec_is_target(),
    {
        let n = self.name_len();
        let b = n == 6 && self.comm[0] == 0x74 && self.comm[1] == 0x61 && self.comm[2] == 0x72
            && self.comm[3] == 0x67 && self.comm[4] == 0x65 && self.comm[5] == 0x74;
        assert(b == (self.comm@.take(n as int) =~= target_marker()));
        b
    }

    /// The process name as text, without its NUL padding.
    pub fn comm_to_string(&self) -> (name: String)
        ensures
            name@ == utf8_lossy(strip_trailing_nuls(self.comm@)),
    {
        let n = self.name_len();
        lossy_string(slice_subrange(self.comm.as_slice(), 0, n))
    }

    /// The system call of the event by name, if its number has one.
    pub fn nr_to_syscall(&self) -> (res: Option<X86_64Syscalls>)
        ensures
            res is Some <==> is_named(self.nr),
            res matches Some(syscall) ==> syscall.number() == self.nr,
    {
        X86_64Syscalls::from_number(self.nr)
    }

    /// The time of the event, split into days, hours and smaller parts.
    pub fn timestamp_to_uptime(&self) -> (up: Uptime)
        ensures
            up == Uptime::of_nanos(self.timestamp),
    {
        Uptime::from(self.timestamp)
    }

    /// Decodes one record. Fails if `record` is not as long as a record is.
    pub fn decode(record: &[u8]) -> (res: Result<SyscallEvent, TraceDecodeError>)
        ensures
            match res {
                Ok(event) => decodes_to(record@, event) && event == decoded(record@),
                Err(e) => record@.len() != RECORD_LEN && e == (TraceDecodeError::TruncatedRecord {
                    index: 0,
                    available: record@.len() as usize,
                }),
            },
    {
        if record.len() != RECORD_LEN {
            return Err(TraceDecodeError::TruncatedRecord { index: 0, available: record.len() });
        }
        Ok(decode_whole(record))
    }
}

fn decode_whole(record: &[u8]) -> (event: SyscallEvent)
    requires
        record@.len() == RECORD_LEN,
    ensures
        decodes_to(record@, event),
        event == decoded(record@),
{
    let timestamp = read_u64(slice_subrange(record, 0, 8));
    let nr = read_u32(slice_subrange(record, 8, 12));
    let pid = read_u32(slice_subrange(record, 12, 16));
    let ppid = read_u32(slice_subrange(record, 16, 20));
    let mut comm = [0u8; 16];
    let mut i: usize = 0;
    while i < COMM_LEN
        invariant
            i <= COMM_LEN,
            record@.len() == RECORD_LEN,
            forall|j: int| 0 <= j < i ==> comm@[j] == record@[20 + j],
        decreases COMM_LEN - i,
    {
        comm[i] = record[20 + i];
        i = i + 1;
    }
    assert(comm@ =~= record@.subrange(20, 36));
    let event = SyscallEvent { timestamp, nr, pid, ppid, comm };
    proof {
        lemma_decoded_unique(record@, event);
    }
    event
}

/// Decodes a whole trace into its events, in capture order.
///
/// Fails when the trace does not end on a record boundary.
pub fn decode_trace(bytes: &[u8]) -> (res: Result<Vec<SyscallEvent>, TraceDecodeError>)
    ensures
        match res {
            Ok(events) => {
                &&& bytes@.len() % (RECORD_LEN as nat) == 0
                &&& events@ == decoded_trace(bytes@)
                &&& forall|i: int|
                    0 <= i < events@.len() ==> decodes_to(
                        record_at(bytes@, i),
                        #[trigger] events@[i],
                    )
            },
            Err(e) => {
                &&& bytes@.len() % (RECORD_LEN as nat) != 0
                &&& e == (TraceDecodeError::TruncatedRecord {
                    index: (bytes@.len() / (RECORD_LEN as nat)) as usize,
                    available: (bytes@.len() % (RECORD_LEN as nat)) as usize,
                })
            },
        },
{
    let count = bytes.len() / RECORD_LEN;
    let rest = bytes.len() % RECORD_LEN;
    if rest != 0 {
        return Err(TraceDecodeError::TruncatedRecord { index: count, available: rest });
    }
    let mut events: Vec<SyscallEvent> = Vec::new();
    let mut i: usize = 0;
    while i < count
        invariant
            i <= count,
            count * RECORD_LEN == bytes@.len(),
            bytes@.len() <= usize::MAX,
            events@.len() == i,
            forall|j: int| 0 <= j < i ==> decodes_to(record_at(bytes@, j), #[trigger] events@[j]),
            forall|j: int| 0 <= j < i ==> #[trigger] events@[j] == decoded(record_at(bytes@, j)),
        decreases count - i,
    {
        assert(i * RECORD_LEN + RECORD_LEN <= count * RECORD_LEN) by (nonlinear_arith)
            requires
                i < count,
        ;
        let record = slice_subrange(bytes, i * RECORD_LEN, i * RECORD_LEN + RECORD_LEN);
        events.push(decode_whole(record));
        i = i + 1;
    }
    assert(events@ =~= decoded_trace(bytes@));
    Ok(events)
}

} // verus!
