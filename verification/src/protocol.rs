use vstd::prelude::*;

use crate::error::{Error, IoError, IoErrorKind};

verus! {

/// The reset request both protocols send to the device.
pub const RESET: u8 = 0x04;

/// The byte the device emits when it is ready for a command.
pub const SYNC: u8 = 0x05;

/// One I/O action a protocol state machine asks its driver to perform.
///
/// `Write` writes all its bytes and flushes; `Read` reads exactly the given
/// number of bytes; `Purge` drains whatever sits unread in the input buffer.
#[derive(Debug, Clone)]
pub enum Io {
    Write(Vec<u8>),
    Read(usize),
    Purge,
}

/// What the driver observed while performing the requested action.
///
/// `now_ms` is the driver's clock, in milliseconds since the exchange began;
/// the machines measure retry deadlines and response latencies with it.
/// `ReadFailed` reports a read that returned an error or timed out at the
/// transport level.
#[derive(Debug, Clone)]
pub enum Event {
    Wrote { now_ms: u64 },
    Read { bytes: Vec<u8>, now_ms: u64 },
    ReadFailed { now_ms: u64 },
    Purged { now_ms: u64 },
}

/// What a state machine decided after an event: the next I/O action, the
/// completed exchange's payload, or a failure.
#[derive(Debug)]
pub enum Next {
    Io(Io),
    Done(Vec<u8>),
    Fail(Error),
}

/// A timeout failure, as the machines report one.
pub fn timed_out_error(what: &str) -> (r: Error)
    ensures
        r matches Error::Io(e) && e.kind is TimedOut,
{
    Error::Io(IoError::new(IoErrorKind::TimedOut, String::from_str(what)))
}

/// An unrecoverable framing or protocol failure.
pub fn invalid_data_error(what: &str) -> (r: Error)
    ensures
        r matches Error::Io(e) && e.kind is InvalidData,
{
    Error::Io(IoError::new(IoErrorKind::InvalidData, String::from_str(what)))
}

/// A transport-level failure the driver reported.
pub fn transport_error(what: &str) -> (r: Error)
    ensures
        r matches Error::Io(e) && e.kind is Other,
{
    Error::Io(IoError::new(IoErrorKind::Other, String::from_str(what)))
}

/// The decision asks the driver to write these bytes (and flush).
pub open spec fn next_writes(r: Next, bytes: Seq<u8>) -> bool {
    r matches Next::Io(io) && io matches Io::Write(b) && b@ == bytes
}

/// The decision asks the driver to read exactly `n` bytes.
pub open spec fn next_reads(r: Next, n: int) -> bool {
    r matches Next::Io(io) && io matches Io::Read(m) && m as int == n
}

/// The decision asks the driver to drain the input buffer.
pub open spec fn next_purges(r: Next) -> bool {
    r matches Next::Io(io) && io is Purge
}

/// The exchange completed with this payload.
pub open spec fn next_done(r: Next, payload: Seq<u8>) -> bool {
    r matches Next::Done(b) && b@ == payload
}

/// The exchange failed with an I/O error of this kind.
pub open spec fn next_fails(r: Next, k: IoErrorKind) -> bool {
    r matches Next::Fail(e) && e matches Error::Io(ioe) && ioe.kind == k
}

/// The duration of a read that began at `start` and ended at `now`, on a
/// clock the driver guarantees nothing about beyond the values it hands in.
pub open spec fn spec_elapsed(now: u64, start: u64) -> int {
    if now >= start {
        now - start
    } else {
        0
    }
}

/// Appends all of `src` to `dst`.
pub(crate) fn extend_bytes(dst: &mut Vec<u8>, src: &[u8])
    ensures
        final(dst)@ == old(dst)@ + src@,
{
    let n = src.len();
    let mut i: usize = 0;
    while i < n
        invariant
            i <= n,
            n == src@.len(),
            dst@ == old(dst)@ + src@.subrange(0, i as int),
        decreases n - i,
    {
        let b = src[i];
        dst.push(b);
        proof {
            assert(dst@ =~= old(dst)@ + src@.subrange(0, i as int + 1));
        }
        i += 1;
    }
    proof {
        assert(dst@ =~= old(dst)@ + src@);
    }
}

/// The two big-endian address bytes of a register, as both wire protocols
/// send them.
pub open spec fn spec_addr_bytes(addr: u16) -> Seq<u8> {
    seq![(addr / 256) as u8, (addr % 256) as u8]
}

/// Every byte of the response is the sync byte; such a response is suspect,
/// since it may be a run of synchronization bytes rather than data.
pub open spec fn spec_all_sync(s: Seq<u8>) -> bool {
    forall|i: int| 0 <= i < s.len() ==> s[i] == SYNC
}

/// Whether every byte of `bytes` is the sync byte.
pub fn all_sync(bytes: &Vec<u8>) -> (r: bool)
    ensures
        r == spec_all_sync(bytes@),
{
    let n = bytes.len();
    let mut i: usize = 0;
    while i < n
        invariant
            i <= n,
            n == bytes@.len(),
            forall|k: int| 0 <= k < i ==> bytes@[k] == SYNC,
        decreases n - i,
    {
        if bytes[i] != SYNC {
            return false;
        }
        i += 1;
    }
    true
}

} // verus!

mod kw2;
pub use self::kw2::{Kw2, Kw2Get, Kw2GetState, Kw2Negotiate, Kw2NegotiateState, Kw2Set, Kw2SetState};

mod p300;
pub use self::p300::{
    checksum, frame_telegram, spec_frame, spec_p300_get_request, spec_p300_set_request, P300,
    P300Get, P300GetState,
    P300Negotiate, P300NegotiateState, P300ReadTelegram, P300ReadTelegramState, P300Set,
    P300SetState, P300WriteTelegram, P300WriteTelegramState,
};
