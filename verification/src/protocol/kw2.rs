use vstd::prelude::*;

use crate::error::IoErrorKind;
use crate::protocol::{
    all_sync, extend_bytes, next_done, next_fails, next_purges, next_reads, next_writes,
    spec_all_sync, spec_elapsed, timed_out_error, transport_error, Event, Io, Next, RESET, SYNC,
};

verus! {

/// The latency bound, per requested byte, under which a run of sync bytes is
/// accepted as genuine data: a response this fast is no idle sync cadence.
/// A timing heuristic against real hardware, not part of the wire format.
pub const SYNC_LATENCY_MS_PER_BYTE: u64 = 500;

/// The simple polling wire protocol: synchronization by reset and sync
/// bytes, then plain read and write requests.
///
/// Each operation is an explicit state machine that a driver feeds with
/// events; the machine decides every wire exchange, retry and timeout.
#[derive(Debug)]
pub struct Kw2;

/// The read request for `len` bytes at a register.
pub open spec fn spec_kw2_get_request(addr: u16, len: u8) -> Seq<u8> {
    seq![0x01u8, 0xf7u8, (addr / 256) as u8, (addr % 256) as u8, len]
}

/// The write request carrying `value` to a register.
pub open spec fn spec_kw2_set_request(addr: u16, value: Seq<u8>) -> Seq<u8> {
    seq![0x01u8, 0xf4u8, (addr / 256) as u8, (addr % 256) as u8, value.len() as u8] + value
}

fn kw2_get_request(addr: u16, len: u8) -> (r: Vec<u8>)
    ensures
        r@ == spec_kw2_get_request(addr, len),
{
    let r = vec![0x01u8, 0xf7u8, (addr / 256) as u8, (addr % 256) as u8, len];
    proof {
        assert(r@ =~= spec_kw2_get_request(addr, len));
    }
    r
}

fn kw2_set_request(addr: u16, value: &Vec<u8>) -> (r: Vec<u8>)
    requires
        1 <= value@.len() <= 255,
    ensures
        r@ == spec_kw2_set_request(addr, value@),
{
    let mut r = vec![0x01u8, 0xf4u8, (addr / 256) as u8, (addr % 256) as u8, value.len() as u8];
    extend_bytes(&mut r, value.as_slice());
    proof {
        assert(r@ =~= spec_kw2_set_request(addr, value@));
    }
    r
}

// --------------------------------------------------------------------------
// Negotiation
// --------------------------------------------------------------------------

#[derive(Debug, Clone, Copy, PartialEq, Eq, Structural)]
pub enum Kw2NegotiateState {
    Purging,
    ResetSent,
    Done,
    Failed,
}

/// Connecting: purge stale input, then send one reset byte.
#[derive(Debug)]
pub struct Kw2Negotiate {
    pub state: Kw2NegotiateState,
}

impl Kw2Negotiate {
    pub fn new() -> (r: (Kw2Negotiate, Io))
        ensures
            r.0.state is Purging,
            r.1 is Purge,
    {
        (Kw2Negotiate { state: Kw2NegotiateState::Purging }, Io::Purge)
    }

    pub fn step(&mut self, ev: Event) -> (r: Next)
        ensures
            match old(self).state {
                Kw2NegotiateState::Purging => match ev {
                    Event::Purged { .. } => final(self).state is ResetSent && next_writes(
                        r,
                        seq![RESET],
                    ),
                    _ => final(self).state is Failed && next_fails(r, IoErrorKind::Other),
                },
                Kw2NegotiateState::ResetSent => match ev {
                    Event::Wrote { .. } => final(self).state is Done && next_done(r, Seq::empty()),
                    _ => final(self).state is Failed && next_fails(r, IoErrorKind::Other),
                },
                _ => final(self).state is Failed && next_fails(r, IoErrorKind::Other),
            },
    {
        match self.state {
            Kw2NegotiateState::Purging => match ev {
                Event::Purged { .. } => {
                    self.state = Kw2NegotiateState::ResetSent;
                    let w = vec![RESET];
                    proof {
                        assert(w@ =~= seq![RESET]);
                    }
                    Next::Io(Io::Write(w))
                },
                _ => {
                    self.state = Kw2NegotiateState::Failed;
                    Next::Fail(transport_error("unexpected event"))
                },
            },
            Kw2NegotiateState::ResetSent => match ev {
                Event::Wrote { .. } => {
                    self.state = Kw2NegotiateState::Done;
                    Next::Done(Vec::new())
                },
                _ => {
                    self.state = Kw2NegotiateState::Failed;
                    Next::Fail(transport_error("unexpected event"))
                },
            },
            _ => {
                self.state = Kw2NegotiateState::Failed;
                Next::Fail(transport_error("unexpected event"))
            },
        }
    }
}

// --------------------------------------------------------------------------
// Reading a register
// --------------------------------------------------------------------------

#[derive(Debug, Clone, Copy, PartialEq, Eq, Structural)]
pub enum Kw2GetState {
    SyncPurge,
    SyncReset,
    SyncAwait,
    SyncDonePurge,
    ReqSent,
    AwaitData,
    RetryPurge,
    Done,
    Failed,
}

/// Reading `len` bytes at a register: synchronize (purge, reset, await the
/// sync byte, purge again), send the read request, and read the response.
///
/// A response consisting entirely of sync bytes is suspect; it is accepted
/// only if it arrived fast, else the exchange is purged and retried, bounded
/// by the connection timeout.
#[derive(Debug)]
pub struct Kw2Get {
    pub addr: u16,
    pub len: u8,
    pub timeout_ms: u64,
    pub read_start_ms: u64,
    pub state: Kw2GetState,
}

impl Kw2Get {
    pub fn new(addr: u16, len: u8, timeout_ms: u64) -> (r: (Kw2Get, Io))
        requires
            1 <= len,
        ensures
            r.0.addr == addr,
            r.0.len == len,
            r.0.timeout_ms == timeout_ms,
            r.0.state is SyncPurge,
            r.1 is Purge,
    {
        (Kw2Get { addr, len, timeout_ms, read_start_ms: 0, state: Kw2GetState::SyncPurge }, Io::Purge)
    }

    pub fn step(&mut self, ev: Event) -> (r: Next)
        ensures
            final(self).addr == old(self).addr,
            final(self).len == old(self).len,
            final(self).timeout_ms == old(self).timeout_ms,
            match old(self).state {
                Kw2GetState::SyncPurge => match ev {
                    Event::Purged { .. } => final(self).state is SyncReset && next_writes(
                        r,
                        seq![RESET],
                    ),
                    _ => final(self).state is Failed && next_fails(r, IoErrorKind::Other),
                },
                Kw2GetState::SyncReset => match ev {
                    Event::Wrote { .. } => final(self).state is SyncAwait && next_reads(r, 1),
                    _ => final(self).state is Failed && next_fails(r, IoErrorKind::Other),
                },
                Kw2GetState::SyncAwait => match ev {
                    Event::Read { bytes, now_ms } => if bytes@ == seq![SYNC] {
                        final(self).state is SyncDonePurge && next_purges(r)
                    } else if now_ms > old(self).timeout_ms {
                        final(self).state is Failed && next_fails(r, IoErrorKind::TimedOut)
                    } else {
                        final(self).state is SyncReset && next_writes(r, seq![RESET])
                    },
                    Event::ReadFailed { now_ms } => if now_ms > old(self).timeout_ms {
                        final(self).state is Failed && next_fails(r, IoErrorKind::TimedOut)
                    } else {
                        final(self).state is SyncReset && next_writes(r, seq![RESET])
                    },
                    _ => final(self).state is Failed && next_fails(r, IoErrorKind::Other),
                },
                Kw2GetState::SyncDonePurge => match ev {
                    Event::Purged { .. } => final(self).state is ReqSent && next_writes(
                        r,
                        spec_kw2_get_request(old(self).addr, old(self).len),
                    ),
                    _ => final(self).state is Failed && next_fails(r, IoErrorKind::Other),
                },
                Kw2GetState::ReqSent => match ev {
                    Event::Wrote { now_ms } => final(self).state is AwaitData && next_reads(
                        r,
                        old(self).len as int,
                    ) && final(self).read_start_ms == now_ms,
                    _ => final(self).state is Failed && next_fails(r, IoErrorKind::Other),
                },
                Kw2GetState::AwaitData => match ev {
                    Event::Read { bytes, now_ms } => if bytes@.len() != old(self).len as int {
                        final(self).state is Failed && next_fails(r, IoErrorKind::Other)
                    } else if !spec_all_sync(bytes@) {
                        final(self).state is Done && next_done(r, bytes@)
                    } else if spec_elapsed(now_ms, old(self).read_start_ms)
                        < SYNC_LATENCY_MS_PER_BYTE * old(self).len {
                        final(self).state is Done && next_done(r, bytes@)
                    } else if now_ms > old(self).timeout_ms {
                        final(self).state is Failed && next_fails(r, IoErrorKind::TimedOut)
                    } else {
                        final(self).state is RetryPurge && next_purges(r)
                    },
                    _ => final(self).state is Failed && next_fails(r, IoErrorKind::Other),
                },
                Kw2GetState::RetryPurge => match ev {
                    Event::Purged { .. } => final(self).state is ReqSent && next_writes(
                        r,
                        spec_kw2_get_request(old(self).addr, old(self).len),
                    ),
                    _ => final(self).state is Failed && next_fails(r, IoErrorKind::Other),
                },
                _ => final(self).state is Failed && next_fails(r, IoErrorKind::Other),
            },
    {
        match self.state {
            Kw2GetState::SyncPurge => match ev {
                Event::Purged { .. } => {
                    self.state = Kw2GetState::SyncReset;
                    let w = vec![RESET];
                    proof {
                        assert(w@ =~= seq![RESET]);
                    }
                    Next::Io(Io::Write(w))
                },
                _ => self.fail_unexpected(),
            },
            Kw2GetState::SyncReset => match ev {
                Event::Wrote { .. } => {
                    self.state = Kw2GetState::SyncAwait;
                    Next::Io(Io::Read(1))
                },
                _ => self.fail_unexpected(),
            },
            Kw2GetState::SyncAwait => match ev {
                Event::Read { bytes, now_ms } => {
                    let is_sync = bytes.len() == 1 && bytes[0] == SYNC;
                    proof {
                        if is_sync {
                            assert(bytes@ =~= seq![SYNC]);
                        }
                    }
                    if is_sync {
                        self.state = Kw2GetState::SyncDonePurge;
                        Next::Io(Io::Purge)
                    } else if now_ms > self.timeout_ms {
                        self.state = Kw2GetState::Failed;
                        Next::Fail(timed_out_error("sync timed out"))
                    } else {
                        self.state = Kw2GetState::SyncReset;
                        let w = vec![RESET];
                        proof {
                            assert(w@ =~= seq![RESET]);
                        }
                        Next::Io(Io::Write(w))
                    }
                },
                Event::ReadFailed { now_ms } => {
                    if now_ms > self.timeout_ms {
                        self.state = Kw2GetState::Failed;
                        Next::Fail(timed_out_error("sync timed out"))
                    } else {
                        self.state = Kw2GetState::SyncReset;
                        let w = vec![RESET];
                        proof {
                            assert(w@ =~= seq![RESET]);
                        }
                        Next::Io(Io::Write(w))
                    }
                },
                _ => self.fail_unexpected(),
            },
            Kw2GetState::SyncDonePurge => match ev {
                Event::Purged { .. } => {
                    self.state = Kw2GetState::ReqSent;
                    Next::Io(Io::Write(kw2_get_request(self.addr, self.len)))
                },
                _ => self.fail_unexpected(),
            },
            Kw2GetState::ReqSent => match ev {
                Event::Wrote { now_ms } => {
                    self.state = Kw2GetState::AwaitData;
                    self.read_start_ms = now_ms;
                    Next::Io(Io::Read(self.len as usize))
                },
                _ => self.fail_unexpected(),
            },
            Kw2GetState::AwaitData => match ev {
                Event::Read { bytes, now_ms } => {
                    if bytes.len() != self.len as usize {
                        self.state = Kw2GetState::Failed;
                        return Next::Fail(transport_error("short read"));
                    }
                    if !all_sync(&bytes) {
                        self.state = Kw2GetState::Done;
                        return Next::Done(bytes);
                    }
                    let read_ms = if now_ms >= self.read_start_ms {
                        now_ms - self.read_start_ms
                    } else {
                        0
                    };
                    if read_ms < SYNC_LATENCY_MS_PER_BYTE * self.len as u64 {
                        self.state = Kw2GetState::Done;
                        Next::Done(bytes)
                    } else if now_ms > self.timeout_ms {
                        self.state = Kw2GetState::Failed;
                        Next::Fail(timed_out_error("get timed out"))
                    } else {
                        self.state = Kw2GetState::RetryPurge;
                        Next::Io(Io::Purge)
                    }
                },
                _ => self.fail_unexpected(),
            },
            Kw2GetState::RetryPurge => match ev {
                Event::Purged { .. } => {
                    self.state = Kw2GetState::ReqSent;
                    Next::Io(Io::Write(kw2_get_request(self.addr, self.len)))
                },
                _ => self.fail_unexpected(),
            },
            _ => self.fail_unexpected(),
        }
    }

    fn fail_unexpected(&mut self) -> (r: Next)
        ensures
            final(self).addr == old(self).addr,
            final(self).len == old(self).len,
            final(self).timeout_ms == old(self).timeout_ms,
            final(self).read_start_ms == old(self).read_start_ms,
            final(self).state is Failed,
            next_fails(r, IoErrorKind::Other),
    {
        self.state = Kw2GetState::Failed;
        Next::Fail(transport_error("unexpected event"))
    }
}

// --------------------------------------------------------------------------
// Writing a register
// --------------------------------------------------------------------------

#[derive(Debug, Clone, Copy, PartialEq, Eq, Structural)]
pub enum Kw2SetState {
    SyncPurge,
    SyncReset,
    SyncAwait,
    SyncDonePurge,
    ReqSent,
    AwaitStatus,
    Done,
    Failed,
}

/// Writing a value to a register: synchronize as for a read, send the write
/// request, and read one status byte; zero confirms the write, anything
/// else has the request sent again, bounded by the connection timeout.
#[derive(Debug)]
pub struct Kw2Set {
    pub addr: u16,
    pub value: Vec<u8>,
    pub timeout_ms: u64,
    pub state: Kw2SetState,
}

impl Kw2Set {
    pub fn new(addr: u16, value: Vec<u8>, timeout_ms: u64) -> (r: (Kw2Set, Io))
        requires
            1 <= value@.len() <= 255,
        ensures
            r.0.addr == addr,
            r.0.value == value,
            r.0.timeout_ms == timeout_ms,
            r.0.state is SyncPurge,
            r.1 is Purge,
    {
        (Kw2Set { addr, value, timeout_ms, state: Kw2SetState::SyncPurge }, Io::Purge)
    }

    pub fn step(&mut self, ev: Event) -> (r: Next)
        requires
            1 <= old(self).value@.len() <= 255,
        ensures
            final(self).addr == old(self).addr,
            final(self).value == old(self).value,
            final(self).timeout_ms == old(self).timeout_ms,
            match old(self).state {
                Kw2SetState::SyncPurge => match ev {
                    Event::Purged { .. } => final(self).state is SyncReset && next_writes(
                        r,
                        seq![RESET],
                    ),
                    _ => final(self).state is Failed && next_fails(r, IoErrorKind::Other),
                },
                Kw2SetState::SyncReset => match ev {
                    Event::Wrote { .. } => final(self).state is SyncAwait && next_reads(r, 1),
                    _ => final(self).state is Failed && next_fails(r, IoErrorKind::Other),
                },
                Kw2SetState::SyncAwait => match ev {
                    Event::Read { bytes, now_ms } => if bytes@ == seq![SYNC] {
                        final(self).state is SyncDonePurge && next_purges(r)
                    } else if now_ms > old(self).timeout_ms {
                        final(self).state is Failed && next_fails(r, IoErrorKind::TimedOut)
                    } else {
                        final(self).state is SyncReset && next_writes(r, seq![RESET])
                    },
                    Event::ReadFailed { now_ms } => if now_ms > old(self).timeout_ms {
                        final(self).state is Failed && next_fails(r, IoErrorKind::TimedOut)
                    } else {
                        final(self).state is SyncReset && next_writes(r, seq![RESET])
                    },
                    _ => final(self).state is Failed && next_fails(r, IoErrorKind::Other),
                },
                Kw2SetState::SyncDonePurge => match ev {
                    Event::Purged { .. } => final(self).state is ReqSent && next_writes(
                        r,
                        spec_kw2_set_request(old(self).addr, old(self).value@),
                    ),
                    _ => final(self).state is Failed && next_fails(r, IoErrorKind::Other),
                },
                Kw2SetState::ReqSent => match ev {
                    Event::Wrote { .. } => final(self).state is AwaitStatus && next_reads(r, 1),
                    _ => final(self).state is Failed && next_fails(r, IoErrorKind::Other),
                },
                Kw2SetState::AwaitStatus => match ev {
                    Event::Read { bytes, now_ms } => if bytes@ == seq![0x00u8] {
                        final(self).state is Done && next_done(r, Seq::empty())
                    } else if now_ms > old(self).timeout_ms {
                        final(self).state is Failed && next_fails(r, IoErrorKind::TimedOut)
                    } else {
                        final(self).state is ReqSent && next_writes(
                            r,
                            spec_kw2_set_request(old(self).addr, old(self).value@),
                        )
                    },
                    _ => final(self).state is Failed && next_fails(r, IoErrorKind::Other),
                },
                _ => final(self).state is Failed && next_fails(r, IoErrorKind::Other),
            },
    {
        match self.state {
            Kw2SetState::SyncPurge => match ev {
                Event::Purged { .. } => {
                    self.state = Kw2SetState::SyncReset;
                    let w = vec![RESET];
                    proof {
                        assert(w@ =~= seq![RESET]);
                    }
                    Next::Io(Io::Write(w))
                },
                _ => self.fail_unexpected(),
            },
            Kw2SetState::SyncReset => match ev {
                Event::Wrote { .. } => {
                    self.state = Kw2SetState::SyncAwait;
                    Next::Io(Io::Read(1))
                },
                _ => self.fail_unexpected(),
            },
            Kw2SetState::SyncAwait => match ev {
                Event::Read { bytes, now_ms } => {
                    let is_sync = bytes.len() == 1 && bytes[0] == SYNC;
                    proof {
                        if is_sync {
                            assert(bytes@ =~= seq![SYNC]);
                        }
                    }
                    if is_sync {
                        self.state = Kw2SetState::SyncDonePurge;
                        Next::Io(Io::Purge)
                    } else if now_ms > self.timeout_ms {
                        self.state = Kw2SetState::Failed;
                        Next::Fail(timed_out_error("sync timed out"))
                    } else {
                        self.state = Kw2SetState::SyncReset;
                        let w = vec![RESET];
                        proof {
                            assert(w@ =~= seq![RESET]);
                        }
                        Next::Io(Io::Write(w))
                    }
                },
                Event::ReadFailed { now_ms } => {
                    if now_ms > self.timeout_ms {
                        self.state = Kw2SetState::Failed;
                        Next::Fail(timed_out_error("sync timed out"))
                    } else {
                        self.state = Kw2SetState::SyncReset;
                        let w = vec![RESET];
                        proof {
                            assert(w@ =~= seq![RESET]);
                        }
                        Next::Io(Io::Write(w))
                    }
                },
                _ => self.fail_unexpected(),
            },
            Kw2SetState::SyncDonePurge => match ev {
                Event::Purged { .. } => {
                    self.state = Kw2SetState::ReqSent;
                    Next::Io(Io::Write(kw2_set_request(self.addr, &self.value)))
                },
                _ => self.fail_unexpected(),
            },
            Kw2SetState::ReqSent => match ev {
                Event::Wrote { .. } => {
                    self.state = Kw2SetState::AwaitStatus;
                    Next::Io(Io::Read(1))
                },
                _ => self.fail_unexpected(),
            },
            Kw2SetState::AwaitStatus => match ev {
                Event::Read { bytes, now_ms } => {
                    let is_ok = bytes.len() == 1 && bytes[0] == 0x00;
                    proof {
                        if is_ok {
                            assert(bytes@ =~= seq![0x00u8]);
                        }
                    }
                    if is_ok {
                        self.state = Kw2SetState::Done;
                        Next::Done(Vec::new())
                    } else if now_ms > self.timeout_ms {
                        self.state = Kw2SetState::Failed;
                        Next::Fail(timed_out_error("set timed out"))
                    } else {
                        self.state = Kw2SetState::ReqSent;
                        Next::Io(Io::Write(kw2_set_request(self.addr, &self.value)))
                    }
                },
                _ => self.fail_unexpected(),
            },
            _ => self.fail_unexpected(),
        }
    }

    fn fail_unexpected(&mut self) -> (r: Next)
        ensures
            final(self).addr == old(self).addr,
            final(self).value == old(self).value,
            final(self).timeout_ms == old(self).timeout_ms,
            final(self).state is Failed,
            next_fails(r, IoErrorKind::Other),
    {
        self.state = Kw2SetState::Failed;
        Next::Fail(transport_error("unexpected event"))
    }
}

impl Kw2 {
    /// Begins a negotiation exchange.
    pub fn negotiate() -> (r: (Kw2Negotiate, Io))
        ensures
            r.0.state is Purging,
            r.1 is Purge,
    {
        Kw2Negotiate::new()
    }

    /// Begins a read exchange for `len` bytes at `addr`.
    pub fn get(addr: u16, len: u8, timeout_ms: u64) -> (r: (Kw2Get, Io))
        requires
            1 <= len,
        ensures
            r.0.addr == addr && r.0.len == len && r.0.timeout_ms == timeout_ms,
            r.0.state is SyncPurge,
            r.1 is Purge,
    {
        Kw2Get::new(addr, len, timeout_ms)
    }

    /// Begins a write exchange carrying `value` to `addr`.
    pub fn set(addr: u16, value: Vec<u8>, timeout_ms: u64) -> (r: (Kw2Set, Io))
        requires
            1 <= value@.len() <= 255,
        ensures
            r.0.addr == addr && r.0.value == value && r.0.timeout_ms == timeout_ms,
            r.0.state is SyncPurge,
            r.1 is Purge,
    {
        Kw2Set::new(addr, value, timeout_ms)
    }
}

} // verus!
