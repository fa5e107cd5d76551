use vstd::prelude::*;

use crate::error::IoErrorKind;
use crate::protocol::{
    extend_bytes, invalid_data_error, next_done, next_fails, next_reads, next_writes,
    timed_out_error, transport_error, Event, Io, Next, RESET, SYNC,
};

verus! {

pub const LEADIN: u8 = 0x41;

pub const ACK: u8 = 0x06;

pub const NACK: u8 = 0x15;

pub const REQUEST: u8 = 0x00;

pub const RESPONSE: u8 = 0x01;

pub const READDATA: u8 = 0x01;

pub const WRITEDATA: u8 = 0x02;

/// The framed, checksummed telegram wire protocol with explicit ACK/NACK.
///
/// Each operation is an explicit state machine that a driver feeds with
/// events; the machine decides every wire exchange, retry and timeout.
#[derive(Debug)]
pub struct P300;

// --------------------------------------------------------------------------
// Telegram framing
// --------------------------------------------------------------------------

/// The plain sum of a byte string.
pub open spec fn spec_byte_sum(s: Seq<u8>) -> int
    decreases s.len(),
{
    if s.len() == 0 {
        0
    } else {
        spec_byte_sum(s.drop_last()) + s.last()
    }
}

pub proof fn lemma_byte_sum_bound(s: Seq<u8>)
    ensures
        0 <= spec_byte_sum(s) <= 255 * s.len(),
    decreases s.len(),
{
    if s.len() > 0 {
        lemma_byte_sum_bound(s.drop_last());
    }
}

/// The checksum of a telegram: the sum of the payload bytes plus the length
/// byte, truncated to eight bits.
pub open spec fn spec_checksum(payload: Seq<u8>) -> int {
    (payload.len() + spec_byte_sum(payload)) % 256
}

/// Computes the telegram checksum of a payload.
pub fn checksum(payload: &Vec<u8>) -> (r: u8)
    requires
        payload@.len() <= 255,
    ensures
        r as int == spec_checksum(payload@),
{
    let n = payload.len();
    let mut acc: u32 = 0;
    let mut i: usize = 0;
    while i < n
        invariant
            i <= n,
            n == payload@.len() <= 255,
            acc <= 255 * i,
            acc as int == spec_byte_sum(payload@.subrange(0, i as int)),
        decreases n - i,
    {
        let b = payload[i];
        proof {
            assert(payload@.subrange(0, i as int + 1).drop_last() =~= payload@.subrange(
                0,
                i as int,
            ));
        }
        acc = acc + b as u32;
        i += 1;
    }
    proof {
        assert(payload@.subrange(0, n as int) =~= payload@);
    }
    ((acc + n as u32) % 256) as u8
}

/// A complete telegram around a payload: the leadin, the length byte, the
/// payload, and the checksum.
pub open spec fn spec_frame(payload: Seq<u8>) -> Seq<u8> {
    seq![LEADIN, payload.len() as u8] + payload + seq![spec_checksum(payload) as u8]
}

/// Frames a payload as a telegram.
pub fn frame_telegram(payload: &Vec<u8>) -> (r: Vec<u8>)
    requires
        payload@.len() <= 255,
    ensures
        r@ == spec_frame(payload@),
{
    let mut r = vec![LEADIN, payload.len() as u8];
    extend_bytes(&mut r, payload.as_slice());
    let c = checksum(payload);
    r.push(c);
    proof {
        assert(r@ =~= spec_frame(payload@));
    }
    r
}

// --------------------------------------------------------------------------
// Negotiation
// --------------------------------------------------------------------------

/// The capability frame sent once the sync byte appears.
pub open spec fn spec_negotiate_frame() -> Seq<u8> {
    seq![0x16u8, 0x00u8, 0x00u8]
}

fn negotiate_frame() -> (r: Vec<u8>)
    ensures
        r@ == spec_negotiate_frame(),
{
    let r = vec![0x16u8, 0x00u8, 0x00u8];
    proof {
        assert(r@ =~= spec_negotiate_frame());
    }
    r
}

#[derive(Debug, Clone, Copy, PartialEq, Eq, Structural)]
pub enum P300NegotiateState {
    ResetSent,
    AwaitSync,
    FrameSent,
    AwaitFrameStatus,
    Done,
    Failed,
}

/// Connecting: send a reset, await the sync byte, then send the negotiation
/// frame; ACK makes the link ready, NACK has the frame sent again, any other
/// status is fatal. Bounded by the connection timeout.
#[derive(Debug)]
pub struct P300Negotiate {
    pub timeout_ms: u64,
    pub state: P300NegotiateState,
}

impl P300Negotiate {
    pub fn new(timeout_ms: u64) -> (r: (P300Negotiate, Io))
        ensures
            r.0.timeout_ms == timeout_ms,
            r.0.state is ResetSent,
            next_writes(Next::Io(r.1), seq![RESET]),
    {
        let w = vec![RESET];
        proof {
            assert(w@ =~= seq![RESET]);
        }
        (P300Negotiate { timeout_ms, state: P300NegotiateState::ResetSent }, Io::Write(w))
    }

    pub fn step(&mut self, ev: Event) -> (r: Next)
        ensures
            final(self).timeout_ms == old(self).timeout_ms,
            match old(self).state {
                P300NegotiateState::ResetSent => match ev {
                    Event::Wrote { .. } => final(self).state is AwaitSync && next_reads(r, 1),
                    _ => final(self).state is Failed && next_fails(r, IoErrorKind::Other),
                },
                P300NegotiateState::AwaitSync => match ev {
                    Event::Read { bytes, now_ms } => if bytes@ == seq![SYNC] {
                        final(self).state is FrameSent && next_writes(r, spec_negotiate_frame())
                    } else if now_ms > old(self).timeout_ms {
                        final(self).state is Failed && next_fails(r, IoErrorKind::TimedOut)
                    } else {
                        final(self).state is AwaitSync && next_reads(r, 1)
                    },
                    _ => final(self).state is Failed && next_fails(r, IoErrorKind::Other),
                },
                P300NegotiateState::FrameSent => match ev {
                    Event::Wrote { .. } => final(self).state is AwaitFrameStatus && next_reads(
                        r,
                        1,
                    ),
                    _ => final(self).state is Failed && next_fails(r, IoErrorKind::Other),
                },
                P300NegotiateState::AwaitFrameStatus => match ev {
                    Event::Read { bytes, now_ms } => if bytes@ == seq![ACK] {
                        final(self).state is Done && next_done(r, Seq::empty())
                    } else if bytes@ == seq![NACK] {
                        if now_ms > old(self).timeout_ms {
                            final(self).state is Failed && next_fails(r, IoErrorKind::TimedOut)
                        } else {
                            final(self).state is FrameSent && next_writes(
                                r,
                                spec_negotiate_frame(),
                            )
                        }
                    } else {
                        final(self).state is Failed && next_fails(r, IoErrorKind::InvalidData)
                    },
                    _ => final(self).state is Failed && next_fails(r, IoErrorKind::Other),
                },
                _ => final(self).state is Failed && next_fails(r, IoErrorKind::Other),
            },
    {
        match self.state {
            P300NegotiateState::ResetSent => match ev {
                Event::Wrote { .. } => {
                    self.state = P300NegotiateState::AwaitSync;
                    Next::Io(Io::Read(1))
                },
                _ => {
                    self.state = P300NegotiateState::Failed;
                    Next::Fail(transport_error("unexpected event"))
                },
            },
            P300NegotiateState::AwaitSync => match ev {
                Event::Read { bytes, now_ms } => {
                    let is_sync = bytes.len() == 1 && bytes[0] == SYNC;
                    proof {
                        if is_sync {
                            assert(bytes@ =~= seq![SYNC]);
                        }
                    }
                    if is_sync {
                        self.state = P300NegotiateState::FrameSent;
                        Next::Io(Io::Write(negotiate_frame()))
                    } else if now_ms > self.timeout_ms {
                        self.state = P300NegotiateState::Failed;
                        Next::Fail(timed_out_error("negotiate timed out"))
                    } else {
                        Next::Io(Io::Read(1))
                    }
                },
                _ => {
                    self.state = P300NegotiateState::Failed;
                    Next::Fail(transport_error("unexpected event"))
                },
            },
            P300NegotiateState::FrameSent => match ev {
                Event::Wrote { .. } => {
                    self.state = P300NegotiateState::AwaitFrameStatus;
                    Next::Io(Io::Read(1))
                },
                _ => {
                    self.state = P300NegotiateState::Failed;
                    Next::Fail(transport_error("unexpected event"))
                },
            },
            P300NegotiateState::AwaitFrameStatus => match ev {
                Event::Read { bytes, now_ms } => {
                    let is_ack = bytes.len() == 1 && bytes[0] == ACK;
                    let is_nack = bytes.len() == 1 && bytes[0] == NACK;
                    proof {
                        if is_ack {
                            assert(bytes@ =~= seq![ACK]);
                        }
                        if is_nack {
                            assert(bytes@ =~= seq![NACK]);
                        }
                    }
                    if is_ack {
                        self.state = P300NegotiateState::Done;
                        Next::Done(Vec::new())
                    } else if is_nack {
                        if now_ms > self.timeout_ms {
                            self.state = P300NegotiateState::Failed;
                            Next::Fail(timed_out_error("negotiate timed out"))
                        } else {
                            self.state = P300NegotiateState::FrameSent;
                            Next::Io(Io::Write(negotiate_frame()))
                        }
                    } else {
                        self.state = P300NegotiateState::Failed;
                        Next::Fail(invalid_data_error("protocol negotiation failed"))
                    }
                },
                _ => {
                    self.state = P300NegotiateState::Failed;
                    Next::Fail(transport_error("unexpected event"))
                },
            },
            _ => {
                self.state = P300NegotiateState::Failed;
                Next::Fail(transport_error("unexpected event"))
            },
        }
    }
}

// --------------------------------------------------------------------------
// Sending one telegram
// --------------------------------------------------------------------------

#[derive(Debug, Clone, Copy, PartialEq, Eq, Structural)]
pub enum P300WriteTelegramState {
    FrameSent,
    AwaitStatus,
    Done,
    Failed,
}

/// Sending one telegram: write the frame and read one status byte; ACK
/// completes, NACK has the same frame sent again (bounded by the connection
/// timeout), any other status is fatal.
#[derive(Debug)]
pub struct P300WriteTelegram {
    pub payload: Vec<u8>,
    pub timeout_ms: u64,
    pub state: P300WriteTelegramState,
}

impl P300WriteTelegram {
    pub fn new(payload: Vec<u8>, timeout_ms: u64) -> (r: (P300WriteTelegram, Io))
        requires
            payload@.len() <= 255,
        ensures
            r.0.payload == payload,
            r.0.timeout_ms == timeout_ms,
            r.0.state is FrameSent,
            next_writes(Next::Io(r.1), spec_frame(payload@)),
    {
        let frame = frame_telegram(&payload);
        (
            P300WriteTelegram { payload, timeout_ms, state: P300WriteTelegramState::FrameSent },
            Io::Write(frame),
        )
    }

    pub fn step(&mut self, ev: Event) -> (r: Next)
        requires
            old(self).payload@.len() <= 255,
        ensures
            final(self).payload == old(self).payload,
            final(self).timeout_ms == old(self).timeout_ms,
            match old(self).state {
                P300WriteTelegramState::FrameSent => match ev {
                    Event::Wrote { .. } => final(self).state is AwaitStatus && next_reads(r, 1),
                    _ => final(self).state is Failed && next_fails(r, IoErrorKind::Other),
                },
                P300WriteTelegramState::AwaitStatus => match ev {
                    Event::Read { bytes, now_ms } => if bytes@ == seq![ACK] {
                        final(self).state is Done && next_done(r, Seq::empty())
                    } else if bytes@ == seq![NACK] {
                        if now_ms > old(self).timeout_ms {
                            final(self).state is Failed && next_fails(r, IoErrorKind::TimedOut)
                        } else {
                            final(self).state is FrameSent && next_writes(
                                r,
                                spec_frame(old(self).payload@),
                            )
                        }
                    } else {
                        final(self).state is Failed && next_fails(r, IoErrorKind::InvalidData)
                    },
                    _ => final(self).state is Failed && next_fails(r, IoErrorKind::Other),
                },
                _ => final(self).state is Failed && next_fails(r, IoErrorKind::Other),
            },
    {
        match self.state {
            P300WriteTelegramState::FrameSent => match ev {
                Event::Wrote { .. } => {
                    self.state = P300WriteTelegramState::AwaitStatus;
                    Next::Io(Io::Read(1))
                },
                _ => {
                    self.state = P300WriteTelegramState::Failed;
                    Next::Fail(transport_error("unexpected event"))
                },
            },
            P300WriteTelegramState::AwaitStatus => match ev {
                Event::Read { bytes, now_ms } => {
                    let is_ack = bytes.len() == 1 && bytes[0] == ACK;
                    let is_nack = bytes.len() == 1 && bytes[0] == NACK;
                    proof {
                        if is_ack {
                            assert(bytes@ =~= seq![ACK]);
                        }
                        if is_nack {
                            assert(bytes@ =~= seq![NACK]);
                        }
                    }
                    if is_ack {
                        self.state = P300WriteTelegramState::Done;
                        Next::Done(Vec::new())
                    } else if is_nack {
                        if now_ms > self.timeout_ms {
                            self.state = P300WriteTelegramState::Failed;
                            Next::Fail(timed_out_error("send telegram timed out"))
                        } else {
                            self.state = P300WriteTelegramState::FrameSent;
                            Next::Io(Io::Write(frame_telegram(&self.payload)))
                        }
                    } else {
                        self.state = P300WriteTelegramState::Failed;
                        Next::Fail(invalid_data_error("send telegram failed"))
                    }
                },
                _ => {
                    self.state = P300WriteTelegramState::Failed;
                    Next::Fail(transport_error("unexpected event"))
                },
            },
            _ => {
                self.state = P300WriteTelegramState::Failed;
                Next::Fail(transport_error("unexpected event"))
            },
        }
    }
}

// --------------------------------------------------------------------------
// Receiving one telegram
// --------------------------------------------------------------------------

#[derive(Debug, Clone, Copy, PartialEq, Eq, Structural)]
pub enum P300ReadTelegramState {
    AwaitLeadin,
    AwaitLen,
    AwaitPayload,
    AwaitChecksum,
    AckSent,
    NackSent,
    Done,
    Failed,
}

/// Receiving one telegram: read the leadin (fatal if it mismatches), the
/// length byte, the payload and the checksum byte. A matching checksum is
/// acknowledged and completes the exchange; a mismatch has a NACK sent and a
/// fresh telegram read, bounded by the connection timeout.
#[derive(Debug)]
pub struct P300ReadTelegram {
    pub timeout_ms: u64,
    pub len: u8,
    pub payload: Vec<u8>,
    pub state: P300ReadTelegramState,
}

impl P300ReadTelegram {
    pub fn new(timeout_ms: u64) -> (r: (P300ReadTelegram, Io))
        ensures
            r.0.timeout_ms == timeout_ms,
            r.0.state is AwaitLeadin,
            r.0.payload@.len() == 0,
            next_reads(Next::Io(r.1), 1),
    {
        (
            P300ReadTelegram {
                timeout_ms,
                len: 0,
                payload: Vec::new(),
                state: P300ReadTelegramState::AwaitLeadin,
            },
            Io::Read(1),
        )
    }

    pub fn step(&mut self, ev: Event) -> (r: Next)
        requires
            old(self).payload@.len() <= 255,
        ensures
            final(self).timeout_ms == old(self).timeout_ms,
            final(self).payload@.len() <= 255,
            match old(self).state {
                P300ReadTelegramState::AwaitLeadin => match ev {
                    Event::Read { bytes, .. } => if bytes@ == seq![LEADIN] {
                        final(self).state is AwaitLen && next_reads(r, 1)
                    } else {
                        final(self).state is Failed && next_fails(r, IoErrorKind::InvalidData)
                    },
                    _ => final(self).state is Failed && next_fails(r, IoErrorKind::Other),
                },
                P300ReadTelegramState::AwaitLen => match ev {
                    Event::Read { bytes, .. } => if bytes@.len() == 1 {
                        final(self).state is AwaitPayload && final(self).len == bytes@[0]
                            && next_reads(r, bytes@[0] as int)
                    } else {
                        final(self).state is Failed && next_fails(r, IoErrorKind::Other)
                    },
                    _ => final(self).state is Failed && next_fails(r, IoErrorKind::Other),
                },
                P300ReadTelegramState::AwaitPayload => match ev {
                    Event::Read { bytes, .. } => if bytes@.len() == old(self).len as int {
                        final(self).state is AwaitChecksum && final(self).payload@ == bytes@
                            && final(self).len == old(self).len && next_reads(r, 1)
                    } else {
                        final(self).state is Failed && next_fails(r, IoErrorKind::Other)
                    },
                    _ => final(self).state is Failed && next_fails(r, IoErrorKind::Other),
                },
                P300ReadTelegramState::AwaitChecksum => match ev {
                    Event::Read { bytes, .. } => if bytes@ == seq![
                        spec_checksum(old(self).payload@) as u8,
                    ] {
                        final(self).state is AckSent && final(self).payload == old(self).payload
                            && next_writes(r, seq![ACK])
                    } else {
                        final(self).state is NackSent && final(self).payload == old(self).payload
                            && next_writes(r, seq![NACK])
                    },
                    _ => final(self).state is Failed && next_fails(r, IoErrorKind::Other),
                },
                P300ReadTelegramState::AckSent => match ev {
                    Event::Wrote { .. } => final(self).state is Done && next_done(
                        r,
                        old(self).payload@,
                    ),
                    _ => final(self).state is Failed && next_fails(r, IoErrorKind::Other),
                },
                P300ReadTelegramState::NackSent => match ev {
                    Event::Wrote { now_ms } => if now_ms > old(self).timeout_ms {
                        final(self).state is Failed && next_fails(r, IoErrorKind::TimedOut)
                    } else {
                        final(self).state is AwaitLeadin && next_reads(r, 1)
                    },
                    _ => final(self).state is Failed && next_fails(r, IoErrorKind::Other),
                },
                _ => final(self).state is Failed && next_fails(r, IoErrorKind::Other),
            },
    {
        match self.state {
            P300ReadTelegramState::AwaitLeadin => match ev {
                Event::Read { bytes, .. } => {
                    let is_leadin = bytes.len() == 1 && bytes[0] == LEADIN;
                    proof {
                        if is_leadin {
                            assert(bytes@ =~= seq![LEADIN]);
                        }
                    }
                    if is_leadin {
                        self.state = P300ReadTelegramState::AwaitLen;
                        Next::Io(Io::Read(1))
                    } else {
                        self.state = P300ReadTelegramState::Failed;
                        Next::Fail(invalid_data_error("telegram leadin expected"))
                    }
                },
                _ => self.fail_unexpected(),
            },
            P300ReadTelegramState::AwaitLen => match ev {
                Event::Read { bytes, .. } => {
                    if bytes.len() == 1 {
                        self.len = bytes[0];
                        self.state = P300ReadTelegramState::AwaitPayload;
                        Next::Io(Io::Read(self.len as usize))
                    } else {
                        self.state = P300ReadTelegramState::Failed;
                        Next::Fail(transport_error("short read"))
                    }
                },
                _ => self.fail_unexpected(),
            },
            P300ReadTelegramState::AwaitPayload => match ev {
                Event::Read { bytes, .. } => {
                    if bytes.len() == self.len as usize {
                        self.payload = bytes;
                        self.state = P300ReadTelegramState::AwaitChecksum;
                        Next::Io(Io::Read(1))
                    } else {
                        self.state = P300ReadTelegramState::Failed;
                        Next::Fail(transport_error("short read"))
                    }
                },
                _ => self.fail_unexpected(),
            },
            P300ReadTelegramState::AwaitChecksum => match ev {
                Event::Read { bytes, .. } => {
                    let expected = checksum(&self.payload);
                    let matches_sum = bytes.len() == 1 && bytes[0] == expected;
                    proof {
                        if matches_sum {
                            assert(bytes@ =~= seq![spec_checksum(self.payload@) as u8]);
                        }
                    }
                    if matches_sum {
                        self.state = P300ReadTelegramState::AckSent;
                        let w = vec![ACK];
                        proof {
                            assert(w@ =~= seq![ACK]);
                        }
                        Next::Io(Io::Write(w))
                    } else {
                        self.state = P300ReadTelegramState::NackSent;
                        let w = vec![NACK];
                        proof {
                            assert(w@ =~= seq![NACK]);
                        }
                        Next::Io(Io::Write(w))
                    }
                },
                _ => self.fail_unexpected(),
            },
            P300ReadTelegramState::AckSent => match ev {
                Event::Wrote { .. } => {
                    self.state = P300ReadTelegramState::Done;
                    let out = self.payload.clone();
                    Next::Done(out)
                },
                _ => self.fail_unexpected(),
            },
            P300ReadTelegramState::NackSent => match ev {
                Event::Wrote { now_ms } => {
                    if now_ms > self.timeout_ms {
                        self.state = P300ReadTelegramState::Failed;
                        Next::Fail(timed_out_error("read telegram timed out"))
                    } else {
                        self.state = P300ReadTelegramState::AwaitLeadin;
                        Next::Io(Io::Read(1))
                    }
                },
                _ => self.fail_unexpected(),
            },
            _ => self.fail_unexpected(),
        }
    }

    fn fail_unexpected(&mut self) -> (r: Next)
        ensures
            final(self).timeout_ms == old(self).timeout_ms,
            final(self).len == old(self).len,
            final(self).payload == old(self).payload,
            final(self).state is Failed,
            next_fails(r, IoErrorKind::Other),
    {
        self.state = P300ReadTelegramState::Failed;
        Next::Fail(transport_error("unexpected event"))
    }
}

// --------------------------------------------------------------------------
// Reading a register
// --------------------------------------------------------------------------

/// The payload of a read request telegram.
pub open spec fn spec_p300_get_request(addr: u16, len: u8) -> Seq<u8> {
    seq![REQUEST, READDATA, (addr / 256) as u8, (addr % 256) as u8, len]
}

/// The payload of a write request telegram.
pub open spec fn spec_p300_set_request(addr: u16, value: Seq<u8>) -> Seq<u8> {
    seq![REQUEST, WRITEDATA, (addr / 256) as u8, (addr % 256) as u8, value.len() as u8] + value
}

/// A well-formed response to a read request: the right length, the response
/// header for read data, the echoed address, and the echoed length.
pub open spec fn spec_get_response_ok(msg: Seq<u8>, addr: u16, len: u8) -> bool {
    &&& msg.len() == 5 + len
    &&& msg[0] == RESPONSE
    &&& msg[1] == READDATA
    &&& msg[2] == (addr / 256) as u8
    &&& msg[3] == (addr % 256) as u8
    &&& msg[4] == len
}

/// A well-formed response to a write request: five bytes, the response
/// header for write data, the echoed address, and the accepted length.
pub open spec fn spec_set_response_ok(msg: Seq<u8>, addr: u16, value_len: u8) -> bool {
    &&& msg.len() == 5
    &&& msg[0] == RESPONSE
    &&& msg[1] == WRITEDATA
    &&& msg[2] == (addr / 256) as u8
    &&& msg[3] == (addr % 256) as u8
    &&& msg[4] == value_len
}

#[derive(Debug, Clone, Copy, PartialEq, Eq, Structural)]
pub enum P300GetState {
    FrameSent,
    AwaitSendStatus,
    AwaitLeadin,
    AwaitLen,
    AwaitPayload,
    AwaitChecksum,
    AckSent,
    NackSent,
    Done,
    Failed,
}

/// Reading `len` bytes at a register: send the read request telegram, then
/// receive the response telegram and validate it against the request.
///
/// A checksum mismatch in the response has a NACK sent and a fresh telegram
/// read (bounded by the connection timeout); a structural mismatch in a
/// checksum-confirmed response is fatal and not retried.
#[derive(Debug)]
pub struct P300Get {
    pub addr: u16,
    pub len: u8,
    pub timeout_ms: u64,
    pub rlen: u8,
    pub payload: Vec<u8>,
    pub state: P300GetState,
}

impl P300Get {
    pub fn new(addr: u16, len: u8, timeout_ms: u64) -> (r: (P300Get, Io))
        requires
            1 <= len,
        ensures
            r.0.addr == addr,
            r.0.len == len,
            r.0.timeout_ms == timeout_ms,
            r.0.state is FrameSent,
            r.0.payload@.len() == 0,
            next_writes(Next::Io(r.1), spec_frame(spec_p300_get_request(addr, len))),
    {
        let request = vec![REQUEST, READDATA, (addr / 256) as u8, (addr % 256) as u8, len];
        proof {
            assert(request@ =~= spec_p300_get_request(addr, len));
        }
        let frame = frame_telegram(&request);
        (
            P300Get {
                addr,
                len,
                timeout_ms,
                rlen: 0,
                payload: Vec::new(),
                state: P300GetState::FrameSent,
            },
            Io::Write(frame),
        )
    }

    pub fn step(&mut self, ev: Event) -> (r: Next)
        requires
            old(self).payload@.len() <= 255,
        ensures
            final(self).addr == old(self).addr,
            final(self).len == old(self).len,
            final(self).timeout_ms == old(self).timeout_ms,
            final(self).payload@.len() <= 255,
            match old(self).state {
                P300GetState::FrameSent => match ev {
                    Event::Wrote { .. } => final(self).state is AwaitSendStatus && next_reads(
                        r,
                        1,
                    ),
                    _ => final(self).state is Failed && next_fails(r, IoErrorKind::Other),
                },
                P300GetState::AwaitSendStatus => match ev {
                    Event::Read { bytes, now_ms } => if bytes@ == seq![ACK] {
                        final(self).state is AwaitLeadin && next_reads(r, 1)
                    } else if bytes@ == seq![NACK] {
                        if now_ms > old(self).timeout_ms {
                            final(self).state is Failed && next_fails(r, IoErrorKind::TimedOut)
                        } else {
                            final(self).state is FrameSent && next_writes(
                                r,
                                spec_frame(spec_p300_get_request(old(self).addr, old(self).len)),
                            )
                        }
                    } else {
                        final(self).state is Failed && next_fails(r, IoErrorKind::InvalidData)
                    },
                    _ => final(self).state is Failed && next_fails(r, IoErrorKind::Other),
                },
                P300GetState::AwaitLeadin => match ev {
                    Event::Read { bytes, .. } => if bytes@ == seq![LEADIN] {
                        final(self).state is AwaitLen && next_reads(r, 1)
                    } else {
                        final(self).state is Failed && next_fails(r, IoErrorKind::InvalidData)
                    },
                    _ => final(self).state is Failed && next_fails(r, IoErrorKind::Other),
                },
                P300GetState::AwaitLen => match ev {
                    Event::Read { bytes, .. } => if bytes@.len() == 1 {
                        final(self).state is AwaitPayload && final(self).rlen == bytes@[0]
                            && next_reads(r, bytes@[0] as int)
                    } else {
                        final(self).state is Failed && next_fails(r, IoErrorKind::Other)
                    },
                    _ => final(self).state is Failed && next_fails(r, IoErrorKind::Other),
                },
                P300GetState::AwaitPayload => match ev {
                    Event::Read { bytes, .. } => if bytes@.len() == old(self).rlen as int {
                        final(self).state is AwaitChecksum && final(self).payload@ == bytes@
                            && next_reads(r, 1)
                    } else {
                        final(self).state is Failed && next_fails(r, IoErrorKind::Other)
                    },
                    _ => final(self).state is Failed && next_fails(r, IoErrorKind::Other),
                },
                P300GetState::AwaitChecksum => match ev {
                    Event::Read { bytes, .. } => if bytes@ == seq![
                        spec_checksum(old(self).payload@) as u8,
                    ] {
                        final(self).state is AckSent && final(self).payload == old(self).payload
                            && next_writes(r, seq![ACK])
                    } else {
                        final(self).state is NackSent && next_writes(r, seq![NACK])
                    },
                    _ => final(self).state is Failed && next_fails(r, IoErrorKind::Other),
                },
                P300GetState::AckSent => match ev {
                    Event::Wrote { .. } => if spec_get_response_ok(
                        old(self).payload@,
                        old(self).addr,
                        old(self).len,
                    ) {
                        final(self).state is Done && next_done(
                            r,
                            old(self).payload@.subrange(5, 5 + old(self).len as int),
                        )
                    } else {
                        final(self).state is Failed && next_fails(r, IoErrorKind::InvalidData)
                    },
                    _ => final(self).state is Failed && next_fails(r, IoErrorKind::Other),
                },
                P300GetState::NackSent => match ev {
                    Event::Wrote { now_ms } => if now_ms > old(self).timeout_ms {
                        final(self).state is Failed && next_fails(r, IoErrorKind::TimedOut)
                    } else {
                        final(self).state is AwaitLeadin && next_reads(r, 1)
                    },
                    _ => final(self).state is Failed && next_fails(r, IoErrorKind::Other),
                },
                _ => final(self).state is Failed && next_fails(r, IoErrorKind::Other),
            },
    {
        match self.state {
            P300GetState::FrameSent => match ev {
                Event::Wrote { .. } => {
                    self.state = P300GetState::AwaitSendStatus;
                    Next::Io(Io::Read(1))
                },
                _ => self.fail_unexpected(),
            },
            P300GetState::AwaitSendStatus => match ev {
                Event::Read { bytes, now_ms } => {
                    let is_ack = bytes.len() == 1 && bytes[0] == ACK;
                    let is_nack = bytes.len() == 1 && bytes[0] == NACK;
                    proof {
                        if is_ack {
                            assert(bytes@ =~= seq![ACK]);
                        }
                        if is_nack {
                            assert(bytes@ =~= seq![NACK]);
                        }
                    }
                    if is_ack {
                        self.state = P300GetState::AwaitLeadin;
                        Next::Io(Io::Read(1))
                    } else if is_nack {
                        if now_ms > self.timeout_ms {
                            self.state = P300GetState::Failed;
                            Next::Fail(timed_out_error("send telegram timed out"))
                        } else {
                            self.state = P300GetState::FrameSent;
                            let request = vec![
                                REQUEST,
                                READDATA,
                                (self.addr / 256) as u8,
                                (self.addr % 256) as u8,
                                self.len,
                            ];
                            proof {
                                assert(request@ =~= spec_p300_get_request(self.addr, self.len));
                            }
                            Next::Io(Io::Write(frame_telegram(&request)))
                        }
                    } else {
                        self.state = P300GetState::Failed;
                        Next::Fail(invalid_data_error("send telegram failed"))
                    }
                },
                _ => self.fail_unexpected(),
            },
            P300GetState::AwaitLeadin => match ev {
                Event::Read { bytes, .. } => {
                    let is_leadin = bytes.len() == 1 && bytes[0] == LEADIN;
                    proof {
                        if is_leadin {
                            assert(bytes@ =~= seq![LEADIN]);
                        }
                    }
                    if is_leadin {
                        self.state = P300GetState::AwaitLen;
                        Next::Io(Io::Read(1))
                    } else {
                        self.state = P300GetState::Failed;
                        Next::Fail(invalid_data_error("telegram leadin expected"))
                    }
                },
                _ => self.fail_unexpected(),
            },
            P300GetState::AwaitLen => match ev {
                Event::Read { bytes, .. } => {
                    if bytes.len() == 1 {
                        self.rlen = bytes[0];
                        self.state = P300GetState::AwaitPayload;
                        Next::Io(Io::Read(self.rlen as usize))
                    } else {
                        self.state = P300GetState::Failed;
                        Next::Fail(transport_error("short read"))
                    }
                },
                _ => self.fail_unexpected(),
            },
            P300GetState::AwaitPayload => match ev {
                Event::Read { bytes, .. } => {
                    if bytes.len() == self.rlen as usize {
                        self.payload = bytes;
                        self.state = P300GetState::AwaitChecksum;
                        Next::Io(Io::Read(1))
                    } else {
                        self.state = P300GetState::Failed;
                        Next::Fail(transport_error("short read"))
                    }
                },
                _ => self.fail_unexpected(),
            },
            P300GetState::AwaitChecksum => match ev {
                Event::Read { bytes, .. } => {
                    let expected = checksum(&self.payload);
                    let matches_sum = bytes.len() == 1 && bytes[0] == expected;
                    proof {
                        if matches_sum {
                            assert(bytes@ =~= seq![spec_checksum(self.payload@) as u8]);
                        }
                    }
                    if matches_sum {
                        self.state = P300GetState::AckSent;
                        let w = vec![ACK];
                        proof {
                            assert(w@ =~= seq![ACK]);
                        }
                        Next::Io(Io::Write(w))
                    } else {
                        self.state = P300GetState::NackSent;
                        let w = vec![NACK];
                        proof {
                            assert(w@ =~= seq![NACK]);
                        }
                        Next::Io(Io::Write(w))
                    }
                },
                _ => self.fail_unexpected(),
            },
            P300GetState::AckSent => match ev {
                Event::Wrote { .. } => {
                    let msg = &self.payload;
                    let expected_len = 5usize + self.len as usize;
                    if msg.len() != expected_len {
                        self.state = P300GetState::Failed;
                        return Next::Fail(invalid_data_error("unexpected response length"));
                    }
                    if !(msg[0] == RESPONSE && msg[1] == READDATA) {
                        self.state = P300GetState::Failed;
                        return Next::Fail(invalid_data_error("invalid read data response"));
                    }
                    if !(msg[2] == (self.addr / 256) as u8 && msg[3] == (self.addr % 256) as u8) {
                        self.state = P300GetState::Failed;
                        return Next::Fail(invalid_data_error("wrong address"));
                    }
                    if msg[4] != self.len {
                        self.state = P300GetState::Failed;
                        return Next::Fail(invalid_data_error("wrong data length"));
                    }
                    let mut out: Vec<u8> = Vec::new();
                    let mut i: usize = 5;
                    while i < expected_len
                        invariant
                            5 <= i <= expected_len,
                            expected_len == self.payload@.len(),
                            out@ == self.payload@.subrange(5, i as int),
                        decreases expected_len - i,
                    {
                        let b = self.payload[i];
                        out.push(b);
                        proof {
                            assert(out@ =~= self.payload@.subrange(5, i as int + 1));
                        }
                        i += 1;
                    }
                    self.state = P300GetState::Done;
                    Next::Done(out)
                },
                _ => self.fail_unexpected(),
            },
            P300GetState::NackSent => match ev {
                Event::Wrote { now_ms } => {
                    if now_ms > self.timeout_ms {
                        self.state = P300GetState::Failed;
                        Next::Fail(timed_out_error("read telegram timed out"))
                    } else {
                        self.state = P300GetState::AwaitLeadin;
                        Next::Io(Io::Read(1))
                    }
                },
                _ => self.fail_unexpected(),
            },
            _ => self.fail_unexpected(),
        }
    }

    fn fail_unexpected(&mut self) -> (r: Next)
        ensures
            final(self).addr == old(self).addr,
            final(self).len == old(self).len,
            final(self).timeout_ms == old(self).timeout_ms,
            final(self).rlen == old(self).rlen,
            final(self).payload == old(self).payload,
            final(self).state is Failed,
            next_fails(r, IoErrorKind::Other),
    {
        self.state = P300GetState::Failed;
        Next::Fail(transport_error("unexpected event"))
    }
}

// --------------------------------------------------------------------------
// Writing a register
// --------------------------------------------------------------------------

#[derive(Debug, Clone, Copy, PartialEq, Eq, Structural)]
pub enum P300SetState {
    FrameSent,
    AwaitSendStatus,
    AwaitLeadin,
    AwaitLen,
    AwaitPayload,
    AwaitChecksum,
    AckSent,
    NackSent,
    Done,
    Failed,
}

/// Writing a value to a register: send the write request telegram, then
/// receive the response telegram and check that the device accepted the
/// write.
#[derive(Debug)]
pub struct P300Set {
    pub addr: u16,
    pub value: Vec<u8>,
    pub timeout_ms: u64,
    pub rlen: u8,
    pub payload: Vec<u8>,
    pub state: P300SetState,
}

impl P300Set {
    pub fn new(addr: u16, value: Vec<u8>, timeout_ms: u64) -> (r: (P300Set, Io))
        requires
            1 <= value@.len() <= 250,
        ensures
            r.0.addr == addr,
            r.0.value == value,
            r.0.timeout_ms == timeout_ms,
            r.0.state is FrameSent,
            r.0.payload@.len() == 0,
            next_writes(Next::Io(r.1), spec_frame(spec_p300_set_request(addr, value@))),
    {
        let request = Self::request(addr, &value);
        let frame = frame_telegram(&request);
        (
            P300Set {
                addr,
                value,
                timeout_ms,
                rlen: 0,
                payload: Vec::new(),
                state: P300SetState::FrameSent,
            },
            Io::Write(frame),
        )
    }

    fn request(addr: u16, value: &Vec<u8>) -> (r: Vec<u8>)
        requires
            1 <= value@.len() <= 250,
        ensures
            r@ == spec_p300_set_request(addr, value@),
            r@.len() <= 255,
    {
        let mut r = vec![
            REQUEST,
            WRITEDATA,
            (addr / 256) as u8,
            (addr % 256) as u8,
            value.len() as u8,
        ];
        extend_bytes(&mut r, value.as_slice());
        proof {
            assert(r@ =~= spec_p300_set_request(addr, value@));
        }
        r
    }

    pub fn step(&mut self, ev: Event) -> (r: Next)
        requires
            1 <= old(self).value@.len() <= 250,
            old(self).payload@.len() <= 255,
        ensures
            final(self).addr == old(self).addr,
            final(self).value == old(self).value,
            final(self).timeout_ms == old(self).timeout_ms,
            final(self).payload@.len() <= 255,
            match old(self).state {
                P300SetState::FrameSent => match ev {
                    Event::Wrote { .. } => final(self).state is AwaitSendStatus && next_reads(
                        r,
                        1,
                    ),
                    _ => final(self).state is Failed && next_fails(r, IoErrorKind::Other),
                },
                P300SetState::AwaitSendStatus => match ev {
                    Event::Read { bytes, now_ms } => if bytes@ == seq![ACK] {
                        final(self).state is AwaitLeadin && next_reads(r, 1)
                    } else if bytes@ == seq![NACK] {
                        if now_ms > old(self).timeout_ms {
                            final(self).state is Failed && next_fails(r, IoErrorKind::TimedOut)
                        } else {
                            final(self).state is FrameSent && next_writes(
                                r,
                                spec_frame(
                                    spec_p300_set_request(old(self).addr, old(self).value@),
                                ),
                            )
                        }
                    } else {
                        final(self).state is Failed && next_fails(r, IoErrorKind::InvalidData)
                    },
                    _ => final(self).state is Failed && next_fails(r, IoErrorKind::Other),
                },
                P300SetState::AwaitLeadin => match ev {
                    Event::Read { bytes, .. } => if bytes@ == seq![LEADIN] {
                        final(self).state is AwaitLen && next_reads(r, 1)
                    } else {
                        final(self).state is Failed && next_fails(r, IoErrorKind::InvalidData)
                    },
                    _ => final(self).state is Failed && next_fails(r, IoErrorKind::Other),
                },
                P300SetState::AwaitLen => match ev {
                    Event::Read { bytes, .. } => if bytes@.len() == 1 {
                        final(self).state is AwaitPayload && final(self).rlen == bytes@[0]
                            && next_reads(r, bytes@[0] as int)
                    } else {
                        final(self).state is Failed && next_fails(r, IoErrorKind::Other)
                    },
                    _ => final(self).state is Failed && next_fails(r, IoErrorKind::Other),
                },
                P300SetState::AwaitPayload => match ev {
                    Event::Read { bytes, .. } => if bytes@.len() == old(self).rlen as int {
                        final(self).state is AwaitChecksum && final(self).payload@ == bytes@
                            && next_reads(r, 1)
                    } else {
                        final(self).state is Failed && next_fails(r, IoErrorKind::Other)
                    },
                    _ => final(self).state is Failed && next_fails(r, IoErrorKind::Other),
                },
                P300SetState::AwaitChecksum => match ev {
                    Event::Read { bytes, .. } => if bytes@ == seq![
                        spec_checksum(old(self).payload@) as u8,
                    ] {
                        final(self).state is AckSent && final(self).payload == old(self).payload
                            && next_writes(r, seq![ACK])
                    } else {
                        final(self).state is NackSent && next_writes(r, seq![NACK])
                    },
                    _ => final(self).state is Failed && next_fails(r, IoErrorKind::Other),
                },
                P300SetState::AckSent => match ev {
                    Event::Wrote { .. } => if spec_set_response_ok(
                        old(self).payload@,
                        old(self).addr,
                        old(self).value@.len() as u8,
                    ) {
                        final(self).state is Done && next_done(r, Seq::empty())
                    } else {
                        final(self).state is Failed && next_fails(r, IoErrorKind::InvalidData)
                    },
                    _ => final(self).state is Failed && next_fails(r, IoErrorKind::Other),
                },
                P300SetState::NackSent => match ev {
                    Event::Wrote { now_ms } => if now_ms > old(self).timeout_ms {
                        final(self).state is Failed && next_fails(r, IoErrorKind::TimedOut)
                    } else {
                        final(self).state is AwaitLeadin && next_reads(r, 1)
                    },
                    _ => final(self).state is Failed && next_fails(r, IoErrorKind::Other),
                },
                _ => final(self).state is Failed && next_fails(r, IoErrorKind::Other),
            },
    {
        match self.state {
            P300SetState::FrameSent => match ev {
                Event::Wrote { .. } => {
                    self.state = P300SetState::AwaitSendStatus;
                    Next::Io(Io::Read(1))
                },
                _ => self.fail_unexpected(),
            },
            P300SetState::AwaitSendStatus => match ev {
                Event::Read { bytes, now_ms } => {
                    let is_ack = bytes.len() == 1 && bytes[0] == ACK;
                    let is_nack = bytes.len() == 1 && bytes[0] == NACK;
                    proof {
                        if is_ack {
                            assert(bytes@ =~= seq![ACK]);
                        }
                        if is_nack {
                            assert(bytes@ =~= seq![NACK]);
                        }
                    }
                    if is_ack {
                        self.state = P300SetState::AwaitLeadin;
                        Next::Io(Io::Read(1))
                    } else if is_nack {
                        if now_ms > self.timeout_ms {
                            self.state = P300SetState::Failed;
                            Next::Fail(timed_out_error("send telegram timed out"))
                        } else {
                            self.state = P300SetState::FrameSent;
                            let request = Self::request(self.addr, &self.value);
                            Next::Io(Io::Write(frame_telegram(&request)))
                        }
                    } else {
                        self.state = P300SetState::Failed;
                        Next::Fail(invalid_data_error("send telegram failed"))
                    }
                },
                _ => self.fail_unexpected(),
            },
            P300SetState::AwaitLeadin => match ev {
                Event::Read { bytes, .. } => {
                    let is_leadin = bytes.len() == 1 && bytes[0] == LEADIN;
                    proof {
                        if is_leadin {
                            assert(bytes@ =~= seq![LEADIN]);
                        }
                    }
                    if is_leadin {
                        self.state = P300SetState::AwaitLen;
                        Next::Io(Io::Read(1))
                    } else {
                        self.state = P300SetState::Failed;
                        Next::Fail(invalid_data_error("telegram leadin expected"))
                    }
                },
                _ => self.fail_unexpected(),
            },
            P300SetState::AwaitLen => match ev {
                Event::Read { bytes, .. } => {
                    if bytes.len() == 1 {
                        self.rlen = bytes[0];
                        self.state = P300SetState::AwaitPayload;
                        Next::Io(Io::Read(self.rlen as usize))
                    } else {
                        self.state = P300SetState::Failed;
                        Next::Fail(transport_error("short read"))
                    }
                },
                _ => self.fail_unexpected(),
            },
            P300SetState::AwaitPayload => match ev {
                Event::Read { bytes, .. } => {
                    if bytes.len() == self.rlen as usize {
                        self.payload = bytes;
                        self.state = P300SetState::AwaitChecksum;
                        Next::Io(Io::Read(1))
                    } else {
                        self.state = P300SetState::Failed;
                        Next::Fail(transport_error("short read"))
                    }
                },
                _ => self.fail_unexpected(),
            },
            P300SetState::AwaitChecksum => match ev {
                Event::Read { bytes, .. } => {
                    let expected = checksum(&self.payload);
                    let matches_sum = bytes.len() == 1 && bytes[0] == expected;
                    proof {
                        if matches_sum {
                            assert(bytes@ =~= seq![spec_checksum(self.payload@) as u8]);
                        }
                    }
                    if matches_sum {
                        self.state = P300SetState::AckSent;
                        let w = vec![ACK];
                        proof {
                            assert(w@ =~= seq![ACK]);
                        }
                        Next::Io(Io::Write(w))
                    } else {
                        self.state = P300SetState::NackSent;
                        let w = vec![NACK];
                        proof {
                            assert(w@ =~= seq![NACK]);
                        }
                        Next::Io(Io::Write(w))
                    }
                },
                _ => self.fail_unexpected(),
            },
            P300SetState::AckSent => match ev {
                Event::Wrote { .. } => {
                    let msg = &self.payload;
                    if msg.len() != 5 {
                        self.state = P300SetState::Failed;
                        return Next::Fail(invalid_data_error("unexpected response length"));
                    }
                    if !(msg[0] == RESPONSE && msg[1] == WRITEDATA) {
                        self.state = P300SetState::Failed;
                        return Next::Fail(invalid_data_error("invalid write data response"));
                    }
                    if !(msg[2] == (self.addr / 256) as u8 && msg[3] == (self.addr % 256) as u8) {
                        self.state = P300SetState::Failed;
                        return Next::Fail(invalid_data_error("wrong address"));
                    }
                    if msg[4] != self.value.len() as u8 {
                        self.state = P300SetState::Failed;
                        return Next::Fail(invalid_data_error("could not write data"));
                    }
                    self.state = P300SetState::Done;
                    Next::Done(Vec::new())
                },
                _ => self.fail_unexpected(),
            },
            P300SetState::NackSent => match ev {
                Event::Wrote { now_ms } => {
                    if now_ms > self.timeout_ms {
                        self.state = P300SetState::Failed;
                        Next::Fail(timed_out_error("read telegram timed out"))
                    } else {
                        self.state = P300SetState::AwaitLeadin;
                        Next::Io(Io::Read(1))
                    }
                },
                _ => self.fail_unexpected(),
            },
            _ => self.fail_unexpected(),
        }
    }

    fn fail_unexpected(&mut self) -> (r: Next)
        ensures
            final(self).addr == old(self).addr,
            final(self).value == old(self).value,
            final(self).timeout_ms == old(self).timeout_ms,
            final(self).rlen == old(self).rlen,
            final(self).payload == old(self).payload,
            final(self).state is Failed,
            next_fails(r, IoErrorKind::Other),
    {
        self.state = P300SetState::Failed;
        Next::Fail(transport_error("unexpected event"))
    }
}

impl P300 {
    /// Begins a negotiation exchange.
    pub fn negotiate(timeout_ms: u64) -> (r: (P300Negotiate, Io))
        ensures
            r.0.timeout_ms == timeout_ms,
            r.0.state is ResetSent,
            next_writes(Next::Io(r.1), seq![RESET]),
    {
        P300Negotiate::new(timeout_ms)
    }

    /// Begins an exchange that sends one telegram around `payload`.
    pub fn write_telegram(payload: Vec<u8>, timeout_ms: u64) -> (r: (P300WriteTelegram, Io))
        requires
            payload@.len() <= 255,
        ensures
            r.0.payload == payload,
            r.0.timeout_ms == timeout_ms,
            r.0.state is FrameSent,
            next_writes(Next::Io(r.1), spec_frame(payload@)),
    {
        P300WriteTelegram::new(payload, timeout_ms)
    }

    /// Begins an exchange that receives one telegram.
    pub fn read_telegram(timeout_ms: u64) -> (r: (P300ReadTelegram, Io))
        ensures
            r.0.timeout_ms == timeout_ms,
            r.0.state is AwaitLeadin,
            r.0.payload@.len() == 0,
            next_reads(Next::Io(r.1), 1),
    {
        P300ReadTelegram::new(timeout_ms)
    }

    /// Begins a read exchange for `len` bytes at `addr`.
    pub fn get(addr: u16, len: u8, timeout_ms: u64) -> (r: (P300Get, Io))
        requires
            1 <= len,
        ensures
            r.0.addr == addr && r.0.len == len && r.0.timeout_ms == timeout_ms,
            r.0.state is FrameSent,
            r.0.payload@.len() == 0,
            next_writes(Next::Io(r.1), spec_frame(spec_p300_get_request(addr, len))),
    {
        P300Get::new(addr, len, timeout_ms)
    }

    /// Begins a write exchange carrying `value` to `addr`.
    pub fn set(addr: u16, value: Vec<u8>, timeout_ms: u64) -> (r: (P300Set, Io))
        requires
            1 <= value@.len() <= 250,
        ensures
            r.0.addr == addr && r.0.value == value && r.0.timeout_ms == timeout_ms,
            r.0.state is FrameSent,
            r.0.payload@.len() == 0,
            next_writes(Next::Io(r.1), spec_frame(spec_p300_set_request(addr, value@))),
    {
        P300Set::new(addr, value, timeout_ms)
    }
}

} // verus!
