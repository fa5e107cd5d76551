use vstd::prelude::*;

use crate::command::Command;
use crate::device::{spec_device_find, spec_device_has, Device, ProtocolKind};
use crate::unit::Unit;
use crate::error::Error;
use crate::protocol::{
    next_writes, spec_frame, spec_p300_get_request, spec_p300_set_request, Io, Kw2, Kw2Get,
    Kw2Negotiate, Kw2Set, Next, P300, P300Get, P300Negotiate, P300Set, RESET,
};
use crate::value::Value;

verus! {

/// The default connection timeout, in milliseconds, bounding every
/// synchronization and retry loop of an exchange.
pub const DEFAULT_TIMEOUT_MS: u64 = 60000;

/// A pending negotiation exchange, for whichever protocol the device speaks.
#[derive(Debug)]
pub enum NegotiateExchange {
    Kw2(Kw2Negotiate),
    P300(P300Negotiate),
}

/// A pending read exchange, for whichever protocol the device speaks.
#[derive(Debug)]
pub enum GetExchange {
    Kw2(Kw2Get),
    P300(P300Get),
}

/// A pending write exchange, for whichever protocol the device speaks.
#[derive(Debug)]
pub enum SetExchange {
    Kw2(Kw2Set),
    P300(P300Set),
}

/// The value bytes a pending write exchange will carry.
pub open spec fn spec_exchange_value(x: SetExchange) -> Seq<u8> {
    match x {
        SetExchange::Kw2(ms) => ms.value@,
        SetExchange::P300(ms) => ms.value@,
    }
}

/// The input is a value the command can encode: with a mapping, a string in
/// the table; without one, a value whose kind matches the unit's layout (a
/// fault record cannot be written).
pub open spec fn spec_value_encodes(cmd: Command, input: Value) -> bool {
    match cmd.spec_mapping() {
        Some(mm) => input matches Value::String(s) && crate::unit::spec_mapping_has_value(mm, s@),
        None => match cmd.spec_unit() {
            Unit::SysTime => input is SysTime,
            Unit::CycleTime => input is CycleTime,
            Unit::ErrState => false,
            _ => input is Number,
        },
    }
}

/// The bytes of a write exchange encode `input` for the command's unit, or
/// stand against it in the command's mapping.
pub open spec fn spec_set_value_ok(cmd: Command, input: Value, bytes: Seq<u8>) -> bool {
    match cmd.spec_mapping() {
        Some(mm) => input matches Value::String(s) && crate::unit::spec_mapping_at(mm, bytes, s@),
        None => match cmd.spec_unit() {
            Unit::SysTime => input matches Value::SysTime(st) && bytes == st@,
            Unit::CycleTime => input matches Value::CycleTime(ct) && bytes == ct@,
            Unit::ErrState => false,
            _ => input matches Value::Number(n) && bytes == crate::unit::spec_int_bytes(
                cmd.spec_unit(),
                n as int,
            ),
        },
    }
}

/// The orchestrator: binds one device's command table to one connection's
/// exchanges. Looking up a command, checking its access mode and encoding
/// or decoding its value happen here, before any byte leaves for the wire;
/// a name absent from the table or a forbidden direction never reaches the
/// transport.
#[derive(Debug)]
pub struct VControl {
    device: Device,
    timeout_ms: u64,
}

impl VControl {
    pub closed spec fn spec_device(&self) -> Device {
        self.device
    }

    pub closed spec fn spec_timeout_ms(&self) -> u64 {
        self.timeout_ms
    }

    /// Binds a device table, with the default connection timeout.
    pub fn new(device: Device) -> (r: VControl)
        ensures
            r.spec_device() == device,
            r.spec_timeout_ms() == DEFAULT_TIMEOUT_MS,
    {
        VControl { device, timeout_ms: DEFAULT_TIMEOUT_MS }
    }

    /// Binds a device table with an explicit connection timeout.
    pub fn with_timeout(device: Device, timeout_ms: u64) -> (r: VControl)
        ensures
            r.spec_device() == device,
            r.spec_timeout_ms() == timeout_ms,
    {
        VControl { device, timeout_ms }
    }

    pub fn device(&self) -> (r: &Device)
        ensures
            *r == self.spec_device(),
    {
        &self.device
    }

    /// Begins the one-time protocol negotiation for this device.
    pub fn negotiate_exchange(&self) -> (r: (NegotiateExchange, Io))
        ensures
            self.spec_device().spec_protocol() is Kw2 ==> (r.0 matches NegotiateExchange::Kw2(mn)
                && mn.state is Purging && r.1 is Purge),
            self.spec_device().spec_protocol() is P300 ==> (r.0 matches NegotiateExchange::P300(mn)
                && mn.state is ResetSent && mn.timeout_ms == self.spec_timeout_ms() && next_writes(
                Next::Io(r.1),
                seq![RESET],
            )),
    {
        match self.device.protocol() {
            ProtocolKind::Kw2 => {
                let (m, io) = Kw2::negotiate();
                (NegotiateExchange::Kw2(m), io)
            },
            ProtocolKind::P300 => {
                let (m, io) = P300::negotiate(self.timeout_ms);
                (NegotiateExchange::P300(m), io)
            },
        }
    }

    /// Begins the wire exchange that reads the named command's block.
    ///
    /// A name absent from the table yields `UnsupportedCommand`, a command
    /// that does not permit reading `UnsupportedMode`; neither builds an
    /// exchange.
    pub fn get_exchange(&self, command: &str) -> (r: Result<(GetExchange, Io), Error>)
        ensures
            ({
                let m = self.spec_device()@;
                let cmd = spec_device_find(m, command@);
                &&& (!spec_device_has(m, command@) ==> (r matches Err(e) && e
                    is UnsupportedCommand))
                &&& (spec_device_has(m, command@) && !(cmd.spec_mode() is Read
                    || cmd.spec_mode() is ReadWrite) ==> (r matches Err(e) && e
                    is UnsupportedMode))
                &&& (spec_device_has(m, command@) && (cmd.spec_mode() is Read
                    || cmd.spec_mode() is ReadWrite) ==> (r matches Ok(x) && match x.0 {
                    GetExchange::Kw2(mg) => self.spec_device().spec_protocol() is Kw2 && mg.addr
                        == cmd.spec_addr() && mg.len as int == cmd.spec_block_len()
                        && mg.timeout_ms == self.spec_timeout_ms() && mg.state is SyncPurge
                        && x.1 is Purge,
                    GetExchange::P300(mg) => self.spec_device().spec_protocol() is P300 && mg.addr
                        == cmd.spec_addr() && mg.len as int == cmd.spec_block_len()
                        && mg.timeout_ms == self.spec_timeout_ms() && mg.state is FrameSent
                        && mg.payload@.len() == 0 && next_writes(
                        Next::Io(x.1),
                        spec_frame(spec_p300_get_request(cmd.spec_addr(), cmd.spec_block_len() as u8)),
                    ),
                }))
            }),
    {
        let cmd = match self.device.command(command) {
            Some(c) => c,
            None => {
                let mut msg = String::from_str("command ");
                msg.append(command);
                msg.append(" is not supported");
                return Err(Error::UnsupportedCommand(msg));
            },
        };
        let (addr, block_len) = match cmd.read_plan() {
            Ok(p) => p,
            Err(e) => {
                return Err(e);
            },
        };
        match self.device.protocol() {
            ProtocolKind::Kw2 => {
                let (m, io) = Kw2::get(addr, block_len as u8, self.timeout_ms);
                Ok((GetExchange::Kw2(m), io))
            },
            ProtocolKind::P300 => {
                let (m, io) = P300::get(addr, block_len as u8, self.timeout_ms);
                Ok((GetExchange::P300(m), io))
            },
        }
    }

    /// Decodes the block an exchange read for the named command.
    ///
    /// The block must be as long as the command's plan asked; any other
    /// length is `InvalidArgument`.
    pub fn get_decode(&self, command: &str, block: &[u8]) -> (r: Result<Value, Error>)
        ensures
            ({
                let m = self.spec_device()@;
                let cmd = spec_device_find(m, command@);
                let work = cmd.spec_work_bytes(block@);
                &&& (!spec_device_has(m, command@) ==> (r matches Err(e) && e
                    is UnsupportedCommand))
                &&& (spec_device_has(m, command@) && block@.len() != cmd.spec_block_len() ==> (r
                    matches Err(e) && e is InvalidArgument))
                &&& (spec_device_has(m, command@) && block@.len() == cmd.spec_block_len() ==> {
                    &&& (cmd.spec_mapping() matches Some(mm) ==> {
                        &&& (r is Ok <==> crate::unit::spec_mapping_has_key(mm, work))
                        &&& (r matches Ok(v) ==> v matches Value::String(s)
                            && crate::unit::spec_mapping_at(mm, work, s@))
                        &&& (r matches Err(e) ==> e is UnknownEnumVariant)
                    })
                    &&& (cmd.spec_mapping() is None ==> r is Ok)
                    &&& (cmd.spec_mapping() is None ==> match cmd.spec_unit() {
                        Unit::SysTime => r matches Ok(v) && v matches Value::SysTime(st) && st@
                            == work,
                        Unit::CycleTime => r matches Ok(v) && v matches Value::CycleTime(ct)
                            && ct@ == work,
                        Unit::ErrState => r matches Ok(v) && v matches Value::String(s) && s@
                            == crate::types::spec_errstate_text(work),
                        _ => r matches Ok(v) && v matches Value::Number(n) && n as int
                            == crate::unit::spec_int_value(cmd.spec_unit(), work),
                    })
                })
            }),
    {
        let cmd = match self.device.command(command) {
            Some(c) => c,
            None => {
                let mut msg = String::from_str("command ");
                msg.append(command);
                msg.append(" is not supported");
                return Err(Error::UnsupportedCommand(msg));
            },
        };
        if block.len() != cmd.block_len() {
            return Err(
                Error::InvalidArgument(
                    String::from_str("block length does not match the command"),
                ),
            );
        }
        cmd.get_decode(block)
    }

    /// Begins the wire exchange that writes a value to the named command.
    ///
    /// A name absent from the table yields `UnsupportedCommand`, a command
    /// that does not permit writing `UnsupportedMode`, a value that does not
    /// encode for the command's unit `InvalidArgument`; none of these builds
    /// an exchange.
    pub fn set_exchange(&self, command: &str, input: &Value) -> (r: Result<(SetExchange, Io), Error>)
        ensures
            ({
                let m = self.spec_device()@;
                let cmd = spec_device_find(m, command@);
                &&& (!spec_device_has(m, command@) ==> (r matches Err(e) && e
                    is UnsupportedCommand))
                &&& (spec_device_has(m, command@) && !(cmd.spec_mode() is Write
                    || cmd.spec_mode() is ReadWrite) ==> (r matches Err(e) && e
                    is UnsupportedMode))
                &&& (spec_device_has(m, command@) && (cmd.spec_mode() is Write || cmd.spec_mode()
                    is ReadWrite) && spec_value_encodes(cmd, *input) && (
                self.spec_device().spec_protocol() is P300 ==> cmd.spec_byte_len() <= 250)
                    ==> r is Ok)
                &&& (r matches Ok(x) ==> (spec_device_has(m, command@) && spec_set_value_ok(
                    cmd,
                    *input,
                    spec_exchange_value(x.0),
                ) && match x.0 {
                    SetExchange::Kw2(ms) => self.spec_device().spec_protocol() is Kw2 && ms.addr
                        == cmd.spec_addr() && ms.timeout_ms == self.spec_timeout_ms() && ms.state
                        is SyncPurge && 1 <= ms.value@.len() <= 255 && x.1 is Purge,
                    SetExchange::P300(ms) => self.spec_device().spec_protocol() is P300 && ms.addr
                        == cmd.spec_addr() && ms.timeout_ms == self.spec_timeout_ms() && ms.state
                        is FrameSent && 1 <= ms.value@.len() <= 250 && ms.payload@.len() == 0
                        && next_writes(
                        Next::Io(x.1),
                        spec_frame(spec_p300_set_request(cmd.spec_addr(), ms.value@)),
                    ),
                }))
                &&& (r matches Err(e) ==> (e is UnsupportedCommand || e is UnsupportedMode || e
                    is InvalidArgument))
            }),
    {
        let cmd = match self.device.command(command) {
            Some(c) => c,
            None => {
                let mut msg = String::from_str("command ");
                msg.append(command);
                msg.append(" is not supported");
                return Err(Error::UnsupportedCommand(msg));
            },
        };
        let (addr, bytes) = match cmd.write_plan(input) {
            Ok(p) => p,
            Err(e) => {
                return Err(e);
            },
        };
        match self.device.protocol() {
            ProtocolKind::Kw2 => {
                let (m, io) = Kw2::set(addr, bytes, self.timeout_ms);
                Ok((SetExchange::Kw2(m), io))
            },
            ProtocolKind::P300 => {
                if bytes.len() > 250 {
                    return Err(
                        Error::InvalidArgument(
                            String::from_str("encoded value does not fit one telegram"),
                        ),
                    );
                }
                let (m, io) = P300::set(addr, bytes, self.timeout_ms);
                Ok((SetExchange::P300(m), io))
            },
        }
    }
}

} // verus!
