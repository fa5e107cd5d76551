use vstd::prelude::*;

use crate::common::{hex_byte_chars, push_hex_byte};
use crate::types::systime::{spec_systime_text, SysTime};

verus! {

/// The text form of a fault record's bytes: the identifier in upper-case
/// hexadecimal, then the timestamp of the occurrence in parentheses.
pub open spec fn spec_errstate_text(s: Seq<u8>) -> Seq<char> {
    hex_byte_chars(s[0]) + seq![' ', '('] + spec_systime_text(s.subrange(1, 9)) + seq![')']
}

/// A stored fault record in the controller's wire format: one status byte
/// followed by the eight-byte timestamp of the occurrence.
#[derive(Debug, Clone)]
pub struct ErrState {
    raw: [u8; 9],
}

impl View for ErrState {
    type V = Seq<u8>;

    closed spec fn view(&self) -> Seq<u8> {
        self.raw@
    }
}

impl ErrState {
    /// Wraps nine wire bytes as they stand.
    pub fn from_bytes(bytes: &[u8]) -> (r: ErrState)
        requires
            bytes@.len() == 9,
        ensures
            r@ == bytes@,
    {
        let raw: [u8; 9] = [
            bytes[0],
            bytes[1],
            bytes[2],
            bytes[3],
            bytes[4],
            bytes[5],
            bytes[6],
            bytes[7],
            bytes[8],
        ];
        let r = ErrState { raw };
        proof {
            assert(r@ =~= bytes@);
        }
        r
    }

    /// The wire bytes as they stand.
    pub fn to_bytes(&self) -> (r: Vec<u8>)
        ensures
            r@ == self@,
            r@.len() == 9,
    {
        let r = vec![
            self.raw[0],
            self.raw[1],
            self.raw[2],
            self.raw[3],
            self.raw[4],
            self.raw[5],
            self.raw[6],
            self.raw[7],
            self.raw[8],
        ];
        proof {
            assert(r@ =~= self@);
        }
        r
    }

    /// The status byte identifying the fault.
    pub fn id(&self) -> (r: u8)
        ensures
            r == self@[0],
    {
        self.raw[0]
    }

    /// The timestamp of the occurrence.
    pub fn time(&self) -> (r: SysTime)
        ensures
            r@ == self@.subrange(1, 9),
    {
        let bytes = vec![
            self.raw[1],
            self.raw[2],
            self.raw[3],
            self.raw[4],
            self.raw[5],
            self.raw[6],
            self.raw[7],
            self.raw[8],
        ];
        let r = SysTime::from_bytes(bytes.as_slice());
        proof {
            assert(bytes@ =~= self@.subrange(1, 9));
        }
        r
    }

    /// The record in the form `ID (YYYY-MM-DDTHH:MM:SS)`, the identifier in
    /// upper-case hexadecimal.
    pub fn to_text(&self) -> (r: String)
        ensures
            r@ == spec_errstate_text(self@),
    {
        let mut out = String::new();
        proof {
            reveal_strlit(" (");
            reveal_strlit(")");
        }
        push_hex_byte(&mut out, self.raw[0]);
        out.append(" (");
        let time_text = self.time().to_text();
        out.append(time_text.as_str());
        out.append(")");
        proof {
            assert(out@ =~= spec_errstate_text(self@));
        }
        out
    }
}

} // verus!
