use vstd::prelude::*;

verus! {

/// A switching time: an hour and a minute of the day.
#[derive(Debug, Clone, Copy, PartialEq, Eq)]
pub struct Time {
    pub hour: u8,
    pub minute: u8,
}

/// One of the four daily switching windows; an unset boundary is `None`.
#[derive(Debug, Clone, Copy, PartialEq, Eq)]
pub struct TimeSpan {
    pub from: Option<Time>,
    pub to: Option<Time>,
}

/// A daily cycle schedule in the controller's wire format: four
/// (start, end) pairs of packed bytes, each byte `(hour << 3) | (minute / 10)`
/// with `0xFF` meaning "unset".
#[derive(Debug, Clone)]
pub struct CycleTime {
    raw: [u8; 8],
}

impl View for CycleTime {
    type V = Seq<u8>;

    closed spec fn view(&self) -> Seq<u8> {
        self.raw@
    }
}

/// The switching time a packed byte holds: `None` for `0xFF`, else the hour
/// in the upper five bits and the minute, in steps of ten, in the lower three.
pub open spec fn spec_byte_to_time(b: u8) -> Option<Time> {
    if b == 0xff {
        None
    } else {
        Some(Time { hour: (b / 8) as u8, minute: ((b % 8) * 10) as u8 })
    }
}

impl CycleTime {
    /// Wraps eight wire bytes as they stand.
    pub fn from_bytes(bytes: &[u8]) -> (r: CycleTime)
        requires
            bytes@.len() == 8,
        ensures
            r@ == bytes@,
    {
        let raw: [u8; 8] = [
            bytes[0],
            bytes[1],
            bytes[2],
            bytes[3],
            bytes[4],
            bytes[5],
            bytes[6],
            bytes[7],
        ];
        let r = CycleTime { raw };
        proof {
            assert(r@ =~= bytes@);
        }
        r
    }

    /// The wire bytes as they stand.
    pub fn to_bytes(&self) -> (r: Vec<u8>)
        ensures
            r@ == self@,
            r@.len() == 8,
    {
        let r = vec![
            self.raw[0],
            self.raw[1],
            self.raw[2],
            self.raw[3],
            self.raw[4],
            self.raw[5],
            self.raw[6],
            self.raw[7],
        ];
        proof {
            assert(r@ =~= self@);
        }
        r
    }

    /// Decodes the packed byte at position `i`.
    pub fn byte_to_time(&self, i: usize) -> (r: Option<Time>)
        requires
            i < 8,
        ensures
            r == spec_byte_to_time(self@[i as int]),
    {
        let b = self.raw[i];
        if b == 0xff {
            None
        } else {
            let hour = b >> 3;
            let low = b & 0b111;
            proof {
                assert(b >> 3 == b / 8 && (b & 0b111) == b % 8) by (bit_vector);
            }
            let minute = low * 10;
            Some(Time { hour, minute })
        }
    }

    /// The four switching windows, in order; each boundary decodes from its
    /// own byte.
    pub fn times(&self) -> (r: Vec<TimeSpan>)
        ensures
            r@.len() == 4,
            forall|k: int|
                0 <= k < 4 ==> (#[trigger] r@[k]).from == spec_byte_to_time(self@[2 * k])
                    && r@[k].to == spec_byte_to_time(self@[2 * k + 1]),
    {
        let r = vec![
            TimeSpan { from: self.byte_to_time(0), to: self.byte_to_time(1) },
            TimeSpan { from: self.byte_to_time(2), to: self.byte_to_time(3) },
            TimeSpan { from: self.byte_to_time(4), to: self.byte_to_time(5) },
            TimeSpan { from: self.byte_to_time(6), to: self.byte_to_time(7) },
        ];
        r
    }
}

} // verus!
