use vstd::prelude::*;

use vstd::arithmetic::div_mod::{lemma_fundamental_div_mod, lemma_fundamental_div_mod_converse};

use crate::error::Error;
use crate::types::{CycleTime, ErrState, SysTime};
use crate::types::spec_errstate_text;
use crate::value::Value;

verus! {

// --------------------------------------------------------------------------
// Enum mappings: fixed-width byte pattern <-> string bijections
// --------------------------------------------------------------------------

/// Well-formedness of a mapping table: keys pairwise distinct, values
/// pairwise distinct, and all keys of one width.
pub open spec fn spec_mapping_wf(m: Seq<(Seq<u8>, Seq<char>)>) -> bool {
    &&& forall|i: int, j: int|
        0 <= i < j < m.len() ==> (#[trigger] m[i]).0 != (#[trigger] m[j]).0 && m[i].1 != m[j].1
    &&& forall|i: int| 0 <= i < m.len() ==> (#[trigger] m[i]).0.len() == m[0].0.len()
}

pub open spec fn spec_mapping_has_key(m: Seq<(Seq<u8>, Seq<char>)>, k: Seq<u8>) -> bool {
    exists|i: int| 0 <= i < m.len() && (#[trigger] m[i]).0 == k
}

pub open spec fn spec_mapping_has_value(m: Seq<(Seq<u8>, Seq<char>)>, v: Seq<char>) -> bool {
    exists|i: int| 0 <= i < m.len() && (#[trigger] m[i]).1 == v
}

/// `k` and `v` stand in one entry of `m`.
pub open spec fn spec_mapping_at(m: Seq<(Seq<u8>, Seq<char>)>, k: Seq<u8>, v: Seq<char>) -> bool {
    exists|i: int| 0 <= i < m.len() && (#[trigger] m[i]).0 == k && m[i].1 == v
}

/// The entries of a table as mathematical sequences.
pub open spec fn spec_entries_view(entries: Seq<(Vec<u8>, String)>) -> Seq<(Seq<u8>, Seq<char>)> {
    Seq::new(entries.len(), |i: int| (entries[i].0@, entries[i].1@))
}

/// An immutable byte-pattern <-> string bijection, as a device table carries
/// it for an enumerated register.
#[derive(Debug)]
pub struct EnumMapping {
    entries: Vec<(Vec<u8>, String)>,
}

impl View for EnumMapping {
    type V = Seq<(Seq<u8>, Seq<char>)>;

    closed spec fn view(&self) -> Seq<(Seq<u8>, Seq<char>)> {
        spec_entries_view(self.entries@)
    }
}

fn slice_eq(a: &[u8], b: &[u8]) -> (r: bool)
    ensures
        r == (a@ == b@),
{
    if a.len() != b.len() {
        proof {
            assert(a@.len() != b@.len());
        }
        return false;
    }
    let n = a.len();
    let mut i: usize = 0;
    while i < n
        invariant
            i <= n,
            n == a@.len() && n == b@.len(),
            forall|k: int| 0 <= k < i ==> a@[k] == b@[k],
        decreases n - i,
    {
        if a[i] != b[i] {
            return false;
        }
        i += 1;
    }
    proof {
        assert(a@ =~= b@);
    }
    true
}

impl EnumMapping {
    /// Every mapping that exists is well-formed: `new` accepts no other.
    #[verifier::type_invariant]
    pub open spec fn inv(&self) -> bool {
        spec_mapping_wf(self@)
    }

    /// Builds a mapping table, rejecting one that is no fixed-width
    /// bijection.
    pub fn new(entries: Vec<(Vec<u8>, String)>) -> (r: Result<EnumMapping, Error>)
        ensures
            r is Ok <==> spec_mapping_wf(spec_entries_view(entries@)),
            r matches Ok(m) ==> m@ == spec_entries_view(entries@),
            r matches Err(e) ==> e is InvalidArgument,
    {
        let ghost view = spec_entries_view(entries@);
        let n = entries.len();
        let mut i: usize = 0;
        while i < n
            invariant
                i <= n,
                n == entries@.len(),
                view == spec_entries_view(entries@),
                forall|k: int| 0 <= k < i ==> (#[trigger] view[k]).0.len() == view[0].0.len(),
                forall|a: int, b: int|
                    0 <= a < b < n && a < i ==> (#[trigger] view[a]).0 != (#[trigger] view[b]).0
                        && view[a].1 != view[b].1,
            decreases n - i,
        {
            if entries[i].0.len() != entries[0].0.len() {
                proof {
                    assert(view[i as int].0.len() != view[0].0.len());
                    assert(!spec_mapping_wf(view));
                }
                return Err(
                    Error::InvalidArgument(
                        String::from_str("enum mapping byte patterns must have one width"),
                    ),
                );
            }
            let mut j: usize = i + 1;
            while j < n
                invariant
                    i < j <= n,
                    n == entries@.len(),
                    view == spec_entries_view(entries@),
                    forall|b: int|
                        i < b < j ==> view[i as int].0 != (#[trigger] view[b]).0 && view[i as int].1
                            != view[b].1,
                decreases n - j,
            {
                if slice_eq(entries[i].0.as_slice(), entries[j].0.as_slice()) {
                    proof {
                        assert(view[i as int].0 == view[j as int].0);
                        assert(!spec_mapping_wf(view));
                    }
                    return Err(
                        Error::InvalidArgument(
                            String::from_str("enum mapping byte patterns must be distinct"),
                        ),
                    );
                }
                if entries[i].1.eq(&entries[j].1) {
                    proof {
                        assert(view[i as int].1 == view[j as int].1);
                        assert(!spec_mapping_wf(view));
                    }
                    return Err(
                        Error::InvalidArgument(
                            String::from_str("enum mapping strings must be distinct"),
                        ),
                    );
                }
                j += 1;
            }
            i += 1;
        }
        let m = EnumMapping { entries };
        proof {
            assert(spec_mapping_wf(view));
        }
        Ok(m)
    }

    /// The string an exact byte pattern maps to, if any.
    pub fn find_by_bytes(&self, key: &[u8]) -> (r: Option<&String>)
        ensures
            r is Some <==> spec_mapping_has_key(self@, key@),
            r matches Some(s) ==> spec_mapping_at(self@, key@, s@),
    {
        let n = self.entries.len();
        let mut i: usize = 0;
        while i < n
            invariant
                i <= n,
                n == self@.len(),
                forall|k: int| 0 <= k < i ==> (#[trigger] self@[k]).0 != key@,
            decreases n - i,
        {
            if slice_eq(self.entries[i].0.as_slice(), key) {
                proof {
                    assert(self@[i as int].0 == key@ && self@[i as int].1 == self.entries@[i as int].1@);
                    assert(spec_mapping_has_key(self@, key@));
                }
                return Some(&self.entries[i].1);
            }
            i += 1;
        }
        None
    }

    /// The byte pattern a string maps to, if any.
    pub fn find_by_value(&self, value: &String) -> (r: Option<&Vec<u8>>)
        ensures
            r is Some <==> spec_mapping_has_value(self@, value@),
            r matches Some(b) ==> spec_mapping_at(self@, b@, value@),
    {
        let n = self.entries.len();
        let mut i: usize = 0;
        while i < n
            invariant
                i <= n,
                n == self@.len(),
                forall|k: int| 0 <= k < i ==> (#[trigger] self@[k]).1 != value@,
            decreases n - i,
        {
            if self.entries[i].1.eq(value) {
                proof {
                    assert(self@[i as int].1 == value@ && self@[i as int].0 == self.entries@[i as int].0@);
                    assert(spec_mapping_has_value(self@, value@));
                }
                return Some(&self.entries[i].0);
            }
            i += 1;
        }
        None
    }

    /// The number of entries.
    pub fn len(&self) -> (r: usize)
        ensures
            r == self@.len(),
    {
        self.entries.len()
    }

    /// The width of the byte patterns (0 for an empty table).
    pub fn key_len(&self) -> (r: usize)
        ensures
            self@.len() > 0 ==> r == self@[0].0.len(),
            self@.len() == 0 ==> r == 0,
    {
        if self.entries.len() == 0 {
            0
        } else {
            self.entries[0].0.len()
        }
    }
}

// --------------------------------------------------------------------------
// Little-endian integer readings
// --------------------------------------------------------------------------

/// The unsigned little-endian reading of a byte string.
pub open spec fn le_value(s: Seq<u8>) -> int
    decreases s.len(),
{
    if s.len() == 0 {
        0
    } else {
        s[0] + 256 * le_value(s.subrange(1, s.len() as int))
    }
}

proof fn lemma_le1(s: Seq<u8>)
    requires
        s.len() == 1,
    ensures
        le_value(s) == s[0],
{
    assert(s.subrange(1, 1) =~= Seq::<u8>::empty());
    assert(le_value(s.subrange(1, 1)) == 0);
}

proof fn lemma_le2(s: Seq<u8>)
    requires
        s.len() == 2,
    ensures
        le_value(s) == s[0] + 256 * s[1],
{
    lemma_le1(s.subrange(1, 2));
    assert(s.subrange(1, 2)[0] == s[1]);
}

proof fn lemma_le4(s: Seq<u8>)
    requires
        s.len() == 4,
    ensures
        le_value(s) == s[0] + 256 * s[1] + 65536 * s[2] + 16777216 * s[3],
{
    let t = s.subrange(1, 4);
    lemma_le2(t.subrange(1, 3));
    assert(t.subrange(1, 3) =~= s.subrange(2, 4));
    assert(le_value(t) == t[0] + 256 * le_value(t.subrange(1, 3)));
}

// --------------------------------------------------------------------------
// Unit
// --------------------------------------------------------------------------

/// How a fixed-size byte range decodes to and encodes from a `Value`:
/// a little-endian integer of one of three widths, signed or unsigned, or
/// one of the compound wire layouts.
#[derive(Debug, Clone)]
pub enum Unit {
    I8,
    I16,
    I32,
    U8,
    U16,
    U32,
    SysTime,
    CycleTime,
    ErrState,
}

impl Unit {
    /// The exact byte width of the unit's wire representation.
    pub open spec fn spec_size(&self) -> int {
        match self {
            Unit::I8 => 1,
            Unit::I16 => 2,
            Unit::I32 => 4,
            Unit::U8 => 1,
            Unit::U16 => 2,
            Unit::U32 => 4,
            Unit::SysTime => 8,
            Unit::CycleTime => 8,
            Unit::ErrState => 9,
        }
    }

    pub open spec fn is_int(&self) -> bool {
        match self {
            Unit::I8 | Unit::I16 | Unit::I32 | Unit::U8 | Unit::U16 | Unit::U32 => true,
            _ => false,
        }
    }

    /// The smallest value the unit can carry.
    pub open spec fn spec_min(&self) -> int {
        match self {
            Unit::I8 => -128,
            Unit::I16 => -32768,
            Unit::I32 => -2147483648,
            _ => 0,
        }
    }

    /// The largest value the unit can carry.
    pub open spec fn spec_max(&self) -> int {
        match self {
            Unit::I8 => 127,
            Unit::I16 => 32767,
            Unit::I32 => 2147483647,
            Unit::U8 => 255,
            Unit::U16 => 65535,
            Unit::U32 => 4294967295,
            _ => 0,
        }
    }

    pub fn size(&self) -> (r: usize)
        ensures
            r as int == self.spec_size(),
    {
        match self {
            Unit::I8 => 1,
            Unit::I16 => 2,
            Unit::I32 => 4,
            Unit::U8 => 1,
            Unit::U16 => 2,
            Unit::U32 => 4,
            Unit::SysTime => 8,
            Unit::CycleTime => 8,
            Unit::ErrState => 9,
        }
    }
}

/// The nonnegative remainder of `n` modulo `m`, computed without taking a
/// built-in remainder of a negative operand.
fn mod_pos(n: i64, m: i64) -> (r: i64)
    requires
        2 <= m <= 4294967296,
    ensures
        r as int == (n as int) % (m as int),
        0 <= r < m,
{
    if n >= 0 {
        n % m
    } else {
        let k = (-(n + 1)) % m;
        proof {
            let q = (-(n + 1) as int) / (m as int);
            lemma_fundamental_div_mod(-(n + 1) as int, m as int);
            assert(n as int == (-(q + 1)) * (m as int) + (m - 1 - k)) by (nonlinear_arith)
                requires
                    -(n + 1) as int == (m as int) * q + (k as int),
            ;
            lemma_fundamental_div_mod_converse(n as int, m as int, -(q + 1), m - 1 - k);
        }
        m - 1 - k
    }
}

/// The integer an integer unit reads from its bytes: the little-endian
/// value, reinterpreted as two's complement for the signed widths.
pub open spec fn spec_int_value(u: Unit, s: Seq<u8>) -> int {
    let v = le_value(s);
    match u {
        Unit::I8 => if v >= 128 {
            v - 256
        } else {
            v
        },
        Unit::I16 => if v >= 32768 {
            v - 65536
        } else {
            v
        },
        Unit::I32 => if v >= 2147483648 {
            v - 4294967296
        } else {
            v
        },
        _ => v,
    }
}

/// The bytes an integer unit writes for a value: the value modulo the
/// unit's range, little-endian.
pub open spec fn spec_int_bytes(u: Unit, n: int) -> Seq<u8> {
    match u {
        Unit::I8 | Unit::U8 => seq![(n % 256) as u8],
        Unit::I16 | Unit::U16 => {
            let m = n % 65536;
            seq![(m % 256) as u8, (m / 256) as u8]
        },
        Unit::I32 | Unit::U32 => {
            let m = n % 4294967296;
            seq![(m % 256) as u8, (m / 256 % 256) as u8, (m / 65536 % 256) as u8, (m / 16777216) as u8]
        },
        _ => Seq::empty(),
    }
}

/// Round trip for the integer units: a value within the unit's range,
/// encoded and decoded again, comes back unchanged, and the encoding is
/// exactly `size` bytes long.
pub proof fn lemma_int_round_trip(u: Unit, n: int)
    requires
        u.is_int(),
        u.spec_min() <= n <= u.spec_max(),
    ensures
        spec_int_bytes(u, n).len() == u.spec_size(),
        spec_int_value(u, spec_int_bytes(u, n)) == n,
{
    match u {
        Unit::I8 | Unit::U8 => {
            let s = spec_int_bytes(u, n);
            lemma_le1(s);
        },
        Unit::I16 | Unit::U16 => {
            let s = spec_int_bytes(u, n);
            lemma_le2(s);
        },
        Unit::I32 | Unit::U32 => {
            let s = spec_int_bytes(u, n);
            lemma_le4(s);
            let m = n % 4294967296;
            assert(m % 256 + 256 * (m / 256 % 256) + 65536 * (m / 65536 % 256) + 16777216 * (m
                / 16777216) == m) by (nonlinear_arith)
                requires
                    0 <= m < 4294967296,
            ;
        },
        _ => {},
    }
}

impl Unit {
    /// Decodes the wire bytes of a register into a `Value`.
    ///
    /// A mapping, where one is given, decides alone: the matching string, or
    /// `UnknownEnumVariant` for a byte pattern absent from the table.
    /// Without one, the unit's layout decides, and decoding always succeeds:
    /// integers give `Number`, the compound layouts their own variants, a
    /// fault record its text form.
    pub fn bytes_to_output(&self, bytes: &[u8], mapping: &Option<EnumMapping>) -> (r: Result<
        Value,
        Error,
    >)
        requires
            mapping is None ==> bytes@.len() == self.spec_size(),
        ensures
            mapping matches Some(m) ==> {
                &&& (r is Ok <==> spec_mapping_has_key(m@, bytes@))
                &&& (r matches Ok(v) ==> v matches Value::String(s) && spec_mapping_at(
                    m@,
                    bytes@,
                    s@,
                ))
                &&& (r matches Err(e) ==> e is UnknownEnumVariant)
            },
            mapping is None ==> r is Ok,
            mapping is None ==> match self {
                Unit::SysTime => r matches Ok(v) && v matches Value::SysTime(st) && st@ == bytes@,
                Unit::CycleTime => r matches Ok(v) && v matches Value::CycleTime(ct) && ct@
                    == bytes@,
                Unit::ErrState => r matches Ok(v) && v matches Value::String(s) && s@
                    == spec_errstate_text(bytes@),
                _ => r matches Ok(v) && v matches Value::Number(n) && n as int == spec_int_value(
                    *self,
                    bytes@,
                ),
            },
    {
        if let Some(m) = mapping {
            return match m.find_by_bytes(bytes) {
                Some(s) => Ok(Value::String(s.clone())),
                None => Err(
                    Error::UnknownEnumVariant(
                        String::from_str("no enum mapping found for the byte pattern"),
                    ),
                ),
            };
        }
        match self {
            Unit::SysTime => Ok(Value::SysTime(SysTime::from_bytes(bytes))),
            Unit::CycleTime => Ok(Value::CycleTime(CycleTime::from_bytes(bytes))),
            Unit::ErrState => Ok(Value::String(ErrState::from_bytes(bytes).to_text())),
            Unit::U8 => {
                proof {
                    lemma_le1(bytes@);
                }
                Ok(Value::Number(bytes[0] as i64))
            },
            Unit::I8 => {
                proof {
                    lemma_le1(bytes@);
                }
                let v = bytes[0] as i64;
                Ok(Value::Number(if v >= 128 {
                    v - 256
                } else {
                    v
                }))
            },
            Unit::U16 => {
                proof {
                    lemma_le2(bytes@);
                }
                Ok(Value::Number(bytes[0] as i64 + 256 * bytes[1] as i64))
            },
            Unit::I16 => {
                proof {
                    lemma_le2(bytes@);
                }
                let v = bytes[0] as i64 + 256 * bytes[1] as i64;
                Ok(Value::Number(if v >= 32768 {
                    v - 65536
                } else {
                    v
                }))
            },
            Unit::U32 => {
                proof {
                    lemma_le4(bytes@);
                }
                Ok(
                    Value::Number(
                        bytes[0] as i64 + 256 * bytes[1] as i64 + 65536 * bytes[2] as i64
                            + 16777216 * bytes[3] as i64,
                    ),
                )
            },
            Unit::I32 => {
                proof {
                    lemma_le4(bytes@);
                }
                let v = bytes[0] as i64 + 256 * bytes[1] as i64 + 65536 * bytes[2] as i64
                    + 16777216 * bytes[3] as i64;
                Ok(Value::Number(if v >= 2147483648 {
                    v - 4294967296
                } else {
                    v
                }))
            },
        }
    }

    /// Encodes a `Value` as the wire bytes of a register.
    ///
    /// A mapping, where one is given, decides alone: the byte pattern of the
    /// matching string, or `InvalidArgument` for a string absent from the
    /// table or a non-string value. Without one, the value's kind must match
    /// the unit's layout, else `InvalidArgument`; an integer is narrowed to
    /// the unit's width; a fault record cannot be written back.
    pub fn input_to_bytes(&self, input: &Value, mapping: &Option<EnumMapping>) -> (r: Result<
        Vec<u8>,
        Error,
    >)
        ensures
            mapping matches Some(m) ==> {
                &&& (r is Ok <==> (input is String && spec_mapping_has_value(
                    m@,
                    input->String_0@,
                )))
                &&& (r matches Ok(b) ==> input matches Value::String(s) && spec_mapping_at(
                    m@,
                    b@,
                    s@,
                ))
                &&& (r matches Err(e) ==> e is InvalidArgument)
            },
            mapping is None ==> match self {
                Unit::SysTime => {
                    &&& (r is Ok <==> input is SysTime)
                    &&& (r matches Ok(b) ==> input matches Value::SysTime(st) && b@ == st@)
                },
                Unit::CycleTime => {
                    &&& (r is Ok <==> input is CycleTime)
                    &&& (r matches Ok(b) ==> input matches Value::CycleTime(ct) && b@ == ct@)
                },
                Unit::ErrState => r is Err,
                _ => {
                    &&& (r is Ok <==> input is Number)
                    &&& (r matches Ok(b) ==> input matches Value::Number(n) && b@ == spec_int_bytes(
                        *self,
                        n as int,
                    ))
                },
            },
            mapping is None ==> (r matches Ok(b) ==> b@.len() == self.spec_size()),
            r matches Err(e) ==> e is InvalidArgument,
    {
        if let Some(m) = mapping {
            if let Value::String(s) = input {
                return match m.find_by_value(s) {
                    Some(b) => Ok(b.clone()),
                    None => Err(
                        Error::InvalidArgument(
                            String::from_str("no enum mapping found for the string"),
                        ),
                    ),
                };
            } else {
                return Err(Error::InvalidArgument(String::from_str("expected a string value")));
            }
        }
        match self {
            Unit::SysTime => {
                if let Value::SysTime(st) = input {
                    Ok(st.to_bytes())
                } else {
                    Err(Error::InvalidArgument(String::from_str("expected a systime value")))
                }
            },
            Unit::CycleTime => {
                if let Value::CycleTime(ct) = input {
                    Ok(ct.to_bytes())
                } else {
                    Err(Error::InvalidArgument(String::from_str("expected a cycletime value")))
                }
            },
            Unit::ErrState => {
                Err(Error::InvalidArgument(String::from_str("a fault record cannot be written")))
            },
            _ => {
                if let Value::Number(n) = input {
                    Ok(self.encode_int(*n))
                } else {
                    Err(Error::InvalidArgument(String::from_str("expected a number value")))
                }
            },
        }
    }

    /// The little-endian bytes of `n`, narrowed to the width of an integer
    /// unit.
    fn encode_int(&self, n: i64) -> (r: Vec<u8>)
        requires
            self.is_int(),
        ensures
            r@ == spec_int_bytes(*self, n as int),
            r@.len() == self.spec_size(),
    {
        match self {
            Unit::I8 | Unit::U8 => {
                let m = mod_pos(n, 256);
                let r = vec![m as u8];
                proof {
                    assert(r@ =~= spec_int_bytes(*self, n as int));
                }
                r
            },
            Unit::I16 | Unit::U16 => {
                let m = mod_pos(n, 65536);
                let r = vec![(m % 256) as u8, (m / 256) as u8];
                proof {
                    assert(r@ =~= spec_int_bytes(*self, n as int));
                }
                r
            },
            _ => {
                let m = mod_pos(n, 4294967296);
                let r = vec![
                    (m % 256) as u8,
                    (m / 256 % 256) as u8,
                    (m / 65536 % 256) as u8,
                    (m / 16777216) as u8,
                ];
                proof {
                    assert(r@ =~= spec_int_bytes(*self, n as int));
                }
                r
            },
        }
    }
}

} // verus!
