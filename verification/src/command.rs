use vstd::prelude::*;

use vstd::arithmetic::div_mod::{
    lemma_breakdown, lemma_div_by_multiple, lemma_div_denominator,
    lemma_fundamental_div_mod_converse, lemma_truncate_middle,
};
use vstd::arithmetic::power2::{lemma2_to64, lemma_pow2_adds, pow2};

use crate::common::push_hex_byte;
use crate::error::Error;
use crate::unit::{
    spec_mapping_at, spec_mapping_has_key, spec_mapping_has_value, EnumMapping, Unit,
};
use crate::value::Value;

verus! {

// --------------------------------------------------------------------------
// Access modes
// --------------------------------------------------------------------------

/// Which directions of access a command permits.
#[derive(Debug, Clone, Copy, PartialEq, Eq, Structural)]
pub enum AccessMode {
    Read,
    Write,
    ReadWrite,
}

impl AccessMode {
    pub fn is_read(self) -> (r: bool)
        ensures
            r == (self is Read || self is ReadWrite),
    {
        match self {
            AccessMode::Read | AccessMode::ReadWrite => true,
            _ => false,
        }
    }

    pub fn is_write(self) -> (r: bool)
        ensures
            r == (self is Write || self is ReadWrite),
    {
        match self {
            AccessMode::Write | AccessMode::ReadWrite => true,
            _ => false,
        }
    }
}

// --------------------------------------------------------------------------
// Bit-field extraction
// --------------------------------------------------------------------------

/// The byte the wire logic synthesizes for a bit-sliced field: the source
/// byte shifted left by `off` (dropping what leaves the byte), then shifted
/// right so that `len` bits remain.
pub open spec fn spec_bit_extract(b: u8, off: int, len: int) -> int {
    (b * pow2(off as nat) % 256) / pow2((8 - len) as nat) as int
}

/// Bit `k` of a byte, counted from the most significant bit (`k = 0`).
pub open spec fn bit_of(b: u8, k: int) -> bool {
    (b as int / pow2((7 - k) as nat) as int) % 2 == 1
}

/// The value of the `len` bits starting at bit `off`, read most significant
/// first.
pub open spec fn bits_value(b: u8, off: int, len: int) -> int
    decreases len,
{
    if len <= 0 {
        0
    } else {
        2 * bits_value(b, off, len - 1) + if bit_of(b, off + len - 1) {
            1int
        } else {
            0int
        }
    }
}

/// Extraction in closed form: the extracted byte is the source byte shifted
/// down past the bits right of the field, modulo the field's range.
proof fn lemma_bit_extract_div_mod(b: u8, off: int, len: int)
    requires
        0 <= off,
        1 <= len,
        off + len <= 8,
    ensures
        spec_bit_extract(b, off, len) == (b as int / pow2((8 - off - len) as nat) as int) % pow2(
            len as nat,
        ) as int,
{
    let s = (8 - off - len) as nat;
    let p_off = pow2(off as nat) as int;
    let p_s = pow2(s) as int;
    let p_len = pow2(len as nat) as int;
    let p_rest = pow2((8 - off) as nat) as int;
    lemma2_to64();
    lemma_pow2_adds(off as nat, (8 - off) as nat);
    lemma_pow2_adds(off as nat, s);
    lemma_pow2_adds(s, len as nat);
    // b * 2^off mod 2^8  ==  2^off * (b mod 2^(8-off))
    lemma_truncate_middle(b as int, p_off, p_rest);
    assert(b * p_off == p_off * b as int);
    assert(b * p_off % 256 == p_off * (b as int % p_rest));
    // dividing by 2^(8-len) = 2^off * 2^s peels the two factors in turn
    lemma_div_denominator(p_off * (b as int % p_rest), p_off, p_s);
    lemma_div_by_multiple(b as int % p_rest, p_off);
    assert(p_off * (b as int % p_rest) == (b as int % p_rest) * p_off);
    assert((p_off * (b as int % p_rest)) / p_off == b as int % p_rest);
    assert(spec_bit_extract(b, off, len) == (b as int % p_rest) / p_s);
    // b mod 2^(s+len), divided by 2^s, is (b / 2^s) mod 2^len
    lemma_breakdown(b as int, p_s, p_len);
    assert(b as int % p_rest == p_s * ((b as int / p_s) % p_len) + b as int % p_s);
    lemma_fundamental_div_mod_converse(
        b as int % p_rest,
        p_s,
        (b as int / p_s) % p_len,
        b as int % p_s,
    );
}

/// The extracted byte reads the `len` bits at `off` most significant first:
/// its value is exactly the value of those bits.
pub proof fn lemma_bit_extraction(b: u8, off: int, len: int)
    requires
        0 <= off,
        1 <= len,
        off + len <= 8,
    ensures
        spec_bit_extract(b, off, len) == bits_value(b, off, len),
    decreases len,
{
    let s = (8 - off - len) as nat;
    lemma_bit_extract_div_mod(b, off, len);
    lemma2_to64();
    if len == 1 {
        assert(bits_value(b, off, 0) == 0);
        assert(bits_value(b, off, 1) == if bit_of(b, off) {
            1int
        } else {
            0int
        });
        assert((b as int / pow2(s) as int) % 2 == if bit_of(b, off) {
            1int
        } else {
            0int
        });
    } else {
        lemma_bit_extraction(b, off, len - 1);
        lemma_bit_extract_div_mod(b, off, len - 1);
        let x = b as int / pow2(s) as int;
        lemma_pow2_adds(s, 1);
        lemma_div_denominator(b as int, pow2(s) as int, 2);
        assert(b as int / pow2(s + 1) as int == x / 2);
        lemma_breakdown(x, 2, pow2((len - 1) as nat) as int);
        lemma_pow2_adds(1, (len - 1) as nat);
        assert(2 * pow2((len - 1) as nat) == pow2(len as nat));
        assert(x % pow2(len as nat) as int == 2 * ((x / 2) % pow2((len - 1) as nat) as int) + x
            % 2);
        assert(bit_of(b, off + len - 1) == ((b as int / pow2((7 - (off + len - 1)) as nat) as int)
            % 2 == 1));
        assert((7 - (off + len - 1)) as nat == s);
    }
}

/// Bytes that agree on the bits of the field extract to the same value: the
/// other bits do not matter.
pub proof fn lemma_bit_extraction_independent(b1: u8, b2: u8, off: int, len: int)
    requires
        0 <= off,
        1 <= len,
        off + len <= 8,
        forall|k: int| off <= k < off + len ==> bit_of(b1, k) == bit_of(b2, k),
    ensures
        spec_bit_extract(b1, off, len) == spec_bit_extract(b2, off, len),
    decreases len,
{
    lemma_bit_extraction(b1, off, len);
    lemma_bit_extraction(b2, off, len);
    lemma_bits_value_window(b1, b2, off, len);
}

proof fn lemma_bits_value_window(b1: u8, b2: u8, off: int, len: int)
    requires
        forall|k: int| off <= k < off + len ==> bit_of(b1, k) == bit_of(b2, k),
    ensures
        bits_value(b1, off, len) == bits_value(b2, off, len),
    decreases len,
{
    if len > 0 {
        lemma_bits_value_window(b1, b2, off, len - 1);
    }
}

fn pow2_u16(e: usize) -> (r: u16)
    requires
        e <= 7,
    ensures
        r as int == pow2(e as nat) as int,
        1 <= r <= 128,
{
    proof {
        lemma2_to64();
    }
    match e {
        0 => 1,
        1 => 2,
        2 => 4,
        3 => 8,
        4 => 16,
        5 => 32,
        6 => 64,
        _ => 128,
    }
}

/// Isolates the `len`-bit field at bit offset `off` of a byte.
fn extract_bits(byte: u8, off: usize, len: usize) -> (r: u8)
    requires
        off <= 7,
        1 <= len <= 8,
        off + len <= 8,
    ensures
        r as int == spec_bit_extract(byte, off as int, len as int),
{
    let p = pow2_u16(off);
    proof {
        assert((byte as u32) * (p as u32) <= 255 * 128) by (nonlinear_arith)
            requires
                byte as u32 <= 255,
                p as u32 <= 128,
        ;
    }
    let t = ((byte as u32) * (p as u32)) % 256;
    let q = pow2_u16(8 - len);
    let r = (t / (q as u32)) as u8;
    r
}

// --------------------------------------------------------------------------
// Command
// --------------------------------------------------------------------------

/// A named operation on one device register: its address, access mode,
/// decoding unit and byte/bit sub-addressing within the fetched block.
#[derive(Debug)]
pub struct Command {
    addr: u16,
    mode: AccessMode,
    unit: Unit,
    block_len: usize,
    byte_len: usize,
    byte_pos: usize,
    bit_pos: Option<usize>,
    bit_len: usize,
    mapping: Option<EnumMapping>,
}

/// The width of a mapping's byte patterns, where one is given and non-empty;
/// a check against it only binds in that case.
pub open spec fn spec_map_width(m: Option<Seq<(Seq<u8>, Seq<char>)>>) -> Option<int> {
    match m {
        Some(v) => if v.len() > 0 {
            Some(v[0].0.len() as int)
        } else {
            None
        },
        None => None,
    }
}

/// The geometry a command must satisfy: the decoded range lies inside the
/// fetched block, a bit-sliced field fits inside one byte of it, and the
/// decoded width is the width the unit (or the mapping) expects.
pub open spec fn spec_geometry_ok(
    unit: Unit,
    block_len: int,
    byte_len: int,
    byte_pos: int,
    bit_pos: Option<usize>,
    bit_len: int,
    has_mapping: bool,
    map_width: Option<int>,
) -> bool {
    &&& 1 <= block_len <= 255
    &&& match bit_pos {
        Some(p) => {
            &&& p / 8 < block_len
            &&& 1 <= bit_len
            &&& p % 8 + bit_len <= 8
            &&& byte_pos == 0
            &&& byte_len == 1
            &&& (!has_mapping ==> unit.spec_size() == 1)
            &&& (map_width matches Some(w) ==> w == 1)
        },
        None => {
            &&& 1 <= byte_len
            &&& byte_pos + byte_len <= block_len
            &&& (!has_mapping ==> byte_len == unit.spec_size())
            &&& (map_width matches Some(w) ==> w == byte_len)
        },
    }
}

impl Command {
    #[verifier::type_invariant]
    closed spec fn inv(&self) -> bool {
        &&& spec_geometry_ok(
            self.unit,
            self.block_len as int,
            self.byte_len as int,
            self.byte_pos as int,
            self.bit_pos,
            self.bit_len as int,
            self.mapping is Some,
            spec_map_width(
                match self.mapping {
                    Some(m) => Some(m@),
                    None => None,
                },
            ),
        )
        &&& (self.mapping matches Some(m) ==> crate::unit::spec_mapping_wf(m@))
    }

    pub closed spec fn spec_addr(&self) -> u16 {
        self.addr
    }

    pub closed spec fn spec_mode(&self) -> AccessMode {
        self.mode
    }

    pub closed spec fn spec_unit(&self) -> Unit {
        self.unit
    }

    pub closed spec fn spec_block_len(&self) -> int {
        self.block_len as int
    }

    pub closed spec fn spec_byte_len(&self) -> int {
        self.byte_len as int
    }

    pub closed spec fn spec_byte_pos(&self) -> int {
        self.byte_pos as int
    }

    pub closed spec fn spec_bit_pos(&self) -> Option<usize> {
        self.bit_pos
    }

    pub closed spec fn spec_bit_len(&self) -> int {
        self.bit_len as int
    }

    pub closed spec fn spec_mapping(&self) -> Option<Seq<(Seq<u8>, Seq<char>)>> {
        match self.mapping {
            Some(m) => Some(m@),
            None => None,
        }
    }

    /// Builds a command, rejecting byte/bit geometry that does not fit the
    /// block or the unit's width. Omitted lengths default to the unit's size
    /// (`byte_len`), one bit (`bit_len`), and the smallest block that holds
    /// the addressed range (`block_len`).
    pub fn new(
        addr: u16,
        mode: AccessMode,
        unit: Unit,
        block_len: Option<usize>,
        byte_len: Option<usize>,
        byte_pos: usize,
        bit_pos: Option<usize>,
        bit_len: Option<usize>,
        mapping: Option<EnumMapping>,
    ) -> (r: Result<Command, Error>)
        ensures
            ({
                let rbyte_len = match byte_len {
                    Some(b) => b as int,
                    None => unit.spec_size(),
                };
                let rbit_len = match bit_len {
                    Some(l) => l as int,
                    None => 1int,
                };
                let rblock_len = match block_len {
                    Some(l) => l as int,
                    None => match bit_pos {
                        Some(p) => p as int / 8 + 1,
                        None => byte_pos + rbyte_len,
                    },
                };
                let mview = match mapping {
                    Some(m) => Some(m@),
                    None => None,
                };
                &&& (r is Ok <==> spec_geometry_ok(
                    unit,
                    rblock_len,
                    rbyte_len,
                    byte_pos as int,
                    bit_pos,
                    rbit_len,
                    mapping is Some,
                    spec_map_width(mview),
                ))
                &&& (r matches Ok(c) ==> {
                    &&& c.spec_addr() == addr
                    &&& c.spec_mode() == mode
                    &&& c.spec_unit() == unit
                    &&& c.spec_block_len() == rblock_len
                    &&& c.spec_byte_len() == rbyte_len
                    &&& c.spec_byte_pos() == byte_pos as int
                    &&& c.spec_bit_pos() == bit_pos
                    &&& c.spec_bit_len() == rbit_len
                    &&& c.spec_mapping() == mview
                })
                &&& (r matches Err(e) ==> e is InvalidArgument)
            }),
    {
        let rbyte_len = match byte_len {
            Some(b) => b,
            None => unit.size(),
        };
        let rbit_len = match bit_len {
            Some(l) => l,
            None => 1,
        };
        let rblock_len = match block_len {
            Some(l) => l,
            None => match bit_pos {
                Some(p) => {
                    if p / 8 >= 255 {
                        return Err(
                            Error::InvalidArgument(
                                String::from_str("command geometry does not fit the block"),
                            ),
                        );
                    }
                    p / 8 + 1
                },
                None => {
                    if byte_pos > 255 || rbyte_len > 255 {
                        return Err(
                            Error::InvalidArgument(
                                String::from_str("command geometry does not fit the block"),
                            ),
                        );
                    }
                    byte_pos + rbyte_len
                },
            },
        };
        let map_width: Option<usize> = match &mapping {
            Some(m) => {
                if m.len() > 0 {
                    Some(m.key_len())
                } else {
                    None
                }
            },
            None => None,
        };
        let geometry_ok: bool = if !(1 <= rblock_len && rblock_len <= 255) {
            false
        } else {
            match bit_pos {
                Some(p) => {
                    p / 8 < rblock_len && 1 <= rbit_len && rbit_len <= 8 && p % 8 + rbit_len <= 8
                        && byte_pos == 0
                        && rbyte_len == 1 && (match &mapping {
                        Some(_) => true,
                        None => unit.size() == 1,
                    }) && (match map_width {
                        Some(w) => w == 1,
                        None => true,
                    })
                },
                None => {
                    1 <= rbyte_len && byte_pos <= rblock_len && rbyte_len <= rblock_len - byte_pos
                        && (match &mapping {
                        Some(_) => true,
                        None => rbyte_len == unit.size(),
                    }) && (match map_width {
                        Some(w) => w == rbyte_len,
                        None => true,
                    })
                },
            }
        };
        if !geometry_ok {
            return Err(
                Error::InvalidArgument(
                    String::from_str("command geometry does not fit the block"),
                ),
            );
        }
        proof {
            match &mapping {
                Some(m) => {
                    use_type_invariant(m);
                },
                None => {},
            }
        }
        Ok(
            Command {
                addr,
                mode,
                unit,
                block_len: rblock_len,
                byte_len: rbyte_len,
                byte_pos,
                bit_pos,
                bit_len: rbit_len,
                mapping,
            },
        )
    }

    pub fn addr(&self) -> (r: u16)
        ensures
            r == self.spec_addr(),
    {
        self.addr
    }

    pub fn block_len(&self) -> (r: usize)
        ensures
            r as int == self.spec_block_len(),
    {
        self.block_len
    }

    pub fn mode(&self) -> (r: AccessMode)
        ensures
            r == self.spec_mode(),
    {
        self.mode
    }

    /// The address and block length to fetch for a read, or
    /// `UnsupportedMode` for a command that does not permit reading.
    pub fn read_plan(&self) -> (r: Result<(u16, usize), Error>)
        ensures
            r is Ok <==> (self.spec_mode() is Read || self.spec_mode() is ReadWrite),
            r matches Ok(p) ==> p.0 == self.spec_addr() && p.1 as int == self.spec_block_len()
                && 1 <= p.1 <= 255,
            r matches Err(e) ==> e is UnsupportedMode,
    {
        proof {
            use_type_invariant(self);
        }
        if !self.mode.is_read() {
            let mut msg = String::from_str("address 0x");
            push_hex_byte(&mut msg, (self.addr / 256) as u8);
            push_hex_byte(&mut msg, (self.addr % 256) as u8);
            msg.append(" does not support reading");
            return Err(Error::UnsupportedMode(msg));
        }
        Ok((self.addr, self.block_len))
    }

    /// The bytes the unit decodes for this command, out of a fetched block:
    /// the synthesized byte of a bit-sliced field, or the addressed byte
    /// range.
    pub open spec fn spec_work_bytes(&self, buf: Seq<u8>) -> Seq<u8> {
        match self.spec_bit_pos() {
            Some(p) => seq![
                spec_bit_extract(buf[p as int / 8], p as int % 8, self.spec_bit_len()) as u8,
            ],
            None => buf.subrange(self.spec_byte_pos(), self.spec_byte_pos() + self.spec_byte_len()),
        }
    }

    /// Decodes a fetched block into a `Value`, applying bit slicing and byte
    /// sub-addressing, then the unit (or the mapping).
    pub fn get_decode(&self, buf: &[u8]) -> (r: Result<Value, Error>)
        requires
            buf@.len() == self.spec_block_len(),
        ensures
            ({
                let work = self.spec_work_bytes(buf@);
                &&& (self.spec_mapping() matches Some(m) ==> {
                    &&& (r is Ok <==> spec_mapping_has_key(m, work))
                    &&& (r matches Ok(v) ==> v matches Value::String(s) && spec_mapping_at(
                        m,
                        work,
                        s@,
                    ))
                    &&& (r matches Err(e) ==> e is UnknownEnumVariant)
                })
                &&& (self.spec_mapping() is None ==> r is Ok)
                &&& (self.spec_mapping() is None ==> match self.spec_unit() {
                    Unit::SysTime => r matches Ok(v) && v matches Value::SysTime(st) && st@
                        == work,
                    Unit::CycleTime => r matches Ok(v) && v matches Value::CycleTime(ct) && ct@
                        == work,
                    Unit::ErrState => r matches Ok(v) && v matches Value::String(s) && s@
                        == crate::types::spec_errstate_text(work),
                    _ => r matches Ok(v) && v matches Value::Number(n) && n as int
                        == crate::unit::spec_int_value(self.spec_unit(), work),
                })
            }),
    {
        proof {
            use_type_invariant(self);
        }
        if let Some(p) = self.bit_pos {
            let byte = buf[p / 8];
            let synth = extract_bits(byte, p % 8, self.bit_len);
            let work = vec![synth];
            proof {
                assert(work@ =~= self.spec_work_bytes(buf@));
            }
            self.unit.bytes_to_output(work.as_slice(), &self.mapping)
        } else {
            let mut work: Vec<u8> = Vec::new();
            let mut i: usize = self.byte_pos;
            let end = self.byte_pos + self.byte_len;
            while i < end
                invariant
                    self.byte_pos <= i <= end,
                    end == self.byte_pos + self.byte_len,
                    end <= buf@.len(),
                    work@ == buf@.subrange(self.byte_pos as int, i as int),
                decreases end - i,
            {
                let b = buf[i];
                work.push(b);
                proof {
                    assert(work@ =~= buf@.subrange(self.byte_pos as int, i as int + 1));
                }
                i += 1;
            }
            proof {
                assert(work@ =~= self.spec_work_bytes(buf@));
            }
            self.unit.bytes_to_output(work.as_slice(), &self.mapping)
        }
    }

    /// Encodes a value for a write to this command's register, or the error
    /// for a write the command or the value does not permit.
    pub fn write_plan(&self, input: &Value) -> (r: Result<(u16, Vec<u8>), Error>)
        ensures
            !(self.spec_mode() is Write || self.spec_mode() is ReadWrite) ==> (r matches Err(e)
                && e is UnsupportedMode),
            (self.spec_mode() is Write || self.spec_mode() is ReadWrite) ==> {
                &&& (self.spec_mapping() matches Some(m) ==> {
                    &&& (r is Ok <==> (input is String && spec_mapping_has_value(
                        m,
                        input->String_0@,
                    )))
                    &&& (r matches Ok(p) ==> input matches Value::String(s) && spec_mapping_at(
                        m,
                        p.1@,
                        s@,
                    ))
                    &&& (r matches Err(e) ==> e is InvalidArgument)
                })
                &&& (self.spec_mapping() is None ==> match self.spec_unit() {
                    Unit::SysTime => {
                        &&& (r is Ok <==> input is SysTime)
                        &&& (r matches Ok(p) ==> input matches Value::SysTime(st) && p.1@ == st@)
                    },
                    Unit::CycleTime => {
                        &&& (r is Ok <==> input is CycleTime)
                        &&& (r matches Ok(p) ==> input matches Value::CycleTime(ct) && p.1@
                            == ct@)
                    },
                    Unit::ErrState => r is Err,
                    _ => {
                        &&& (r is Ok <==> input is Number)
                        &&& (r matches Ok(p) ==> input matches Value::Number(n) && p.1@
                            == crate::unit::spec_int_bytes(self.spec_unit(), n as int))
                    },
                })
                &&& (r matches Err(e) ==> e is InvalidArgument)
                &&& (r matches Ok(p) ==> p.0 == self.spec_addr() && p.1@.len()
                    == self.spec_byte_len() && 1 <= p.1@.len() <= 255)
            },
    {
        proof {
            use_type_invariant(self);
        }
        if !self.mode.is_write() {
            let mut msg = String::from_str("address 0x");
            push_hex_byte(&mut msg, (self.addr / 256) as u8);
            push_hex_byte(&mut msg, (self.addr % 256) as u8);
            msg.append(" does not support writing");
            return Err(Error::UnsupportedMode(msg));
        }
        let bytes = match self.unit.input_to_bytes(input, &self.mapping) {
            Ok(b) => b,
            Err(e) => {
                return Err(e);
            },
        };
        proof {
            match &self.mapping {
                Some(mm) => {
                    let i = choose|i: int|
                        0 <= i < mm@.len() && (#[trigger] mm@[i]).0 == bytes@ && mm@[i].1
                            == input->String_0@;
                    assert(mm@[i].0.len() == mm@[0].0.len());
                    assert(bytes@.len() == self.spec_byte_len());
                },
                None => {
                    assert(bytes@.len() == self.spec_byte_len());
                },
            }
        }
        Ok((self.addr, bytes))
    }
}

} // verus!
