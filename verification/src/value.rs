use vstd::prelude::*;

use crate::types::{CycleTime, SysTime};

verus! {

/// A domain value crossing the public API: the result of decoding a byte
/// range, or the input to encoding one.
///
/// `Number` holds the raw integer reading of a numeric register; applying a
/// command's display factor is a floating-point concern that the caller
/// layers on top.
#[derive(Debug, Clone)]
pub enum Value {
    Number(i64),
    SysTime(SysTime),
    CycleTime(CycleTime),
    String(String),
}

} // verus!
