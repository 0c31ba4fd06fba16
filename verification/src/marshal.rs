//! The marshaling layer: values in the runtime's representation.
//!
//! Each call converts its host-native arguments into runtime-side values,
//! invokes the entry point, and converts the result back. A marshaled value
//! is owned by the call that created it and discarded with it. Floating-point
//! values cross the boundary as their 64-bit IEEE-754 bit patterns; the
//! embedding application converts on its side of the boundary.

use vstd::prelude::*;

verus! {

/// A value in the runtime's native form: a primitive scalar, a fixed-length
/// numeric array, or a text buffer.
pub enum MarshaledValue {
    /// 32-bit signed scalar.
    Int32(i32),
    /// 64-bit signed scalar.
    Int64(i64),
    /// Boolean scalar.
    Boolean(bool),
    /// Array of 64-bit floating-point values, as bit patterns.
    Float64Array(Vec<u64>),
    /// Two 64-bit floating-point values, as bit patterns.
    Float64Pair(u64, u64),
    /// Text buffer.
    Text(String),
}

/// Why a call into the runtime failed. Nothing above the facade ever sees
/// these: the facade substitutes the operation's sentinel or fallback value.
pub enum BridgeFault {
    /// The runtime could not boot; fatal for the whole bridge.
    InitFailed,
    /// The calling thread could not attach to the runtime; local to the call.
    AttachFailed,
    /// No loaded unit matches the descriptor's class name.
    MissingEntryPoint,
    /// The entry point exists but its signature does not match the argument.
    SignatureMismatch,
    /// An argument has no representation in the runtime's type.
    MarshalFailed,
}

/// Marshal a 32-bit signed index.
pub fn marshal_int32(n: i32) -> (m: MarshaledValue)
    ensures
        m == MarshaledValue::Int32(n),
{
    MarshaledValue::Int32(n)
}

/// Marshal an unsigned host integer into the runtime's 64-bit signed type;
/// a value above the signed range has no representation there.
pub fn marshal_uint64(num: u64) -> (m: Result<MarshaledValue, BridgeFault>)
    ensures
        num <= i64::MAX ==> m == Ok::<MarshaledValue, BridgeFault>(
            MarshaledValue::Int64(num as i64),
        ),
        num > i64::MAX ==> m == Err::<MarshaledValue, BridgeFault>(BridgeFault::MarshalFailed),
{
    if num <= 0x7fff_ffff_ffff_ffff {
        Ok(MarshaledValue::Int64(num as i64))
    } else {
        Err(BridgeFault::MarshalFailed)
    }
}

/// Marshal a floating-point array: allocate a runtime-side array of matching
/// length and copy it element by element. An empty input is permitted and
/// yields an empty runtime-side array.
pub fn marshal_float_array(bits: &Vec<u64>) -> (m: MarshaledValue)
    ensures
        m matches MarshaledValue::Float64Array(a) && a@ == bits@,
{
    let mut copied: Vec<u64> = Vec::new();
    let mut i: usize = 0;
    while i < bits.len()
        invariant
            i <= bits@.len(),
            copied@ == bits@.take(i as int),
        decreases bits@.len() - i,
    {
        copied.push(bits[i]);
        proof {
            assert(copied@ =~= bits@.take(i as int + 1));
        }
        i = i + 1;
    }
    proof {
        assert(bits@.take(bits@.len() as int) =~= bits@);
    }
    MarshaledValue::Float64Array(copied)
}

/// Marshal a text buffer into a runtime-side string object.
pub fn marshal_text(text: String) -> (m: MarshaledValue)
    ensures
        m matches MarshaledValue::Text(t) && t@ == text@,
{
    MarshaledValue::Text(text)
}

/// Read back a 64-bit signed scalar result; any other shape is a signature
/// mismatch on the result side.
pub fn unmarshal_int64(m: MarshaledValue) -> (r: Option<i64>)
    ensures
        m matches MarshaledValue::Int64(v) ==> r == Some(v),
        !(m matches MarshaledValue::Int64(v)) ==> r is None,
{
    match m {
        MarshaledValue::Int64(v) => Some(v),
        _ => None,
    }
}

/// Read back a boolean scalar result.
pub fn unmarshal_boolean(m: MarshaledValue) -> (r: Option<bool>)
    ensures
        m matches MarshaledValue::Boolean(v) ==> r == Some(v),
        !(m matches MarshaledValue::Boolean(v)) ==> r is None,
{
    match m {
        MarshaledValue::Boolean(v) => Some(v),
        _ => None,
    }
}

/// Read back a pair of floating-point bit patterns.
pub fn unmarshal_float_pair(m: MarshaledValue) -> (r: Option<(u64, u64)>)
    ensures
        m matches MarshaledValue::Float64Pair(lo, hi) ==> r == Some((lo, hi)),
        !(m matches MarshaledValue::Float64Pair(lo, hi)) ==> r is None,
{
    match m {
        MarshaledValue::Float64Pair(lo, hi) => Some((lo, hi)),
        _ => None,
    }
}

/// Read back a runtime-side string result as host-native text.
pub fn unmarshal_text(m: MarshaledValue) -> (r: Option<String>)
    ensures
        m matches MarshaledValue::Text(t) ==> (r matches Some(s) && s@ == t@),
        !(m matches MarshaledValue::Text(t)) ==> r is None,
{
    match m {
        MarshaledValue::Text(t) => Some(t),
        _ => None,
    }
}

} // verus!
