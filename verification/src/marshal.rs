//! Marshaling of host values into what the native interface expects:
//! lengths as saturated 32-bit signed integers, text as NUL-terminated bytes.

use vstd::prelude::*;
use vstd::slice::slice_to_vec;
use vstd::string::StringSliceAdditionalSpecFns;

verus! {

/// The largest length or capacity the native interface can be told.
pub const NATIVE_INT_MAX: i32 = 2147483647;

/// A host length as the native interface sees it: itself while it fits, the
/// largest native integer otherwise.
pub open spec fn saturated(n: nat) -> int {
    if n <= NATIVE_INT_MAX as nat {
        n as int
    } else {
        NATIVE_INT_MAX as int
    }
}

/// Clamps a host length to the native integer width. Never wraps and never
/// fails.
pub fn saturate(n: usize) -> (r: i32)
    ensures
        r as int == saturated(n as nat),
{
    match i32::try_from(n) {
        Ok(v) => v,
        Err(_) => NATIVE_INT_MAX,
    }
}

/// Saturation never wraps: the native value is never negative and never
/// above the native maximum, it is the host length itself exactly when that
/// fits, and a longer host length never gives a smaller native value.
pub proof fn lemma_saturated_clamps(n: nat, m: nat)
    ensures
        0 <= saturated(n) <= NATIVE_INT_MAX,
        saturated(n) == n <==> n <= NATIVE_INT_MAX,
        n > NATIVE_INT_MAX ==> saturated(n) == NATIVE_INT_MAX,
        n <= m ==> saturated(n) <= saturated(m),
{
}

/// Bytes that the engine can take as a string: none of them is NUL, so the
/// terminator that is appended is the first NUL the engine meets.
pub open spec fn no_nul(bytes: Seq<u8>) -> bool {
    forall|i: int| 0 <= i < bytes.len() ==> bytes[i] != 0u8
}

/// The byte string handed to the engine: the text's bytes and one NUL after
/// them.
pub open spec fn nul_terminated(bytes: Seq<u8>) -> Seq<u8> {
    bytes.push(0u8)
}

/// Tells whether `text` can be passed to the engine, that is whether it is
/// free of NUL bytes.
pub fn is_native_text(text: &str) -> (ok: bool)
    ensures
        ok == no_nul(text.spec_bytes()),
{
    let bytes = text.as_bytes();
    let mut i: usize = 0;
    while i < bytes.len()
        invariant
            i <= bytes@.len(),
            bytes@ == text.spec_bytes(),
            forall|j: int| 0 <= j < i ==> bytes@[j] != 0u8,
        decreases bytes@.len() - i,
    {
        if bytes[i] == 0 {
            return false;
        }
        i += 1;
    }
    true
}

/// Encodes `text` for the engine: its UTF-8 bytes followed by the
/// terminating NUL.
pub fn to_native_bytes(text: &str) -> (out: Vec<u8>)
    requires
        no_nul(text.spec_bytes()),
    ensures
        out@ == nul_terminated(text.spec_bytes()),
{
    let mut out = slice_to_vec(text.as_bytes());
    out.push(0u8);
    out
}

} // verus!
