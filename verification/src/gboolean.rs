//! C truth values.
//!
//! GLib's `gboolean` is a C `int`: zero is false, anything else is true.
//! A binding converts in both directions at every call that passes or
//! returns a flag, and pairs a `gboolean` "did it succeed" result with an
//! out-parameter to build an `Option`.

use vstd::prelude::*;

verus! {

/// The `gboolean` encoding of a Rust `bool`: `1` for true, `0` for false.
pub open spec fn gboolean_of(b: bool) -> i32 {
    if b {
        1
    } else {
        0
    }
}

/// The truth value a C caller reads from a `gboolean`: any non-zero value
/// counts as true.
pub open spec fn truth_of(g: i32) -> bool {
    g != 0
}

/// Encode a `bool` as a `gboolean` for a native call.
pub fn to_gboolean(b: bool) -> (g: i32)
    ensures
        g == gboolean_of(b),
{
    if b {
        1
    } else {
        0
    }
}

/// Decode a `gboolean` returned by a native call.
pub fn to_bool(g: i32) -> (b: bool)
    ensures
        b == truth_of(g),
{
    g != 0
}

/// Decoding an encoded `bool` gives the original back, whichever value it
/// had.
pub proof fn lemma_gboolean_round_trip(b: bool)
    ensures
        truth_of(gboolean_of(b)) == b,
{
}

/// Pair a `gboolean` success flag with the value its call produced: the
/// value is handed on exactly when the flag is true.
pub fn some_if<T>(ok: i32, value: T) -> (r: Option<T>)
    ensures
        truth_of(ok) ==> (r matches Some(v) && v == value),
        !truth_of(ok) ==> r is None,
{
    if ok != 0 {
        Some(value)
    } else {
        None
    }
}

} // verus!
