//! The byte-string bridge between host strings and the null-terminated
//! strings the runtime's C interface takes.
//!
//! Every name, path, and argument that crosses into the runtime goes through
//! here: the bytes are scanned for interior nulls, and a terminating null is
//! appended. The spec-level round trip (appending the terminator and reading
//! the contents back) is proved exact, so a well-formed C byte string always
//! denotes the host bytes it was built from.

use vstd::prelude::*;

use crate::MonoError;

verus! {

/// True when the byte sequence holds a null byte, which the runtime's
/// C interface would read as an early terminator.
pub open spec fn has_interior_nul(s: Seq<u8>) -> bool {
    exists|i: int| 0 <= i < s.len() && s[i] == 0
}

/// The null-terminated form of a byte sequence.
pub open spec fn c_bytes_of(s: Seq<u8>) -> Seq<u8> {
    s.push(0)
}

/// A well-formed C byte string: non-empty, terminated by exactly one null,
/// with no null anywhere before it.
pub open spec fn c_str_wf(s: Seq<u8>) -> bool {
    &&& s.len() >= 1
    &&& s[s.len() - 1] == 0
    &&& forall|i: int| 0 <= i < s.len() - 1 ==> s[i] != 0
}

/// The contents a C byte string denotes: everything before the terminator.
pub open spec fn c_str_contents(s: Seq<u8>) -> Seq<u8> {
    s.subrange(0, s.len() - 1)
}

/// Null-terminating a byte sequence without interior nulls yields a
/// well-formed C byte string that denotes exactly the bytes it was built from.
pub proof fn lemma_c_round_trip(s: Seq<u8>)
    requires
        !has_interior_nul(s),
    ensures
        c_str_wf(c_bytes_of(s)),
        c_str_contents(c_bytes_of(s)) == s,
{
    assert(c_str_contents(c_bytes_of(s)) =~= s);
}

/// Reports whether the bytes hold an interior null.
pub fn has_nul(s: &[u8]) -> (r: bool)
    ensures
        r == has_interior_nul(s@),
{
    let mut i: usize = 0;
    while i < s.len()
        invariant
            0 <= i <= s@.len(),
            forall|j: int| 0 <= j < i ==> s@[j] != 0,
        decreases s@.len() - i,
    {
        if s[i] == 0 {
            return true;
        }
        i = i + 1;
    }
    false
}

/// Copies the bytes and appends the null terminator. Callers are expected to
/// have ruled out interior nulls first.
pub fn append_nul(s: &[u8]) -> (r: Vec<u8>)
    ensures
        r@ == c_bytes_of(s@),
{
    let mut v: Vec<u8> = Vec::new();
    let mut i: usize = 0;
    while i < s.len()
        invariant
            0 <= i <= s@.len(),
            v@ == s@.subrange(0, i as int),
        decreases s@.len() - i,
    {
        v.push(s[i]);
        i = i + 1;
    }
    v.push(0);
    proof {
        assert(v@ =~= c_bytes_of(s@));
    }
    v
}

/// Converts host bytes to the runtime's null-terminated form, refusing
/// interior nulls as an invalid string.
pub fn to_c_bytes(s: &[u8]) -> (r: Result<Vec<u8>, MonoError>)
    ensures
        has_interior_nul(s@) ==> r == Err::<Vec<u8>, MonoError>(MonoError::InvalidString),
        !has_interior_nul(s@) ==> r is Ok && r->Ok_0@ == c_bytes_of(s@),
{
    if has_nul(s) {
        Err(MonoError::InvalidString)
    } else {
        Ok(append_nul(s))
    }
}

/// Converts a filesystem path's bytes to the runtime's null-terminated form,
/// refusing interior nulls as an invalid path.
pub fn path_to_c_bytes(s: &[u8]) -> (r: Result<Vec<u8>, MonoError>)
    ensures
        has_interior_nul(s@) ==> r == Err::<Vec<u8>, MonoError>(MonoError::InvalidPath),
        !has_interior_nul(s@) ==> r is Ok && r->Ok_0@ == c_bytes_of(s@),
{
    if has_nul(s) {
        Err(MonoError::InvalidPath)
    } else {
        Ok(append_nul(s))
    }
}

} // verus!
