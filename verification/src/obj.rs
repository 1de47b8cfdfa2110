//! Handles to instances the runtime's garbage collector owns: objects,
//! arrays, strings, and managed type descriptors.
//!
//! None of these handles owns runtime memory: dropping a handle never frees
//! the managed instance. Object, array, and string pointers may be null;
//! a type descriptor is non-null by construction.

use vstd::prelude::*;

use crate::class::MonoClass;

verus! {

/// A handle to a managed object on the garbage-collected heap. The raw
/// pointer may be null.
pub struct MonoObject {
    /// The raw instance pointer, as an address value. May be null.
    pub raw: usize,
}

impl MonoObject {
    /// Wraps a raw instance pointer as the runtime handed it back.
    pub fn from_raw(raw: usize) -> (o: MonoObject)
        ensures
            o.raw == raw,
    {
        MonoObject { raw }
    }

    /// True when the handle wraps the null instance.
    pub fn is_null(&self) -> (r: bool)
        ensures
            r == (self.raw == 0),
    {
        self.raw == 0
    }

    /// The raw instance pointer, for handing back to the runtime.
    pub fn as_ptr(&self) -> (r: usize)
        ensures
            r == self.raw,
    {
        self.raw
    }

    /// Consumes the handle and yields the raw instance pointer.
    pub fn into_raw(self) -> (r: usize)
        ensures
            r == self.raw,
    {
        self.raw
    }

    /// Digests the runtime's reply to the runtime-class query on this
    /// instance: the runtime reports a non-null class for every instance.
    pub fn get_class(&self, raw_class: usize) -> (c: MonoClass)
        requires
            raw_class != 0,
        ensures
            c.raw == raw_class,
            c.wf(),
    {
        MonoClass { raw: raw_class }
    }

    /// Digests the runtime's reply to the managed `ToString` call on this
    /// instance: the reply is a managed string handle, which may be null
    /// when the call threw.
    pub fn to_mono_string(&self, raw_string: usize) -> (s: MonoString)
        ensures
            s.raw == raw_string,
    {
        MonoString { raw: raw_string }
    }
}

/// A handle to a managed array, together with the length it was allocated
/// with.
pub struct MonoArray {
    /// The raw array pointer, as an address value. May be null.
    pub raw: usize,
    /// The number of elements the array was allocated with.
    pub len: usize,
}

impl MonoArray {
    /// Wraps a raw array pointer together with its element count.
    pub fn from_raw(raw: usize, len: usize) -> (a: MonoArray)
        ensures
            a.raw == raw,
            a.len == len,
    {
        MonoArray { raw, len }
    }

    /// True when the handle wraps the null array.
    pub fn is_null(&self) -> (r: bool)
        ensures
            r == (self.raw == 0),
    {
        self.raw == 0
    }

    /// Consumes the handle and yields the raw array pointer.
    pub fn into_raw(self) -> (r: usize)
        ensures
            r == self.raw,
    {
        self.raw
    }

    /// The number of elements in the array: exactly the count it was
    /// allocated with.
    pub fn length(&self) -> (r: usize)
        ensures
            r == self.len,
    {
        self.len
    }
}

/// Allocating an array of `n` elements yields a handle whose reported
/// length is `n`, whatever raw pointer the allocator replied with.
pub proof fn lemma_array_length(raw: usize, n: usize)
    ensures
        (MonoArray { raw, len: n }).len == n,
{
}

/// A handle to a managed string. The runtime stores strings natively in
/// UTF-16 code units.
pub struct MonoString {
    /// The raw string pointer, as an address value. May be null.
    pub raw: usize,
}

impl MonoString {
    /// Wraps a raw string pointer as the runtime handed it back.
    pub fn from_raw(raw: usize) -> (s: MonoString)
        ensures
            s.raw == raw,
    {
        MonoString { raw }
    }

    /// True when the handle wraps the null string.
    pub fn is_null(&self) -> (r: bool)
        ensures
            r == (self.raw == 0),
    {
        self.raw == 0
    }

    /// Consumes the handle and yields the raw string pointer.
    pub fn into_raw(self) -> (r: usize)
        ensures
            r == self.raw,
    {
        self.raw
    }

    /// Digests the interning query's reply: the runtime answers with the
    /// interned instance when the string is interned, and null when it is
    /// not.
    pub fn is_interned(&self, reply: usize) -> (r: bool)
        ensures
            r == (reply != 0),
    {
        reply != 0
    }
}

/// A handle to a managed type descriptor, as obtained from a field or a
/// signature. Non-null by construction.
pub struct MonoType {
    /// The raw type descriptor pointer, as an address value. Never null.
    pub raw: usize,
}

impl MonoType {
    /// A type handle wraps a non-null raw descriptor.
    pub open spec fn wf(self) -> bool {
        self.raw != 0
    }

    /// Digests the void-query's reply: the runtime answers with a non-zero
    /// flag exactly when the type is `void`.
    pub fn is_void(&self, reply: i32) -> (r: bool)
        ensures
            r == (reply != 0),
    {
        reply != 0
    }

    /// Digests the runtime's reply to the backing-class query: the runtime
    /// reports a non-null class for every type this facade hands out.
    pub fn get_class(&self, raw_class: usize) -> (c: MonoClass)
        requires
            raw_class != 0,
        ensures
            c.raw == raw_class,
            c.wf(),
    {
        MonoClass { raw: raw_class }
    }
}

} // verus!
