//! Reflective descriptors: classes, methods, signatures, and fields.

use vstd::prelude::*;

use crate::cstr::c_bytes_of;
use crate::cstr::has_interior_nul;
use crate::cstr::to_c_bytes;
use crate::obj::MonoObject;

verus! {

/// A handle to a class definition inside a metadata image.
pub struct MonoClass {
    /// The raw class handle, as an address value. Never null.
    pub raw: usize,
}

impl MonoClass {
    /// A class handle wraps a non-null raw handle.
    pub open spec fn wf(self) -> bool {
        self.raw != 0
    }

    /// Requests a field lookup by simple name: yields the C name bytes the
    /// lookup takes, or nothing when the name holds an interior null —
    /// reported as a lookup miss, since such a name can match no field.
    pub fn get_field_from_name(&self, name: &[u8]) -> (r: Option<Vec<u8>>)
        requires
            self.wf(),
        ensures
            has_interior_nul(name@) ==> r is None,
            !has_interior_nul(name@) ==> r is Some && r->0@ == c_bytes_of(name@),
    {
        match to_c_bytes(name) {
            Ok(v) => Some(v),
            Err(_) => None,
        }
    }

    /// Digests the field lookup's reply: null means no such field.
    pub fn get_field_reply(&self, raw: usize) -> (r: Option<MonoClassField>)
        ensures
            raw == 0 ==> r is None,
            raw != 0 ==> r == Some(MonoClassField { raw }),
    {
        if raw == 0 {
            None
        } else {
            Some(MonoClassField { raw })
        }
    }

    /// Requests a method lookup by simple name and arity: yields the C name
    /// bytes together with the arity, exactly the pair the lookup call
    /// takes, or nothing when the name holds an interior null.
    pub fn get_method_from_name(&self, name: &[u8], param_count: i32) -> (r: Option<
        (Vec<u8>, i32),
    >)
        requires
            self.wf(),
        ensures
            has_interior_nul(name@) ==> r is None,
            !has_interior_nul(name@) ==> r is Some && (r->0).0@ == c_bytes_of(name@) && (r->0).1
                == param_count,
    {
        match to_c_bytes(name) {
            Ok(v) => Some((v, param_count)),
            Err(_) => None,
        }
    }

    /// Digests the method lookup's reply: null means no method of that name
    /// and arity.
    pub fn get_method_reply(&self, raw: usize) -> (r: Option<Method>)
        ensures
            raw == 0 ==> r is None,
            raw != 0 ==> r == Some(Method { raw }),
    {
        if raw == 0 {
            None
        } else {
            Some(Method { raw })
        }
    }

    /// Digests the base-class query's reply: null means this class is the
    /// root of its hierarchy.
    pub fn get_parent(&self, raw: usize) -> (r: Option<MonoClass>)
        requires
            self.wf(),
        ensures
            raw == 0 ==> r is None,
            raw != 0 ==> r == Some(MonoClass { raw }),
    {
        if raw == 0 {
            None
        } else {
            Some(MonoClass { raw })
        }
    }

    /// Digests the method-enumeration replies: the runtime's cursor call is
    /// driven by the embedding layer until it replies null, and every
    /// non-null reply collected on the way is wrapped here, in order. The
    /// result holds one method handle per reply, so the enumeration is
    /// complete: no reply is dropped and none is invented.
    pub fn get_methods(&self, raws: &Vec<usize>) -> (ms: Vec<Method>)
        requires
            self.wf(),
            forall|i: int| 0 <= i < raws@.len() ==> raws@[i] != 0,
        ensures
            ms@.len() == raws@.len(),
            forall|i: int| 0 <= i < raws@.len() ==> (#[trigger] ms@[i]).raw == raws@[i]
                && ms@[i].wf(),
    {
        let mut ms: Vec<Method> = Vec::new();
        let mut i: usize = 0;
        while i < raws.len()
            invariant
                0 <= i <= raws@.len(),
                forall|j: int| 0 <= j < raws@.len() ==> raws@[j] != 0,
                ms@.len() == i,
                forall|j: int| 0 <= j < i ==> (#[trigger] ms@[j]).raw == raws@[j] && ms@[j].wf(),
            decreases raws@.len() - i,
        {
            ms.push(Method { raw: raws[i] });
            i = i + 1;
        }
        ms
    }
}

/// A handle to a method on a class. Like every handle, it is only
/// meaningful while the domain it was derived from is live.
pub struct Method {
    /// The raw method handle, as an address value. Never null.
    pub raw: usize,
}

impl Method {
    /// A method handle wraps a non-null raw handle.
    pub open spec fn wf(self) -> bool {
        self.raw != 0
    }

    /// The receiver pointer an invocation takes: the instance's raw pointer
    /// for an instance call, the null pointer for a static call.
    pub fn invoke_receiver(&self, this: Option<&MonoObject>) -> (r: usize)
        requires
            self.wf(),
        ensures
            this is None ==> r == 0,
            this is Some ==> r == this->0.raw,
    {
        match this {
            None => 0,
            Some(o) => o.raw,
        }
    }

    /// Digests an invocation's reply: the method's return value as a
    /// managed object handle — null for a `void` method, and null as well
    /// when the call threw and the exception went to the out-parameter.
    pub fn invoke_reply(&self, raw: usize) -> (o: MonoObject)
        ensures
            o.raw == raw,
    {
        MonoObject { raw }
    }

    /// Digests the signature query's reply: the runtime reports a non-null
    /// signature for every method.
    pub fn signature(&self, raw: usize) -> (s: MethodSignature)
        requires
            self.wf(),
            raw != 0,
        ensures
            s.raw == raw,
            s.wf(),
    {
        MethodSignature { raw }
    }
}

/// What method equality means for the facade: the simple names are equal
/// and the runtime's signature comparator reported the signatures equal.
pub open spec fn method_eq_spec(name_a: Seq<u8>, name_b: Seq<u8>, sig_reply: i32) -> bool {
    name_a == name_b && sig_reply == 0
}

/// Two method handles compare equal exactly when their names are equal and
/// the runtime's signature comparator reported their signatures equal.
/// The names are the byte strings the runtime reports for each handle, and
/// `sig_reply` is the comparator's raw reply for the two signatures.
pub fn method_eq(name_a: &[u8], name_b: &[u8], sig_reply: i32) -> (r: bool)
    ensures
        r == method_eq_spec(name_a@, name_b@, sig_reply),
{
    if sig_reply != 0 {
        return false;
    }
    if name_a.len() != name_b.len() {
        return false;
    }
    let mut i: usize = 0;
    while i < name_a.len()
        invariant
            0 <= i <= name_a@.len(),
            name_a@.len() == name_b@.len(),
            forall|j: int| 0 <= j < i ==> name_a@[j] == name_b@[j],
        decreases name_a@.len() - i,
    {
        if name_a[i] != name_b[i] {
            return false;
        }
        i = i + 1;
    }
    proof {
        assert(name_a@ =~= name_b@);
    }
    true
}

/// Method equality is reflexive: a method compared against itself has equal
/// names on both sides, so it is equal whenever the runtime's comparator
/// reports its signature equal to itself. Two independently resolved
/// handles of one method carry the same name and signature, so the same
/// holds for them.
pub proof fn lemma_method_eq_reflexive(name: Seq<u8>, sig_reply: i32)
    requires
        sig_reply == 0,
    ensures
        method_eq_spec(name, name, sig_reply),
{
}

/// A handle to a method's parameter/return descriptor.
pub struct MethodSignature {
    /// The raw signature handle, as an address value. Never null.
    pub raw: usize,
}

impl MethodSignature {
    /// A signature handle wraps a non-null raw handle.
    pub open spec fn wf(self) -> bool {
        self.raw != 0
    }

    /// Digests the signature comparator's raw reply, with the comparator's
    /// return convention as the embedding interface uses it: a zero reply
    /// is read as "the signatures are equal".
    pub fn equal_reply(&self, reply: i32) -> (r: bool)
        ensures
            r == (reply == 0),
    {
        reply == 0
    }
}

/// A handle to a field descriptor on a class.
pub struct MonoClassField {
    /// The raw field handle, as an address value. Never null.
    pub raw: usize,
}

impl MonoClassField {
    /// A field handle wraps a non-null raw handle.
    pub open spec fn wf(self) -> bool {
        self.raw != 0
    }

    /// Digests the field-type query's reply: null means the runtime could
    /// not produce a type descriptor for this field.
    pub fn get_type(&self, raw: usize) -> (r: Option<crate::obj::MonoType>)
        requires
            self.wf(),
        ensures
            raw == 0 ==> r is None,
            raw != 0 ==> r is Some && r->0.raw == raw && r->0.wf(),
    {
        if raw == 0 {
            None
        } else {
            Some(crate::obj::MonoType { raw })
        }
    }
}

} // verus!
