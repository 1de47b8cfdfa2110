//! A loaded assembly and its metadata image.
//!
//! The assembly handle retains the C bytes of the path it was loaded from:
//! when the assembly's managed entry point is executed, that path is the
//! first program argument, so the argument vector built here always starts
//! with it.

use vstd::prelude::*;

use crate::MonoError;
use crate::class::MonoClass;
use crate::cstr::c_bytes_of;
use crate::cstr::c_str_wf;
use crate::cstr::has_interior_nul;
use crate::cstr::has_nul;
use crate::cstr::append_nul;
use crate::cstr::to_c_bytes;

verus! {

/// A loaded managed assembly.
pub struct Assembly {
    /// The raw assembly handle, as an address value. Never null.
    pub raw: usize,
    /// The null-terminated path the assembly was loaded from, retained for
    /// use as the first program argument on execution.
    pub path_c: Vec<u8>,
}

/// True when every byte string in the vector is free of interior nulls.
pub open spec fn args_valid(args: Seq<Vec<u8>>) -> bool {
    forall|i: int| 0 <= i < args.len() ==> !has_interior_nul(#[trigger] args[i]@)
}

/// The argument vector for executing an assembly loaded from `path_c`:
/// the retained path first, then each caller argument in its C form.
pub open spec fn exec_argv_spec(path_c: Seq<u8>, args: Seq<Vec<u8>>) -> Seq<Seq<u8>> {
    Seq::new(args.len() + 1, |i: int| if i == 0 { path_c } else { c_bytes_of(args[i - 1]@) })
}

impl Assembly {
    /// An assembly handle wraps a non-null raw handle and a well-formed
    /// C path string.
    pub open spec fn wf(self) -> bool {
        self.raw != 0 && c_str_wf(self.path_c@)
    }

    /// The raw assembly handle, for handing back to the runtime.
    pub fn as_ptr(&self) -> (r: usize)
        ensures
            r == self.raw,
    {
        self.raw
    }

    /// Builds the argument vector for running the managed entry point with
    /// no extra arguments: exactly one entry, the retained assembly path.
    /// The embedding layer hands the vector to the runtime's execute call;
    /// the reply is the managed program's exit code and needs no digesting.
    pub fn exec(&self) -> (argv: Vec<Vec<u8>>)
        requires
            self.wf(),
        ensures
            argv@.len() == 1,
            argv@[0]@ == self.path_c@,
    {
        let mut argv: Vec<Vec<u8>> = Vec::new();
        argv.push(self.path_c.clone());
        argv
    }

    /// Builds the argument vector for running the managed entry point with
    /// extra arguments: the retained assembly path first, then each
    /// argument in null-terminated form. Refuses any argument with an
    /// interior null.
    pub fn exec_with_args(&self, args: &Vec<Vec<u8>>) -> (r: Result<Vec<Vec<u8>>, MonoError>)
        requires
            self.wf(),
        ensures
            !args_valid(args@) ==> r == Err::<Vec<Vec<u8>>, MonoError>(MonoError::InvalidString),
            args_valid(args@) ==> r is Ok && r->Ok_0@.map_values(|v: Vec<u8>| v@)
                == exec_argv_spec(self.path_c@, args@),
    {
        let mut argv: Vec<Vec<u8>> = Vec::new();
        argv.push(self.path_c.clone());
        let mut i: usize = 0;
        while i < args.len()
            invariant
                0 <= i <= args@.len(),
                argv@.len() == i + 1,
                argv@[0]@ == self.path_c@,
                forall|j: int| 0 <= j < i ==> !has_interior_nul(#[trigger] args@[j]@),
                forall|j: int| 1 <= j <= i ==> #[trigger] argv@[j]@ == c_bytes_of(args@[j - 1]@),
            decreases args@.len() - i,
        {
            let arg = &args[i];
            if has_nul(arg.as_slice()) {
                return Err(MonoError::InvalidString);
            }
            argv.push(append_nul(arg.as_slice()));
            i = i + 1;
        }
        proof {
            assert(argv@.map_values(|v: Vec<u8>| v@) =~= exec_argv_spec(self.path_c@, args@));
        }
        Ok(argv)
    }

    /// Digests the runtime's reply to the metadata-image query: the runtime
    /// reports a non-null image for every successfully loaded assembly.
    pub fn get_image(&self, raw: usize) -> (img: Image)
        requires
            self.wf(),
            raw != 0,
        ensures
            img.raw == raw,
            img.wf(),
    {
        Image { raw }
    }
}

/// The metadata image backing an assembly: the entry point for reflective
/// lookup.
pub struct Image {
    /// The raw image handle, as an address value. Never null.
    pub raw: usize,
}

impl Image {
    /// An image handle wraps a non-null raw handle.
    pub open spec fn wf(self) -> bool {
        self.raw != 0
    }

    /// Requests a case-insensitive class lookup by namespace and simple
    /// name: yields the two C byte strings the lookup takes, or nothing
    /// when either name holds an interior null — a malformed name can never
    /// match a class, so it is reported as a lookup miss rather than an
    /// error.
    pub fn get_class(&self, namespace: &[u8], name: &[u8]) -> (r: Option<(Vec<u8>, Vec<u8>)>)
        requires
            self.wf(),
        ensures
            (has_interior_nul(namespace@) || has_interior_nul(name@)) ==> r is None,
            !has_interior_nul(namespace@) && !has_interior_nul(name@) ==> r is Some
                && (r->0).0@ == c_bytes_of(namespace@) && (r->0).1@ == c_bytes_of(name@),
    {
        let namespace_c = match to_c_bytes(namespace) {
            Ok(v) => v,
            Err(_) => { return None; },
        };
        let name_c = match to_c_bytes(name) {
            Ok(v) => v,
            Err(_) => { return None; },
        };
        Some((namespace_c, name_c))
    }

    /// Digests the class lookup's reply: a null reply means no such class;
    /// a non-null reply is the class handle, wrapped exactly as the runtime
    /// identified it.
    pub fn get_class_reply(&self, raw: usize) -> (r: Option<MonoClass>)
        ensures
            raw == 0 ==> r is None,
            raw != 0 ==> r == Some(MonoClass { raw }),
    {
        if raw == 0 {
            None
        } else {
            Some(MonoClass { raw })
        }
    }
}

/// The facade preserves handle identity: two class lookups the runtime
/// answers with the same raw pointer yield the same class handle. Which raw
/// pointer a lookup gets is the runtime's affair; the runtime answers
/// repeated lookups with identical arguments with the same pointer.
pub proof fn lemma_class_handle_identity(raw_a: usize, raw_b: usize)
    requires
        raw_a == raw_b,
        raw_a != 0,
    ensures
        (MonoClass { raw: raw_a }) == (MonoClass { raw: raw_b }),
{
}

} // verus!
