//! A safe embedding facade over a managed-code virtual machine runtime.
//!
//! The runtime itself is driven through a raw C interface that the verifier
//! cannot see; the embedding layer that actually enters the runtime lives
//! outside this crate. This crate owns everything that can be stated and
//! checked about the facade:
//!
//! - the process-wide domain lifecycle (a domain is created at most once per
//!   process and torn down at most once, and never re-created);
//! - validation of every host-supplied string and path before it is handed to
//!   the runtime as a null-terminated byte string;
//! - the typed handle layer: each raw handle the runtime returns is wrapped
//!   exactly once, null replies become "absent" results or errors, and a
//!   non-null invariant travels with every handle that the runtime promises
//!   to be non-null.
//!
//! Each operation that enters the runtime is split in two: a function that
//! checks the inputs and produces the exact byte strings the call takes, and
//! a function that digests the raw reply into a typed handle or an error.
//! The embedding layer performs the call in between and is obliged to test
//! every stated precondition first.

use vstd::prelude::*;

pub mod assembly;
pub mod class;
pub mod config;
pub mod cstr;
pub mod domain;
pub mod obj;

pub use assembly::Assembly;
pub use assembly::Image;
pub use class::Method;
pub use class::MethodSignature;
pub use class::MonoClass;
pub use class::MonoClassField;
pub use domain::Domain;
pub use domain::DomainState;
pub use domain::Phase;
pub use obj::MonoArray;
pub use obj::MonoObject;
pub use obj::MonoString;
pub use obj::MonoType;

verus! {

/// Everything the facade reports to the caller instead of entering the
/// runtime with a bad input or wrapping a null reply.
#[derive(Clone, Copy, Debug, PartialEq, Eq, Structural)]
pub enum MonoError {
    /// A host-supplied string holds an interior null byte.
    InvalidString,
    /// A filesystem path cannot be turned into the runtime's byte-string form.
    InvalidPath,
    /// A domain was already created in this process; the runtime cannot be
    /// initialized twice.
    DomainAlreadyExists,
    /// Runtime initialization replied null (bad version, missing runtime).
    InitFailed,
    /// The assembly loader replied null (file missing, bad format, or
    /// unresolved dependencies).
    AssemblyNotFound,
}

/// Relies on `Box::into_raw`: the address of a freshly allocated box is a
/// valid, non-null address, and the allocation is leaked rather than freed.
#[verifier::external_body]
fn leak_box_addr<T>(b: Box<T>) -> (r: usize)
    ensures
        r != 0,
{
    Box::into_raw(b) as usize
}

/// Moves a value to a stable heap cell and hands back the cell's address,
/// for use as one entry of an invocation's parameter vector. The cell is
/// deliberately leaked: an argument cell must stay valid for as long as the
/// runtime may read it.
pub fn alloc_to_ptr<T>(t: T) -> (r: usize)
    ensures
        r != 0,
{
    leak_box_addr(Box::new(t))
}

} // verus!
