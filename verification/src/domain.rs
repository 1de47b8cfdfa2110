//! The process-singleton domain: the root handle of an initialized runtime.
//!
//! The runtime supports exactly one initialization and one teardown per
//! process, ever. The embedding layer owns one [`DomainState`] for the whole
//! process and threads it through every lifecycle operation; the contracts
//! here pin the lifecycle to the three-phase machine
//! `Unborn -> Live -> Dead` with no other transition.

use vstd::prelude::*;

use crate::MonoError;
use crate::cstr::c_bytes_of;
use crate::cstr::c_str_wf;
use crate::cstr::has_interior_nul;
use crate::cstr::path_to_c_bytes;
use crate::cstr::to_c_bytes;
use crate::obj::MonoArray;
use crate::obj::MonoObject;
use crate::obj::MonoString;

verus! {

/// Where the process stands in the domain lifecycle.
#[derive(Clone, Copy, Debug, PartialEq, Eq, Structural)]
pub enum Phase {
    /// No domain was ever created.
    Unborn,
    /// The domain is initialized and not yet torn down.
    Live,
    /// The domain was torn down; the runtime can never be re-initialized.
    Dead,
}

/// The process-wide lifecycle flags. Both are monotonic: once a flag is set,
/// no operation ever clears it, which is what makes the domain a true
/// singleton for the remainder of the process.
pub struct DomainState {
    /// A domain was successfully created in this process.
    pub created: bool,
    /// The domain was torn down in this process.
    pub dropped: bool,
}

impl DomainState {
    /// A domain can only have been torn down if one was created first.
    pub open spec fn wf(self) -> bool {
        self.dropped ==> self.created
    }

    /// The lifecycle phase the flags encode.
    pub open spec fn phase(self) -> Phase {
        if self.dropped {
            Phase::Dead
        } else if self.created {
            Phase::Live
        } else {
            Phase::Unborn
        }
    }

    /// The state of a process in which no domain was ever created.
    pub fn new() -> (s: DomainState)
        ensures
            s.wf(),
            s.phase() == Phase::Unborn,
    {
        DomainState { created: false, dropped: false }
    }

    /// True exactly when a domain exists and has not been torn down.
    pub fn live(&self) -> (r: bool)
        ensures
            r == (self.phase() == Phase::Live),
    {
        self.created && !self.dropped
    }
}

/// The flags after a successful initialization.
pub open spec fn init_success_spec(s: DomainState) -> DomainState {
    DomainState { created: true, ..s }
}

/// The flags after a teardown.
pub open spec fn teardown_spec(s: DomainState) -> DomainState {
    DomainState { dropped: true, ..s }
}

/// Once a domain was created, every later initialization request is refused,
/// whether the domain is still live or already torn down; and a torn-down
/// domain leaves the process permanently unable to initialize again.
pub proof fn lemma_singleton_domain(s: DomainState, name: Seq<u8>)
    requires
        s.wf(),
        s.phase() == Phase::Unborn,
    ensures
        init_success_spec(s).phase() == Phase::Live,
        new_request_spec(init_success_spec(s), name)
            == Err::<Seq<u8>, MonoError>(MonoError::DomainAlreadyExists),
        teardown_spec(init_success_spec(s)).phase() == Phase::Dead,
        new_request_spec(teardown_spec(init_success_spec(s)), name)
            == Err::<Seq<u8>, MonoError>(MonoError::DomainAlreadyExists),
{
}

/// Teardown moves a live process to the dead phase, in which the teardown
/// precondition can never hold again: a second teardown is impossible for
/// verified callers, and the embedding layer aborts if it is attempted.
pub proof fn lemma_no_double_teardown(s: DomainState)
    requires
        s.wf(),
        s.phase() == Phase::Live,
    ensures
        teardown_spec(s).wf(),
        teardown_spec(s).phase() == Phase::Dead,
        teardown_spec(s).phase() != Phase::Live,
{
}

/// What an initialization request yields for given flags and domain name.
pub open spec fn new_request_spec(s: DomainState, name: Seq<u8>) -> Result<Seq<u8>, MonoError> {
    if s.phase() != Phase::Unborn {
        Err(MonoError::DomainAlreadyExists)
    } else if has_interior_nul(name) {
        Err(MonoError::InvalidString)
    } else {
        Ok(c_bytes_of(name))
    }
}

/// The singleton handle of the running runtime with its one application
/// domain. A value of this type only arises from a successful
/// initialization reply or from [`Domain::get`] in the live phase.
pub struct Domain {
    /// The raw domain handle, as an address value. Never null.
    pub raw: usize,
}

impl Domain {
    /// A domain handle wraps a non-null raw handle.
    pub open spec fn wf(self) -> bool {
        self.raw != 0
    }

    /// Requests initialization of the runtime under a friendly domain name:
    /// checks that no domain was ever created in this process and that the
    /// name is a valid C string, and yields the name bytes the runtime's
    /// initializer takes. The embedding layer makes the call and hands the
    /// reply to [`Domain::new_reply`].
    pub fn new(state: &DomainState, name: &[u8]) -> (r: Result<Vec<u8>, MonoError>)
        ensures
            match r {
                Ok(v) => new_request_spec(*state, name@) == Ok::<Seq<u8>, MonoError>(v@),
                Err(e) => new_request_spec(*state, name@) == Err::<Seq<u8>, MonoError>(e),
            },
    {
        if state.created || state.dropped {
            Err(MonoError::DomainAlreadyExists)
        } else {
            to_c_bytes(name)
        }
    }

    /// Requests initialization under a specific runtime version: as
    /// [`Domain::new`], and also turns the version string into its C form.
    /// Yields the name bytes and the version bytes, in that order.
    pub fn new_with_version(state: &DomainState, name: &[u8], version: &[u8]) -> (r: Result<
        (Vec<u8>, Vec<u8>),
        MonoError,
    >)
        ensures
            state.phase() != Phase::Unborn ==> r == Err::<(Vec<u8>, Vec<u8>), MonoError>(
                MonoError::DomainAlreadyExists,
            ),
            state.phase() == Phase::Unborn && has_interior_nul(name@) ==> r == Err::<
                (Vec<u8>, Vec<u8>),
                MonoError,
            >(MonoError::InvalidString),
            state.phase() == Phase::Unborn && !has_interior_nul(name@) && has_interior_nul(
                version@,
            ) ==> r == Err::<(Vec<u8>, Vec<u8>), MonoError>(MonoError::InvalidString),
            state.phase() == Phase::Unborn && !has_interior_nul(name@) && !has_interior_nul(
                version@,
            ) ==> r is Ok && r->Ok_0.0@ == c_bytes_of(name@) && r->Ok_0.1@ == c_bytes_of(version@),
    {
        if state.created || state.dropped {
            return Err(MonoError::DomainAlreadyExists);
        }
        let name_c = to_c_bytes(name)?;
        let version_c = to_c_bytes(version)?;
        Ok((name_c, version_c))
    }

    /// Digests the initializer's reply. A null reply means initialization
    /// failed and the process stays unborn; a non-null reply sets the
    /// `created` flag — the one transition into the live phase — and wraps
    /// the handle.
    pub fn new_reply(state: &mut DomainState, raw: usize) -> (r: Result<Domain, MonoError>)
        requires
            old(state).wf(),
            old(state).phase() == Phase::Unborn,
        ensures
            final(state).wf(),
            raw == 0 ==> r == Err::<Domain, MonoError>(MonoError::InitFailed) && *final(state)
                == *old(state),
            raw != 0 ==> r is Ok && r->Ok_0.raw == raw && r->Ok_0.wf() && *final(state)
                == init_success_spec(*old(state)),
    {
        if raw == 0 {
            Err(MonoError::InitFailed)
        } else {
            state.created = true;
            Ok(Domain { raw })
        }
    }

    /// Digests the current-domain accessor's reply: a handle comes back only
    /// in the live phase, and only when the runtime itself reported a
    /// non-null current domain.
    pub fn get(state: &DomainState, raw: usize) -> (r: Option<Domain>)
        ensures
            state.phase() != Phase::Live ==> r is None,
            state.phase() == Phase::Live && raw == 0 ==> r is None,
            state.phase() == Phase::Live && raw != 0 ==> r == Some(Domain { raw }),
    {
        if !state.created || state.dropped {
            None
        } else if raw == 0 {
            None
        } else {
            Some(Domain { raw })
        }
    }

    /// Consumes the domain and moves the process to the dead phase, handing
    /// back the raw handle the runtime's cleanup call takes. Teardown of an
    /// already-dead process is fatal, so the live phase is required here and
    /// the embedding layer aborts when the flag is already set.
    pub fn teardown(self, state: &mut DomainState) -> (r: usize)
        requires
            old(state).wf(),
            old(state).phase() == Phase::Live,
            self.wf(),
        ensures
            final(state).wf(),
            *final(state) == teardown_spec(*old(state)),
            final(state).phase() == Phase::Dead,
            r == self.raw,
    {
        state.dropped = true;
        self.raw
    }

    /// Requests an internal-call registration: a host function is to be
    /// bound under a managed-visible name of the form
    /// `"Namespace.Type::Method"`. Registration is permitted only while the
    /// domain is live. Yields the C bytes of the symbolic path; the embedding
    /// layer passes them to the registry together with the function pointer,
    /// whose type never crosses into this crate.
    pub fn add_internal_call(&self, state: &DomainState, path: &[u8]) -> (r: Result<
        Vec<u8>,
        MonoError,
    >)
        requires
            state.phase() == Phase::Live,
            self.wf(),
        ensures
            has_interior_nul(path@) ==> r == Err::<Vec<u8>, MonoError>(MonoError::InvalidString),
            !has_interior_nul(path@) ==> r is Ok && r->Ok_0@ == c_bytes_of(path@),
    {
        to_c_bytes(path)
    }

    /// Digests the object allocator's reply: wraps the raw instance pointer,
    /// which may be null, without running any constructor.
    pub fn create_object(&self, state: &DomainState, raw: usize) -> (o: MonoObject)
        requires
            state.phase() == Phase::Live,
            self.wf(),
        ensures
            o.raw == raw,
    {
        MonoObject { raw }
    }

    /// Digests the array allocator's reply for a requested length `n`: the
    /// handle records that length, so the array's reported length is the
    /// length that was asked for.
    pub fn create_array(&self, state: &DomainState, n: usize, raw: usize) -> (a: MonoArray)
        requires
            state.phase() == Phase::Live,
            self.wf(),
        ensures
            a.raw == raw,
            a.len == n,
    {
        MonoArray { raw, len: n }
    }

    /// Requests allocation of a managed string from host bytes: refuses
    /// interior nulls and yields the null-terminated bytes the runtime's
    /// string allocator takes. The reply goes to
    /// [`Domain::create_string_reply`].
    pub fn create_string(&self, state: &DomainState, s: &[u8]) -> (r: Result<Vec<u8>, MonoError>)
        requires
            state.phase() == Phase::Live,
            self.wf(),
        ensures
            has_interior_nul(s@) ==> r == Err::<Vec<u8>, MonoError>(MonoError::InvalidString),
            !has_interior_nul(s@) ==> r is Ok && r->Ok_0@ == c_bytes_of(s@),
    {
        to_c_bytes(s)
    }

    /// Digests the string allocator's reply.
    pub fn create_string_reply(&self, raw: usize) -> (s: MonoString)
        ensures
            s.raw == raw,
    {
        MonoString { raw }
    }

    /// Requests loading of an assembly from a filesystem path: refuses paths
    /// with interior nulls and yields the C path bytes the loader takes. The
    /// same bytes are retained in the assembly handle afterwards, because
    /// they are forwarded as the first program argument when the assembly is
    /// executed; see [`Domain::open_assembly_reply`].
    pub fn open_assembly(&self, state: &DomainState, path: &[u8]) -> (r: Result<Vec<u8>, MonoError>)
        requires
            state.phase() == Phase::Live,
            self.wf(),
        ensures
            has_interior_nul(path@) ==> r == Err::<Vec<u8>, MonoError>(MonoError::InvalidPath),
            !has_interior_nul(path@) ==> r is Ok && r->Ok_0@ == c_bytes_of(path@) && c_str_wf(
                r->Ok_0@,
            ),
    {
        let r = path_to_c_bytes(path);
        proof {
            if !has_interior_nul(path@) {
                crate::cstr::lemma_c_round_trip(path@);
            }
        }
        r
    }

    /// Digests the assembly loader's reply: a null reply means the assembly
    /// was not found (missing file, bad format, or unresolved dependencies);
    /// a non-null reply is wrapped together with the retained path bytes.
    pub fn open_assembly_reply(&self, path_c: Vec<u8>, raw: usize) -> (r: Result<
        crate::assembly::Assembly,
        MonoError,
    >)
        requires
            c_str_wf(path_c@),
            self.wf(),
        ensures
            raw == 0 ==> r == Err::<crate::assembly::Assembly, MonoError>(
                MonoError::AssemblyNotFound,
            ),
            raw != 0 ==> r is Ok && r->Ok_0.raw == raw && r->Ok_0.path_c@ == path_c@
                && r->Ok_0.wf(),
    {
        if raw == 0 {
            Err(MonoError::AssemblyNotFound)
        } else {
            Ok(crate::assembly::Assembly { raw, path_c })
        }
    }
}

} // verus!
