//! Runtime configuration: the config parser and the search directories.
//!
//! Loading the default configuration takes no host input, so the embedding
//! layer invokes the parser with a null path directly. The two operations
//! that do take host paths are prepared here: the paths are validated and
//! turned into the null-terminated byte strings the runtime takes.

use vstd::prelude::*;

use crate::MonoError;
use crate::cstr::c_bytes_of;
use crate::cstr::has_interior_nul;
use crate::cstr::path_to_c_bytes;

verus! {

/// Requests loading a custom configuration file: yields the C bytes of the
/// path the parser takes, refusing paths with interior nulls.
pub fn load_custom(path: &[u8]) -> (r: Result<Vec<u8>, MonoError>)
    ensures
        has_interior_nul(path@) ==> r == Err::<Vec<u8>, MonoError>(MonoError::InvalidPath),
        !has_interior_nul(path@) ==> r is Ok && r->Ok_0@ == c_bytes_of(path@),
{
    path_to_c_bytes(path)
}

/// Requests setting the runtime's library and configuration search roots:
/// yields the C bytes of the two directory paths, in that order, refusing
/// either path when it holds an interior null.
pub fn set_dirs(lib_dir: &[u8], etc_dir: &[u8]) -> (r: Result<(Vec<u8>, Vec<u8>), MonoError>)
    ensures
        has_interior_nul(lib_dir@) ==> r == Err::<(Vec<u8>, Vec<u8>), MonoError>(
            MonoError::InvalidPath,
        ),
        !has_interior_nul(lib_dir@) && has_interior_nul(etc_dir@) ==> r == Err::<
            (Vec<u8>, Vec<u8>),
            MonoError,
        >(MonoError::InvalidPath),
        !has_interior_nul(lib_dir@) && !has_interior_nul(etc_dir@) ==> r is Ok && r->Ok_0.0@
            == c_bytes_of(lib_dir@) && r->Ok_0.1@ == c_bytes_of(etc_dir@),
{
    let lib_c = path_to_c_bytes(lib_dir)?;
    let etc_c = path_to_c_bytes(etc_dir)?;
    Ok((lib_c, etc_c))
}

} // verus!
