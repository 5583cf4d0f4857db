use vstd::prelude::*;

use crate::error::{ErrorView, FmanError};

verus! {

/// What one look at the filesystem found at a path: nothing, a regular
/// file, a directory, or something else (a device, a socket, and the
/// like).
///
/// The unverified shell around this library performs the actual stat and
/// hands the observation in; every decision in this crate is a pure
/// function of such observations, so each check reflects the filesystem
/// only as of the moment it was observed.
#[derive(Clone, Copy, Debug, PartialEq, Eq, Structural)]
pub enum PathKind {
    Missing,
    File,
    Dir,
    Other,
}

/// Checks that `path` exists, given that a stat of it observed `kind`.
///
/// Succeeds exactly when something (file, directory, or other) was
/// observed at the path; fails with `NotFound` carrying the path
/// otherwise.
pub fn ensure_exists(path: &str, kind: PathKind) -> (r: Result<(), FmanError>)
    ensures
        r is Ok <==> !(kind is Missing),
        r matches Err(e) ==> e@ == ErrorView::NotFound(path@),
{
    if kind == PathKind::Missing {
        Err(FmanError::NotFound(path.to_owned()))
    } else {
        Ok(())
    }
}

/// Checks that `path` does not exist, given that a stat of it observed
/// `kind`.
///
/// Succeeds exactly when nothing was observed at the path; fails with
/// `AlreadyExists` carrying the path otherwise.
pub fn ensure_not_exists(path: &str, kind: PathKind) -> (r: Result<(), FmanError>)
    ensures
        r is Ok <==> kind is Missing,
        r matches Err(e) ==> e@ == ErrorView::AlreadyExists(path@),
{
    if kind == PathKind::Missing {
        Ok(())
    } else {
        Err(FmanError::AlreadyExists(path.to_owned()))
    }
}

/// Checks that `path` is a regular file, given that a stat of it
/// observed `kind`.
///
/// Succeeds exactly when a regular file was observed; fails with
/// `InvalidInput` carrying the path otherwise. A missing path also
/// fails here, so this check alone does not distinguish "missing" from
/// "wrong type": the copy pipeline checks existence first.
pub fn ensure_is_file(path: &str, kind: PathKind) -> (r: Result<(), FmanError>)
    ensures
        r is Ok <==> kind is File,
        r matches Err(e) ==> e@ == ErrorView::InvalidInput(path@),
{
    if kind == PathKind::File {
        Ok(())
    } else {
        Err(FmanError::InvalidInput(path.to_owned()))
    }
}

} // verus!
