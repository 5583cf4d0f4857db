use vstd::prelude::*;

mod copy;
mod error;
mod paths;
mod validate;

pub use copy::agrees_with;
pub use copy::copy_decision;
pub use copy::copy_file;
pub use copy::lemma_directory_source;
pub use copy::lemma_existing_destination;
pub use copy::lemma_force_copy_idempotent;
pub use copy::lemma_missing_source;
pub use copy::lemma_safe_copy_into_directory;
pub use copy::lemma_source_without_file_name;
pub use copy::resolve_destination_path;
pub use copy::resolved_destination;
pub use error::ErrorView;
pub use error::FmanError;
pub use paths::file_name;
pub use paths::file_name_of;
pub use paths::join;
pub use paths::join_path;
pub use validate::PathKind;
pub use validate::ensure_exists;
pub use validate::ensure_is_file;
pub use validate::ensure_not_exists;

verus! {

/// Result type for all fman operations.
pub type FmanResult<T> = Result<T, FmanError>;

/// Copies a file without overwriting: decides the copy of `src` to
/// `dst` with overwriting disallowed and, on success, returns the
/// concrete destination file path to write.
///
/// The three `PathKind` arguments are what a stat observed at the source
/// path, the destination argument, and the resolved destination path; a
/// resolved destination that is already present fails with
/// `AlreadyExists`.
pub fn copy_file_safe(
    src: &str,
    dst: &str,
    src_kind: PathKind,
    dst_kind: PathKind,
    resolved_kind: PathKind,
) -> (r: FmanResult<String>)
    ensures
        agrees_with(r, copy_decision(src@, dst@, false, src_kind, dst_kind, resolved_kind)),
{
    copy_file(src, dst, false, src_kind, dst_kind, resolved_kind)
}

/// Copies a file with overwriting allowed: decides the copy of `src` to
/// `dst` and, on success, returns the concrete destination file path to
/// write, whether or not something is already present there.
///
/// The three `PathKind` arguments are what a stat observed at the source
/// path, the destination argument, and the resolved destination path.
pub fn copy_file_force(
    src: &str,
    dst: &str,
    src_kind: PathKind,
    dst_kind: PathKind,
    resolved_kind: PathKind,
) -> (r: FmanResult<String>)
    ensures
        agrees_with(r, copy_decision(src@, dst@, true, src_kind, dst_kind, resolved_kind)),
{
    copy_file(src, dst, true, src_kind, dst_kind, resolved_kind)
}

} // verus!
