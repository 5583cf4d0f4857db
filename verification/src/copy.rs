use vstd::prelude::*;

use crate::error::{ErrorView, FmanError};
use crate::paths::{file_name, file_name_of, join, join_path};
use crate::validate::{ensure_exists, ensure_is_file, ensure_not_exists, PathKind};

verus! {

/// The concrete file path a copy with destination argument `dst` writes
/// to: a destination that is currently a directory receives the source's
/// file name, any other destination is taken verbatim as the target file
/// path. `None` when the source path has no file name to carry over.
pub open spec fn resolved_destination(src: Seq<char>, dst: Seq<char>, dst_is_dir: bool) -> Option<
    Seq<char>,
> {
    if dst_is_dir {
        match file_name_of(src) {
            Some(name) => Some(join_path(dst, name)),
            None => None,
        }
    } else {
        Some(dst)
    }
}

/// What a copy request must do, decided from the paths, the overwrite
/// flag, and the observed state of the filesystem: either the concrete
/// destination file path to write, or the first error of the validation
/// pipeline (missing source, source not a regular file, unresolvable
/// destination, destination already present without overwrite).
pub open spec fn copy_decision(
    src: Seq<char>,
    dst: Seq<char>,
    force: bool,
    src_kind: PathKind,
    dst_kind: PathKind,
    resolved_kind: PathKind,
) -> Result<Seq<char>, ErrorView> {
    if src_kind is Missing {
        Err(ErrorView::NotFound(src))
    } else if !(src_kind is File) {
        Err(ErrorView::InvalidInput(src))
    } else {
        match resolved_destination(src, dst, dst_kind is Dir) {
            None => Err(ErrorView::InvalidInput(src)),
            Some(resolved) => if !force && !(resolved_kind is Missing) {
                Err(ErrorView::AlreadyExists(resolved))
            } else {
                Ok(resolved)
            },
        }
    }
}

/// Whether the executable outcome `r` carries exactly the decision `d`,
/// path for path and error for error.
pub open spec fn agrees_with(r: Result<String, FmanError>, d: Result<Seq<char>, ErrorView>) -> bool {
    match d {
        Ok(p) => r matches Ok(s) && s@ == p,
        Err(e) => r matches Err(err) && err@ == e,
    }
}

/// Resolves the final destination file path from the destination
/// argument, given that a stat observed it to be (or not be) a
/// directory.
///
/// If the destination is currently a directory, the source's file name
/// is appended to it; otherwise the destination argument is returned
/// verbatim. Fails with `InvalidInput` carrying the source path exactly
/// when a directory destination needs a file name that the source path
/// does not have.
pub fn resolve_destination_path(src: &str, dst: &str, dst_is_dir: bool) -> (r: Result<
    String,
    FmanError,
>)
    ensures
        match resolved_destination(src@, dst@, dst_is_dir) {
            Some(p) => r matches Ok(s) && s@ == p,
            None => r matches Err(e) && e@ == ErrorView::InvalidInput(src@),
        },
{
    if dst_is_dir {
        match file_name(src) {
            Some(name) => Ok(join(dst, name)),
            None => Err(FmanError::InvalidInput(src.to_owned())),
        }
    } else {
        Ok(dst.to_owned())
    }
}

/// Decides a copy of `src` to `dst` and, on success, returns the
/// concrete destination file path to write.
///
/// `src_kind`, `dst_kind` and `resolved_kind` are what a stat observed
/// at the source path, the destination argument, and the resolved
/// destination path respectively; the unverified shell around this
/// library gathers them and performs the byte copy afterwards. The
/// checks run in order and the first failure wins: a missing source is
/// `NotFound`, a source that is not a regular file is `InvalidInput`, a
/// source without a file name for a directory destination is
/// `InvalidInput`, and an already present resolved destination without
/// `force` is `AlreadyExists`.
pub fn copy_file(
    src: &str,
    dst: &str,
    force: bool,
    src_kind: PathKind,
    dst_kind: PathKind,
    resolved_kind: PathKind,
) -> (r: Result<String, FmanError>)
    ensures
        agrees_with(r, copy_decision(src@, dst@, force, src_kind, dst_kind, resolved_kind)),
{
    match ensure_exists(src, src_kind) {
        Err(e) => {
            return Err(e);
        },
        Ok(()) => {},
    }
    match ensure_is_file(src, src_kind) {
        Err(e) => {
            return Err(e);
        },
        Ok(()) => {},
    }
    let resolved = match resolve_destination_path(src, dst, dst_kind == PathKind::Dir) {
        Err(e) => {
            return Err(e);
        },
        Ok(p) => p,
    };
    if !force {
        match ensure_not_exists(resolved.as_str(), resolved_kind) {
            Err(e) => {
                return Err(e);
            },
            Ok(()) => {},
        }
    }
    Ok(resolved)
}

/// A copy without overwrite of a regular-file source with file name
/// `name` into a directory destination whose joined target is not yet
/// present decides success, and its target is the directory joined with
/// the source's file name.
pub proof fn lemma_safe_copy_into_directory(
    src: Seq<char>,
    dst: Seq<char>,
    name: Seq<char>,
    resolved_kind: PathKind,
)
    requires
        file_name_of(src) == Some(name),
        resolved_kind is Missing,
    ensures
        copy_decision(src, dst, false, PathKind::File, PathKind::Dir, resolved_kind)
            == Ok::<Seq<char>, ErrorView>(join_path(dst, name)),
{
}

/// When the joined target of a regular-file source and a directory
/// destination is already present, a copy without overwrite decides
/// `AlreadyExists` carrying that target, and a copy with overwrite
/// decides success on the same target.
pub proof fn lemma_existing_destination(
    src: Seq<char>,
    dst: Seq<char>,
    name: Seq<char>,
    resolved_kind: PathKind,
)
    requires
        file_name_of(src) == Some(name),
        !(resolved_kind is Missing),
    ensures
        copy_decision(src, dst, false, PathKind::File, PathKind::Dir, resolved_kind)
            == Err::<Seq<char>, ErrorView>(ErrorView::AlreadyExists(join_path(dst, name))),
        copy_decision(src, dst, true, PathKind::File, PathKind::Dir, resolved_kind)
            == Ok::<Seq<char>, ErrorView>(join_path(dst, name)),
{
}

/// A copy from a missing source decides `NotFound` carrying the source
/// path, whatever the destination, the overwrite flag, and the rest of
/// the observed filesystem state.
pub proof fn lemma_missing_source(
    src: Seq<char>,
    dst: Seq<char>,
    force: bool,
    dst_kind: PathKind,
    resolved_kind: PathKind,
)
    ensures
        copy_decision(src, dst, force, PathKind::Missing, dst_kind, resolved_kind)
            == Err::<Seq<char>, ErrorView>(ErrorView::NotFound(src)),
{
}

/// A copy whose source is a directory decides `InvalidInput` carrying
/// the source path, whatever the destination, the overwrite flag, and
/// the rest of the observed filesystem state.
pub proof fn lemma_directory_source(
    src: Seq<char>,
    dst: Seq<char>,
    force: bool,
    dst_kind: PathKind,
    resolved_kind: PathKind,
)
    ensures
        copy_decision(src, dst, force, PathKind::Dir, dst_kind, resolved_kind)
            == Err::<Seq<char>, ErrorView>(ErrorView::InvalidInput(src)),
{
}

/// For a source path with no extractable file name and a directory
/// destination, resolution yields no target, and the copy pipeline
/// decides `InvalidInput` carrying the source path.
pub proof fn lemma_source_without_file_name(
    src: Seq<char>,
    dst: Seq<char>,
    force: bool,
    resolved_kind: PathKind,
)
    requires
        file_name_of(src) is None,
    ensures
        resolved_destination(src, dst, true) is None,
        copy_decision(src, dst, force, PathKind::File, PathKind::Dir, resolved_kind)
            == Err::<Seq<char>, ErrorView>(ErrorView::InvalidInput(src)),
{
}

/// A copy with overwrite decides the same outcome whatever a stat
/// observed at the resolved destination: repeating it with an unchanged
/// source and destination targets the same path both times.
pub proof fn lemma_force_copy_idempotent(
    src: Seq<char>,
    dst: Seq<char>,
    src_kind: PathKind,
    dst_kind: PathKind,
    resolved_kind_first: PathKind,
    resolved_kind_second: PathKind,
)
    ensures
        copy_decision(src, dst, true, src_kind, dst_kind, resolved_kind_first)
            == copy_decision(src, dst, true, src_kind, dst_kind, resolved_kind_second),
{
}

} // verus!
