//! Probes that report absence instead of failing, directories made at most
//! once, and files replaced as a whole or not at all.
use vstd::prelude::*;
use crate::error::{Error, ErrorKind, Failure};
use crate::metadata::{EntryKind, Metadata, Permissions};
use crate::tempfile::{LinkableTempfile, ReplaceStep};

verus! {

/// What a probe's outcome means when a missing entry is no error: a found value
/// is present, `NotFound` is absent, and any other failure stays as it is.
pub open spec fn absent_if_not_found<T, E>(probed: Result<T, Failure<E>>) -> Result<
    Option<T>,
    Failure<E>,
> {
    match probed {
        Ok(found) => Ok(Some(found)),
        Err(failure) => if failure.kind == ErrorKind::NotFound {
            Ok(None)
        } else {
            Err(failure)
        },
    }
}

/// Turns the outcome of a probe (open, stat with or without following a link)
/// into an optional value: `NotFound` becomes `None`, every other failure is
/// handed on unchanged.
pub fn optional<T, E>(probed: Result<T, Failure<E>>) -> (out: Result<Option<T>, Failure<E>>)
    ensures
        out == absent_if_not_found(probed),
{
    match probed {
        Ok(found) => Ok(Some(found)),
        Err(failure) => match failure.kind {
            ErrorKind::NotFound => Ok(None),
            _ => Err(failure),
        },
    }
}

/// What the outcome of a removal means when a missing file is no error: `true`
/// where something was removed, `false` where there was nothing to remove.
pub open spec fn removed_if_found<E>(removed: Result<(), Failure<E>>) -> Result<bool, Failure<E>> {
    match removed {
        Ok(()) => Ok(true),
        Err(failure) => if failure.kind == ErrorKind::NotFound {
            Ok(false)
        } else {
            Err(failure)
        },
    }
}

/// Turns the outcome of removing a file into whether there was one: `NotFound`
/// becomes `false`, every other failure is handed on unchanged.
pub fn remove_file_optional<E>(removed: Result<(), Failure<E>>) -> (out: Result<bool, Failure<E>>)
    ensures
        out == removed_if_found(removed),
{
    match removed {
        Ok(()) => Ok(true),
        Err(failure) => match failure.kind {
            ErrorKind::NotFound => Ok(false),
            _ => Err(failure),
        },
    }
}

/// Where the making of a directory stands after the attempt to create it.
#[derive(Debug, PartialEq, Eq)]
pub enum EnsureDir<E> {
    /// The name is taken. Stat it, without following a link, and hand the
    /// outcome to [`ensure_dir_found`].
    Inspect,
    /// Settled: `Ok(true)` where the directory was created.
    Done(Result<bool, Error<E>>),
}

/// What [`ensure_dir_with`] returns.
pub open spec fn ensure_dir_with_spec<E>(created: Result<(), Failure<E>>) -> EnsureDir<E> {
    match created {
        Ok(()) => EnsureDir::Done(Ok(true)),
        Err(failure) => if failure.kind == ErrorKind::AlreadyExists {
            EnsureDir::Inspect
        } else {
            EnsureDir::Done(Err(Error::Underlying(failure)))
        },
    }
}

/// What [`ensure_dir_found`] returns.
pub open spec fn ensure_dir_found_spec<E>(found: Result<Metadata, Failure<E>>) -> Result<
    bool,
    Error<E>,
> {
    match found {
        Ok(metadata) => if metadata.kind == EntryKind::Dir {
            Ok(false)
        } else {
            Err(Error::NotADirectory)
        },
        Err(failure) => Err(Error::Underlying(failure)),
    }
}

/// The first step of making sure that a directory exists. `created` is the
/// outcome of trying to create it, as one entry and with the options the
/// caller chose; no missing parent is ever created.
///
/// Created means done, with `true`. `AlreadyExists` means that the name has to
/// be inspected. Any other failure, a missing parent among them, is the
/// answer.
pub fn ensure_dir_with<E>(created: Result<(), Failure<E>>) -> (step: EnsureDir<E>)
    ensures
        step == ensure_dir_with_spec(created),
{
    match created {
        Ok(()) => EnsureDir::Done(Ok(true)),
        Err(failure) => match failure.kind {
            ErrorKind::AlreadyExists => EnsureDir::Inspect,
            _ => EnsureDir::Done(Err(Error::Underlying(failure))),
        },
    }
}

/// The second step of making sure that a directory exists, for a name that was
/// taken. `found` is the outcome of a stat of the name that does not follow a
/// link.
///
/// A directory means done, with `false`. Anything else is `NotADirectory`: a
/// file, and a symbolic link too, wherever it points. A failed stat is handed
/// on.
pub fn ensure_dir_found<E>(found: Result<Metadata, Failure<E>>) -> (out: Result<bool, Error<E>>)
    ensures
        out == ensure_dir_found_spec(found),
{
    match found {
        Ok(metadata) => match metadata.kind {
            EntryKind::Dir => Ok(false),
            _ => Err(Error::NotADirectory),
        },
        Err(failure) => Err(Error::Underlying(failure)),
    }
}

/// What [`replace_written`] returns.
pub open spec fn replace_written_spec<S, T, W>(
    staged: LinkableTempfile<S>,
    written: Result<T, W>,
) -> Result<(T, ReplaceStep<S>), W> {
    match written {
        Ok(value) => Ok((value, staged.replace_spec())),
        Err(error) => Err(error),
    }
}

/// Decides what becomes of a staged file once the step that writes it has
/// ended in `written`.
///
/// Where the step succeeded, the file is to replace what the name holds, and
/// the step's value is kept for the caller. Where it failed, the staged file is
/// dropped, nothing is published, and the step's error is returned as it is.
pub fn replace_written<S, T, W>(staged: LinkableTempfile<S>, written: Result<T, W>) -> (out: Result<
    (T, ReplaceStep<S>),
    W,
>)
    ensures
        out == replace_written_spec(staged, written),
{
    match written {
        Ok(value) => Ok((value, staged.replace())),
        Err(error) => Err(error),
    }
}

/// Runs `writer` once on the staged file and, only if it succeeds, sets the
/// file up to replace what the name holds. The entry that occupies the name
/// decides the permission bits of the new file; owner-only where there is none.
///
/// Where `writer` fails, whatever it wrote is dropped with the staged file and
/// its error is returned unchanged.
pub fn replace_file_with<S, T, W, F: FnOnce(&mut S) -> Result<T, W>>(staging: S, writer: F) -> (out:
    Result<(T, ReplaceStep<S>), W>)
    requires
        forall|handle: &mut S| *handle == staging ==> call_requires(writer, (handle,)),
    ensures
        exists|handle: &mut S, written: Result<T, W>|
            {
                &&& *handle == staging
                &&& #[trigger] call_ensures(writer, (handle,), written)
                &&& out == replace_written_spec(
                    LinkableTempfile { staging: *final(handle), permissions: None },
                    written,
                )
            },
{
    write_then_replace(staging, None, writer)
}

/// Runs `writer` once on the staged file and, only if it succeeds, sets the
/// file up to replace what the name holds, with the given permission bits.
///
/// Where `writer` fails, whatever it wrote is dropped with the staged file and
/// its error is returned unchanged.
pub fn replace_file_with_perms<S, T, W, F: FnOnce(&mut S) -> Result<T, W>>(
    staging: S,
    permissions: Permissions,
    writer: F,
) -> (out: Result<(T, ReplaceStep<S>), W>)
    requires
        forall|handle: &mut S| *handle == staging ==> call_requires(writer, (handle,)),
    ensures
        exists|handle: &mut S, written: Result<T, W>|
            {
                &&& *handle == staging
                &&& #[trigger] call_ensures(writer, (handle,), written)
                &&& out == replace_written_spec(
                    LinkableTempfile { staging: *final(handle), permissions: Some(permissions) },
                    written,
                )
            },
{
    write_then_replace(staging, Some(permissions), writer)
}

fn write_then_replace<S, T, W, F: FnOnce(&mut S) -> Result<T, W>>(
    staging: S,
    permissions: Option<Permissions>,
    writer: F,
) -> (out: Result<(T, ReplaceStep<S>), W>)
    requires
        forall|handle: &mut S| *handle == staging ==> call_requires(writer, (handle,)),
    ensures
        exists|handle: &mut S, written: Result<T, W>|
            {
                &&& *handle == staging
                &&& #[trigger] call_ensures(writer, (handle,), written)
                &&& out == replace_written_spec(
                    LinkableTempfile { staging: *final(handle), permissions },
                    written,
                )
            },
{
    let mut staged = LinkableTempfile { staging, permissions };
    let written = writer(&mut staged.staging);
    replace_written(staged, written)
}

} // verus!
