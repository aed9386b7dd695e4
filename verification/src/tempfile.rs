//! A staged file, and the two ways to publish it under a name.
//!
//! A [`LinkableTempfile`] stands for a file that exists in the target directory
//! but under no name that anyone can see. It is written to freely and then
//! consumed exactly once: by [`LinkableTempfile::emplace`], which binds the name
//! only if it is free, or by [`LinkableTempfile::replace`], which binds it over
//! whatever is there. Dropped without either, it leaves the name as it was.
//!
//! Both end in a [`Publish`]: the permission bits to give the staged file, and
//! then how to bind the name. Binding is one atomic step of the directory, so
//! the name either still holds what it held or holds the finished file.
use vstd::prelude::*;
use crate::dirext::absent_if_not_found;
use crate::error::Failure;
use crate::metadata::{Metadata, Permissions, OWNER_ONLY};

verus! {

/// How a staged file is bound to its name.
#[derive(Clone, Copy, Debug, PartialEq, Eq, Structural)]
pub enum Commit {
    /// Only if nothing occupies the name; otherwise fail with `AlreadyExists`
    /// and leave what is there untouched.
    Emplace,
    /// Over whatever occupies the name, in one step.
    Replace,
}

/// A staged file that has not been published yet.
///
/// `staging` is the driver's handle to it, through which it is written;
/// `permissions` are the bits that the caller asked for, if any.
#[derive(Debug, PartialEq, Eq)]
pub struct LinkableTempfile<S> {
    pub staging: S,
    pub permissions: Option<Permissions>,
}

/// A staged file that is ready to be published: first give it `permissions`,
/// then bind the name as `commit` says.
#[derive(Debug, PartialEq, Eq)]
pub struct Publish<S> {
    pub staging: S,
    pub permissions: Permissions,
    pub commit: Commit,
}

/// What a replacement needs next.
#[derive(Debug, PartialEq, Eq)]
pub enum ReplaceStep<S> {
    /// Nothing decides the permission bits yet: stat the name, without
    /// following a link, and hand the outcome to
    /// [`LinkableTempfile::replace_over`].
    Inspect(LinkableTempfile<S>),
    /// The permission bits are settled.
    Publish(Publish<S>),
}

/// The permission bits of a published file: those the caller asked for; failing
/// that, for a replacement, those of the entry that occupied the name; failing
/// that, owner-only.
pub open spec fn resolved_permissions(
    explicit: Option<Permissions>,
    existing: Option<Permissions>,
    commit: Commit,
) -> Permissions {
    if let Some(asked) = explicit {
        asked
    } else if commit == Commit::Replace && existing is Some {
        existing->Some_0
    } else {
        Permissions { mode: OWNER_ONLY }
    }
}

/// Settles the permission bits of a file about to be published.
pub fn resolve_permissions(
    explicit: Option<Permissions>,
    existing: Option<Permissions>,
    commit: Commit,
) -> (permissions: Permissions)
    ensures
        permissions == resolved_permissions(explicit, existing, commit),
{
    match (explicit, commit, existing) {
        (Some(asked), _, _) => asked,
        (None, Commit::Replace, Some(kept)) => kept,
        _ => Permissions { mode: OWNER_ONLY },
    }
}

impl<S> LinkableTempfile<S> {
    /// What [`LinkableTempfile::emplace`] returns.
    pub open spec fn emplace_spec(self) -> Publish<S> {
        Publish {
            staging: self.staging,
            permissions: resolved_permissions(self.permissions, None, Commit::Emplace),
            commit: Commit::Emplace,
        }
    }

    /// What [`LinkableTempfile::replace`] returns.
    pub open spec fn replace_spec(self) -> ReplaceStep<S> {
        if self.permissions is Some {
            ReplaceStep::Publish(
                Publish {
                    staging: self.staging,
                    permissions: resolved_permissions(self.permissions, None, Commit::Replace),
                    commit: Commit::Replace,
                },
            )
        } else {
            ReplaceStep::Inspect(self)
        }
    }

    /// What [`LinkableTempfile::replace_over`] returns.
    pub open spec fn replace_over_spec<E>(self, found: Result<Metadata, Failure<E>>) -> Result<
        Publish<S>,
        Failure<E>,
    > {
        match absent_if_not_found(found) {
            Ok(existing) => Ok(
                Publish {
                    staging: self.staging,
                    permissions: resolved_permissions(
                        self.permissions,
                        match existing {
                            Some(metadata) => Some(metadata.permissions),
                            None => None,
                        },
                        Commit::Replace,
                    ),
                    commit: Commit::Replace,
                },
            ),
            Err(failure) => Err(failure),
        }
    }

    /// A freshly staged file, for which no permission bits have been asked.
    pub fn new(staging: S) -> (staged: Self)
        ensures
            staged == (LinkableTempfile { staging, permissions: None }),
    {
        LinkableTempfile { staging, permissions: None }
    }

    /// Publish under the name only if it is free: with the bits that were
    /// asked for, or owner-only. What may already occupy the name plays no
    /// part.
    pub fn emplace(self) -> (publish: Publish<S>)
        ensures
            publish == self.emplace_spec(),
    {
        let permissions = resolve_permissions(self.permissions, None, Commit::Emplace);
        Publish { staging: self.staging, permissions, commit: Commit::Emplace }
    }

    /// Publish under the name whatever occupies it. Where permission bits were
    /// asked for they are used, and the name need not be looked at; where none
    /// were, the entry that occupies the name decides, so it has to be
    /// inspected first.
    pub fn replace(self) -> (step: ReplaceStep<S>)
        ensures
            step == self.replace_spec(),
    {
        match self.permissions {
            Some(asked) => ReplaceStep::Publish(
                Publish { staging: self.staging, permissions: asked, commit: Commit::Replace },
            ),
            None => ReplaceStep::Inspect(self),
        }
    }

    /// Settles a replacement once the name has been inspected. `found` is the
    /// outcome of a stat of the name that does not follow a link.
    ///
    /// An entry that was found hands its permission bits on to the new file,
    /// unless the caller asked for others. `NotFound` means that the name is
    /// free, and the bits are the caller's or owner-only. Any other failure
    /// ends the replacement with that failure, and the staged file is dropped.
    pub fn replace_over<E>(self, found: Result<Metadata, Failure<E>>) -> (out: Result<
        Publish<S>,
        Failure<E>,
    >)
        ensures
            out == self.replace_over_spec(found),
    {
        match crate::dirext::optional(found) {
            Ok(existing) => {
                let kept = match existing {
                    Some(metadata) => Some(metadata.permissions),
                    None => None,
                };
                let permissions = resolve_permissions(self.permissions, kept, Commit::Replace);
                Ok(Publish { staging: self.staging, permissions, commit: Commit::Replace })
            },
            Err(failure) => Err(failure),
        }
    }
}

} // verus!
