//! A model of one name in a directory, and what the protocols of this crate
//! do to it.
//!
//! Every request of [`crate::dirext`] and [`crate::tempfile`] concerns a single
//! name. A [`Place`] says what that name holds; the functions below say what
//! each primitive of a directory does to it and answers. The runs
//! ([`ensure_dir`], [`emplace`], [`replace`], [`replace_file_with`]) feed those
//! answers to the decisions of this crate, exactly as a driver feeds them the
//! answers of a real directory, and the proofs at the end state what then
//! holds of the name.
//!
//! A primitive may also fail for a reason that the model knows nothing of (the
//! disk is full, a right is missing). [`Faults`] names such failures; a
//! primitive that fails leaves the name as it was.
//!
//! The model is what this crate takes a directory to do. Nothing here proves
//! that a given file system behaves so: what is proved is that, on one that
//! does, the protocols keep their promises.
use vstd::prelude::*;
use crate::dirext::{
    absent_if_not_found,
    ensure_dir_found_spec,
    ensure_dir_with_spec,
    removed_if_found,
    replace_written_spec,
    EnsureDir,
};
use crate::error::{Error, ErrorKind, Failure};
use crate::metadata::{EntryKind, Metadata, Permissions, OWNER_ONLY};
use crate::tempfile::{resolved_permissions, Commit, LinkableTempfile, Publish, ReplaceStep};

verus! {

/// A file or a directory.
pub enum Node {
    File { content: Seq<u8>, permissions: Permissions },
    Dir { permissions: Permissions },
}

/// What occupies a name.
pub enum Entry {
    /// A file or a directory.
    Node(Node),
    /// A symbolic link; `to` is what following it reaches, `None` where it
    /// leads nowhere.
    Symlink { permissions: Permissions, to: Option<Node> },
}

/// One name in a directory.
pub struct Place {
    /// Whether the directory that would hold the name exists.
    pub parent: bool,
    /// What the name holds, if anything.
    pub entry: Option<Entry>,
}

impl Place {
    /// An entry needs a directory to stand in.
    pub open spec fn wf(self) -> bool {
        self.entry is Some ==> self.parent
    }

    /// The same place with the name bound to `node`.
    pub open spec fn holding(self, node: Node) -> Place {
        Place { parent: self.parent, entry: Some(Entry::Node(node)) }
    }

    /// The same place with the name free.
    pub open spec fn vacated(self) -> Place {
        Place { parent: self.parent, entry: None }
    }
}

/// Failures of the four kinds of primitive that have causes outside the
/// model. `None` means that the primitive behaves as the model says.
pub struct Faults {
    pub create: Option<ErrorKind>,
    pub stat: Option<ErrorKind>,
    pub set_permissions: Option<ErrorKind>,
    pub bind: Option<ErrorKind>,
}

/// No failure from outside the model.
pub open spec fn no_faults() -> Faults {
    Faults { create: None, stat: None, set_permissions: None, bind: None }
}

/// A failure of the given kind, as the model reports it.
pub open spec fn failure(kind: ErrorKind) -> Failure<()> {
    Failure { kind, source: () }
}

/// What a stat reports of a node.
pub open spec fn metadata_of(node: Node) -> Metadata {
    match node {
        Node::File { permissions, .. } => Metadata { kind: EntryKind::File, permissions },
        Node::Dir { permissions } => Metadata { kind: EntryKind::Dir, permissions },
    }
}

/// What the name leads to when links are followed.
pub open spec fn reached(place: Place) -> Option<Node> {
    match place.entry {
        None => None,
        Some(Entry::Node(node)) => Some(node),
        Some(Entry::Symlink { to, .. }) => to,
    }
}

/// Opening the name for reading: the node it leads to, links followed.
pub open spec fn open(place: Place) -> Result<Node, Failure<()>> {
    match reached(place) {
        Some(node) => Ok(node),
        None => Err(failure(ErrorKind::NotFound)),
    }
}

/// A stat of the name. With `follow` a link is followed to what it leads to;
/// without, a link is reported as the link that it is.
pub open spec fn stat(place: Place, follow: bool) -> Result<Metadata, Failure<()>> {
    match place.entry {
        Some(Entry::Symlink { permissions, .. }) if !follow => Ok(
            Metadata { kind: EntryKind::Symlink, permissions },
        ),
        _ => match reached(place) {
            Some(node) => Ok(metadata_of(node)),
            None => Err(failure(ErrorKind::NotFound)),
        },
    }
}

/// Removing the file at the name. A link is removed as itself; a directory is
/// not a file.
pub open spec fn remove_file(place: Place) -> (Place, Result<(), Failure<()>>) {
    match place.entry {
        None => (place, Err(failure(ErrorKind::NotFound))),
        Some(Entry::Node(Node::Dir { .. })) => (place, Err(failure(ErrorKind::InvalidEntryKind))),
        Some(_) => (place.vacated(), Ok(())),
    }
}

/// Creating a directory at the name, as one entry.
pub open spec fn create_dir(place: Place, permissions: Permissions) -> (
    Place,
    Result<(), Failure<()>>,
) {
    if !place.parent {
        (place, Err(failure(ErrorKind::NotFound)))
    } else if place.entry is Some {
        (place, Err(failure(ErrorKind::AlreadyExists)))
    } else {
        (place.holding(Node::Dir { permissions }), Ok(()))
    }
}

/// Binding the name to a finished file, in one step: only if the name is free
/// (`Emplace`), or over whatever it holds unless that is a directory
/// (`Replace`).
pub open spec fn bind(place: Place, commit: Commit, file: Node) -> (Place, Result<(), Failure<()>>) {
    if !place.parent {
        (place, Err(failure(ErrorKind::NotFound)))
    } else if commit == Commit::Emplace && place.entry is Some {
        (place, Err(failure(ErrorKind::AlreadyExists)))
    } else if place.entry matches Some(Entry::Node(Node::Dir { .. })) {
        (place, Err(failure(ErrorKind::InvalidEntryKind)))
    } else {
        (place.holding(file), Ok(()))
    }
}

/// A primitive under a possible fault: with one, it fails with that kind and
/// the place stays as it was; without, it does what the model says.
pub open spec fn attempt<T>(
    fault: Option<ErrorKind>,
    place: Place,
    ideal: (Place, Result<T, Failure<()>>),
) -> (Place, Result<T, Failure<()>>) {
    match fault {
        Some(kind) => (place, Err(failure(kind))),
        None => ideal,
    }
}

/// Making sure that a directory stands at the name: the place afterwards, and
/// the answer.
pub open spec fn ensure_dir(place: Place, permissions: Permissions, faults: Faults) -> (
    Place,
    Result<bool, Error<()>>,
) {
    let (after, created) = attempt(faults.create, place, create_dir(place, permissions));
    match ensure_dir_with_spec(created) {
        EnsureDir::Done(out) => (after, out),
        EnsureDir::Inspect => (
            after,
            ensure_dir_found_spec(attempt(faults.stat, after, (after, stat(after, false))).1),
        ),
    }
}

/// Carrying out a [`Publish`] whose staged file holds `content`: set the
/// permission bits of the staged file, then bind the name.
pub open spec fn publish(place: Place, plan: Publish<Seq<u8>>, faults: Faults) -> (
    Place,
    Result<(), Failure<()>>,
) {
    match faults.set_permissions {
        Some(kind) => (place, Err(failure(kind))),
        None => attempt(
            faults.bind,
            place,
            bind(
                place,
                plan.commit,
                Node::File { content: plan.staging, permissions: plan.permissions },
            ),
        ),
    }
}

/// Publishing a staged file only if the name is free. The staged file is
/// stood for by its content.
pub open spec fn emplace(place: Place, staged: LinkableTempfile<Seq<u8>>, faults: Faults) -> (
    Place,
    Result<(), Failure<()>>,
) {
    publish(place, staged.emplace_spec(), faults)
}

/// Publishing a staged file over whatever the name holds.
pub open spec fn replace(place: Place, staged: LinkableTempfile<Seq<u8>>, faults: Faults) -> (
    Place,
    Result<(), Failure<()>>,
) {
    settle(place, staged.replace_spec(), faults)
}

/// Carrying a replacement through from the step it has reached.
pub open spec fn settle(place: Place, step: ReplaceStep<Seq<u8>>, faults: Faults) -> (
    Place,
    Result<(), Failure<()>>,
) {
    match step {
        ReplaceStep::Publish(plan) => publish(place, plan, faults),
        ReplaceStep::Inspect(staged) => match staged.replace_over_spec(
            attempt(faults.stat, place, (place, stat(place, false))).1,
        ) {
            Ok(plan) => publish(place, plan, faults),
            Err(failure) => (place, Err(failure)),
        },
    }
}

/// How a replacement through a writing step ended.
pub enum Replaced<T, W> {
    /// The name holds the new file; the writing step gave this value.
    Written(T),
    /// The writing step failed with this error.
    WriterFailed(W),
    /// The step succeeded, and a primitive failed afterwards.
    Failed(Failure<()>),
}

/// Replacing what the name holds by what a writing step produced: `staged`
/// holds what the step left in the staged file, `written` is how it ended.
pub open spec fn replace_file_with<T, W>(
    place: Place,
    staged: LinkableTempfile<Seq<u8>>,
    written: Result<T, W>,
    faults: Faults,
) -> (Place, Replaced<T, W>) {
    match replace_written_spec(staged, written) {
        Err(error) => (place, Replaced::WriterFailed(error)),
        Ok((value, step)) => {
            let (after, out) = settle(place, step, faults);
            match out {
                Ok(()) => (after, Replaced::Written(value)),
                Err(failure) => (after, Replaced::Failed(failure)),
            }
        },
    }
}

/// The file that publishing `staged` puts under the name, where the name held
/// `before` and nothing interferes.
pub open spec fn published(before: Place, staged: LinkableTempfile<Seq<u8>>, commit: Commit) -> Node {
    Node::File {
        content: staged.staging,
        permissions: resolved_permissions(
            staged.permissions,
            match before.entry {
                Some(Entry::Node(node)) => Some(metadata_of(node).permissions),
                Some(Entry::Symlink { permissions, .. }) => Some(permissions),
                None => None,
            },
            commit,
        ),
    }
}

/// A name that holds nothing is reported absent by every probe, with or
/// without following links, and removing the file there reports that there
/// was none and changes nothing.
pub proof fn lemma_absent_is_reported(place: Place, follow: bool)
    requires
        place.entry is None,
    ensures
        absent_if_not_found(open(place)) == Ok::<Option<Node>, Failure<()>>(None),
        absent_if_not_found(stat(place, follow)) == Ok::<Option<Metadata>, Failure<()>>(None),
        removed_if_found(remove_file(place).1) == Ok::<bool, Failure<()>>(false),
        remove_file(place).0 == place,
{
}

/// A name that holds a file or a directory is reported present by every
/// probe, as what it holds. Removing a file there reports that there was one,
/// and the name is free afterwards.
pub proof fn lemma_present_is_reported(place: Place, node: Node, follow: bool)
    requires
        place.entry == Some(Entry::Node(node)),
    ensures
        absent_if_not_found(open(place)) == Ok::<Option<Node>, Failure<()>>(Some(node)),
        absent_if_not_found(stat(place, follow)) == Ok::<Option<Metadata>, Failure<()>>(
            Some(metadata_of(node)),
        ),
        node is File ==> removed_if_found(remove_file(place).1) == Ok::<bool, Failure<()>>(true)
            && remove_file(place).0.entry is None,
{
}

/// A name fresh from being created, as a directory or as a published file, is
/// reported present.
pub proof fn lemma_created_is_reported(
    place: Place,
    permissions: Permissions,
    staged: LinkableTempfile<Seq<u8>>,
    follow: bool,
)
    requires
        place.parent,
        place.entry is None,
    ensures
        absent_if_not_found(stat(create_dir(place, permissions).0, follow)) is Ok,
        absent_if_not_found(stat(create_dir(place, permissions).0, follow))->Ok_0 is Some,
        absent_if_not_found(open(emplace(place, staged, no_faults()).0)) is Ok,
        absent_if_not_found(open(emplace(place, staged, no_faults()).0))->Ok_0 is Some,
        removed_if_found(remove_file(emplace(place, staged, no_faults()).0).1) == Ok::<
            bool,
            Failure<()>,
        >(true),
{
}

/// Making sure of a directory twice: at a free name whose parent exists, the
/// first call creates it and says `true`; the second finds it, says `false`
/// and changes nothing.
pub proof fn lemma_ensure_dir_idempotent(place: Place, permissions: Permissions)
    requires
        place.parent,
        place.entry is None,
    ensures
        ensure_dir(place, permissions, no_faults()) == (
            place.holding(Node::Dir { permissions }),
            Ok::<bool, Error<()>>(true),
        ),
        ensure_dir(place.holding(Node::Dir { permissions }), permissions, no_faults()) == (
            place.holding(Node::Dir { permissions }),
            Ok::<bool, Error<()>>(false),
        ),
{
}

/// A directory that already stands at the name is left as it is, whatever
/// options the caller gives, and the answer is `false`.
pub proof fn lemma_ensure_dir_finds_directory(
    place: Place,
    existing: Permissions,
    permissions: Permissions,
)
    requires
        place.wf(),
        place.entry == Some(Entry::Node(Node::Dir { permissions: existing })),
    ensures
        ensure_dir(place, permissions, no_faults()) == (place, Ok::<bool, Error<()>>(false)),
{
}

/// Where the parent is missing, making sure of a directory fails with
/// `NotFound` and creates nothing: no parent is made on the way.
pub proof fn lemma_ensure_dir_needs_parent(place: Place, permissions: Permissions)
    requires
        !place.parent,
        place.wf(),
    ensures
        ensure_dir(place, permissions, no_faults()) == (
            place,
            Err::<bool, Error<()>>(Error::Underlying(failure(ErrorKind::NotFound))),
        ),
{
}

/// Where the name holds anything but a directory (a file, or a link, whether
/// it leads to a directory, to a file or nowhere), making sure of a directory
/// fails with `NotADirectory` and leaves the name as it was.
pub proof fn lemma_ensure_dir_rejects_others(place: Place, permissions: Permissions)
    requires
        place.wf(),
        place.entry is Some,
        !(place.entry matches Some(Entry::Node(Node::Dir { .. }))),
    ensures
        ensure_dir(place, permissions, no_faults()) == (
            place,
            Err::<bool, Error<()>>(Error::NotADirectory),
        ),
        ensure_dir(place, permissions, no_faults()).1->Err_0.kind_spec()
            == ErrorKind::InvalidEntryKind,
{
}

/// Whatever fails on the way, making sure of a directory never touches a name
/// that holds something, and `true` is said exactly when the name was free
/// and now holds the new directory.
pub proof fn lemma_ensure_dir_only_creates(place: Place, permissions: Permissions, faults: Faults)
    requires
        place.wf(),
    ensures
        place.entry is Some ==> ensure_dir(place, permissions, faults).0 == place,
        ensure_dir(place, permissions, faults).1 == Ok::<bool, Error<()>>(true) <==> place.entry
            is None && ensure_dir(place, permissions, faults).0 == place.holding(
            Node::Dir { permissions },
        ),
        ensure_dir(place, permissions, faults).0 == place || ensure_dir(
            place,
            permissions,
            faults,
        ).0 == place.holding(Node::Dir { permissions }),
{
}

/// A writing step that fails leaves the name exactly as it was, content and
/// permission bits, whatever it wrote to the staged file before failing; and
/// its error comes back as it is.
pub proof fn lemma_failed_writer_changes_nothing<T, W>(
    place: Place,
    staged: LinkableTempfile<Seq<u8>>,
    error: W,
    faults: Faults,
)
    ensures
        replace_file_with(place, staged, Err::<T, W>(error), faults) == (
            place,
            Replaced::<T, W>::WriterFailed(error),
        ),
{
}

/// A writing step that succeeds is followed by a replacement, and by nothing
/// else: the name ends as [`replace`] leaves it, and the step's value is the
/// answer exactly when the replacement went through.
pub proof fn lemma_written_is_replaced<T, W>(
    place: Place,
    staged: LinkableTempfile<Seq<u8>>,
    value: T,
    faults: Faults,
)
    ensures
        replace_file_with(place, staged, Ok::<T, W>(value), faults).0 == replace(
            place,
            staged,
            faults,
        ).0,
        replace(place, staged, faults).1 is Ok ==> replace_file_with(
            place,
            staged,
            Ok::<T, W>(value),
            faults,
        ).1 == Replaced::<T, W>::Written(value),
        replace(place, staged, faults).1 is Err ==> replace_file_with(
            place,
            staged,
            Ok::<T, W>(value),
            faults,
        ).1 == Replaced::<T, W>::Failed(replace(place, staged, faults).1->Err_0),
{
}

/// Replacing a file keeps its permission bits and changes its content, where
/// the caller asked for no bits of their own.
pub proof fn lemma_replace_keeps_permissions(
    place: Place,
    old_content: Seq<u8>,
    permissions: Permissions,
    staged: LinkableTempfile<Seq<u8>>,
)
    requires
        place.wf(),
        place.entry == Some(Entry::Node(Node::File { content: old_content, permissions })),
        staged.permissions is None,
    ensures
        replace(place, staged, no_faults()) == (
            place.holding(Node::File { content: staged.staging, permissions }),
            Ok::<(), Failure<()>>(()),
        ),
{
}

/// A file published under a free name, by either way, is readable and
/// writable by its owner only, where the caller asked for no bits of their
/// own.
pub proof fn lemma_new_file_is_owner_only(place: Place, staged: LinkableTempfile<Seq<u8>>)
    requires
        place.parent,
        place.entry is None,
        staged.permissions is None,
    ensures
        emplace(place, staged, no_faults()) == (
            place.holding(
                Node::File { content: staged.staging, permissions: Permissions { mode: OWNER_ONLY } },
            ),
            Ok::<(), Failure<()>>(()),
        ),
        replace(place, staged, no_faults()) == emplace(place, staged, no_faults()),
{
}

/// The bits that the caller asked for are the bits of the published file,
/// whatever the name held before.
pub proof fn lemma_explicit_permissions_win(
    place: Place,
    staged: LinkableTempfile<Seq<u8>>,
    asked: Permissions,
    faults: Faults,
)
    requires
        staged.permissions == Some(asked),
    ensures
        emplace(place, staged, faults).1 is Ok ==> emplace(place, staged, faults).0
            == place.holding(Node::File { content: staged.staging, permissions: asked }),
        replace(place, staged, faults).1 is Ok ==> replace(place, staged, faults).0
            == place.holding(Node::File { content: staged.staging, permissions: asked }),
{
}

/// Publishing under a name that is taken, only if free, fails and leaves what
/// is there untouched; where nothing else fails first, the failure is
/// `AlreadyExists`.
pub proof fn lemma_emplace_keeps_existing(
    place: Place,
    staged: LinkableTempfile<Seq<u8>>,
    faults: Faults,
)
    requires
        place.wf(),
        place.entry is Some,
    ensures
        emplace(place, staged, faults).0 == place,
        emplace(place, staged, faults).1 is Err,
        emplace(place, staged, no_faults()).1 == Err::<(), Failure<()>>(
            failure(ErrorKind::AlreadyExists),
        ),
{
}

/// Whatever fails on the way, a name is never seen half done: after either way
/// of publishing it holds what it held, or the whole new file with its settled
/// permission bits. Success means the new file; failure means that nothing
/// changed.
pub proof fn lemma_whole_or_untouched(
    place: Place,
    staged: LinkableTempfile<Seq<u8>>,
    faults: Faults,
)
    ensures
        emplace(place, staged, faults).1 is Err ==> emplace(place, staged, faults).0 == place,
        replace(place, staged, faults).1 is Err ==> replace(place, staged, faults).0 == place,
        emplace(place, staged, faults).1 is Ok ==> emplace(place, staged, faults).0
            == place.holding(published(place, staged, Commit::Emplace)),
        replace(place, staged, faults).1 is Ok && faults.stat is None ==> replace(
            place,
            staged,
            faults,
        ).0 == place.holding(published(place, staged, Commit::Replace)),
        replace(place, staged, faults).1 is Ok ==> reached(replace(place, staged, faults).0)
            is Some && reached(replace(place, staged, faults).0)->Some_0 is File && reached(
            replace(place, staged, faults).0,
        )->Some_0->content == staged.staging,
{
}

} // verus!
