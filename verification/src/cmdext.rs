//! What a child process is given before its program starts.
//!
//! A [`ChildSetup`] is a queue of requests. Each is carried out inside the child,
//! after it has been split off from its parent and before the new program image
//! is loaded, in the order in which the requests were made; the first one that
//! fails stops the launch, and its error is what the parent sees.
//!
//! The descriptor type `Fd` and the directory handle `D` are never looked into:
//! they are carried from the request to whoever performs it.
use vstd::prelude::*;
use std::sync::Arc;

verus! {

/// One request to carry out in the child.
#[derive(Debug, PartialEq, Eq)]
pub enum Hook<Fd, D> {
    /// Duplicate `fd` onto descriptor number `target`, replacing whatever is
    /// open there, and leave the duplicate open: it belongs to the child from
    /// then on and is inherited by the program it runs.
    TakeFd { fd: Arc<Fd>, target: i32 },
    /// Make the directory that `dir` refers to the working directory, by the
    /// handle itself and never by a path.
    CwdDir { dir: D },
}

/// The requests made so far, oldest first.
pub struct ChildSetup<Fd, D> {
    hooks: Vec<Hook<Fd, D>>,
}

/// What to do next while carrying out a [`ChildSetup`].
#[derive(Debug, PartialEq, Eq)]
pub enum Next<'a, Fd, D, E> {
    /// Carry out this request and report how it went.
    Run(&'a Hook<Fd, D>),
    /// Every request succeeded: the program may be loaded.
    Launch,
    /// A request failed: give up the launch with this error.
    Abort(E),
}

/// Requests that can be made of a process that is about to be created.
pub trait CapStdExtCommandExt: Sized {
    /// An owned descriptor.
    type Fd;

    /// A directory handle.
    type Dir;

    /// The requests made so far, oldest first.
    spec fn hooks(&self) -> Seq<Hook<Self::Fd, Self::Dir>>;

    /// Pass a descriptor to the child, which will see it under the number
    /// `target`. Choose 3 or above unless one of the standard streams is meant
    /// to be replaced; no number is ever picked for the caller.
    fn take_fd_n(&mut self, fd: Arc<Self::Fd>, target: i32) -> (out: &mut Self)
        ensures
            out.hooks() == old(self).hooks().push(Hook::TakeFd { fd, target }),
            *final(self) == *final(out),
    ;

    /// Pass a directory handle to the child as descriptor number `target`.
    fn take_dirfd_n(&mut self, fd: Self::Dir, target: i32) -> (out: &mut Self) where
        Self::Fd: From<Self::Dir>,

        ensures
            exists|taken: Arc<Self::Fd>|
                {
                    &&& #[trigger] out.hooks() == old(self).hooks().push(
                        Hook::TakeFd { fd: taken, target },
                    )
                    &&& <Self::Fd as vstd::std_specs::convert::FromSpec<
                        Self::Dir,
                    >>::obeys_from_spec() ==> *taken == <Self::Fd as vstd::std_specs::convert::FromSpec<
                        Self::Dir,
                    >>::from_spec(fd)
                },
            *final(self) == *final(out),
    {
        self.take_fd_n(Arc::new(fd.into()), target)
    }

    /// Pass an open file to the child as descriptor number `target`.
    fn take_file_n<F>(&mut self, fd: F, target: i32) -> (out: &mut Self) where Self::Fd: From<F>
        ensures
            exists|taken: Arc<Self::Fd>|
                {
                    &&& #[trigger] out.hooks() == old(self).hooks().push(
                        Hook::TakeFd { fd: taken, target },
                    )
                    &&& <Self::Fd as vstd::std_specs::convert::FromSpec<F>>::obeys_from_spec()
                        ==> *taken == <Self::Fd as vstd::std_specs::convert::FromSpec<
                        F,
                    >>::from_spec(fd)
                },
            *final(self) == *final(out),
    {
        self.take_fd_n(Arc::new(fd.into()), target)
    }

    /// Use the given directory as the working directory of the child. The
    /// handle is consumed into the request; a caller who keeps their own
    /// passes a clone, or lets `Dir` be a shared handle.
    fn cwd_dir(&mut self, dir: Self::Dir) -> (out: &mut Self)
        ensures
            out.hooks() == old(self).hooks().push(Hook::CwdDir { dir }),
            *final(self) == *final(out),
    ;
}

impl<Fd, D> ChildSetup<Fd, D> {
    /// A setup with no request in it.
    pub fn new() -> (setup: Self)
        ensures
            setup.hooks() == Seq::<Hook<Fd, D>>::empty(),
    {
        ChildSetup { hooks: Vec::new() }
    }

    /// Decides what follows once the first `done` requests have been carried
    /// out and the latest of them ended in `last` (`Ok(())` where none has run
    /// yet): a failure stops everything, otherwise the next request in order is
    /// due, and after the last one the launch.
    pub fn next<E>(&self, done: usize, last: Result<(), E>) -> (next: Next<'_, Fd, D, E>)
        ensures
            next == next_after(self.hooks(), done as int, last),
    {
        match last {
            Err(error) => Next::Abort(error),
            Ok(()) => if done < self.hooks.len() {
                Next::Run(&self.hooks[done])
            } else {
                Next::Launch
            },
        }
    }

    /// Carries out every request through `perform`, oldest first, and stops at
    /// the first that fails.
    ///
    /// `Ok(())` means that `perform` succeeded on each request. An error is the
    /// one that `perform` gave for some request, all requests before it having
    /// succeeded and none after it having been tried.
    pub fn run<E, P: Fn(&Hook<Fd, D>) -> Result<(), E>>(&self, perform: P) -> (out: Result<(), E>)
        requires
            forall|at: int| 0 <= at < self.hooks().len() ==> accepts(perform, self.hooks(), at),
        ensures
            match out {
                Ok(()) => forall|at: int|
                    0 <= at < self.hooks().len() ==> answers(perform, self.hooks(), at, Ok(())),
                Err(error) => exists|at: int|
                    {
                        &&& 0 <= at < self.hooks().len()
                        &&& answers(perform, self.hooks(), at, Err(error))
                        &&& forall|before: int|
                            0 <= before < at ==> answers(perform, self.hooks(), before, Ok(()))
                    },
            },
    {
        let count = self.hooks.len();
        let mut done: usize = 0;
        let mut last: Result<(), E> = Ok(());
        loop
            invariant
                count == self.hooks().len(),
                done <= count,
                forall|at: int| 0 <= at < self.hooks().len() ==> accepts(perform, self.hooks(), at),
                forall|at: int|
                    0 <= at < done - 1 ==> answers(perform, self.hooks(), at, Ok(())),
                done > 0 ==> answers(perform, self.hooks(), done - 1, last),
                done == 0 ==> last is Ok,
            decreases count - done + (if last is Ok { 1int } else { 0int }),
        {
            let ghost before = last;
            match self.next(done, last) {
                Next::Abort(error) => {
                    return Err(error);
                },
                Next::Launch => {
                    assert(before is Ok && before->Ok_0 == ());
                    return Ok(());
                },
                Next::Run(hook) => {
                    assert(before is Ok && before->Ok_0 == ());
                    assert(accepts(perform, self.hooks(), done as int));
                    last = perform(hook);
                    done = done + 1;
                },
            }
        }
    }
}

impl<Fd, D> CapStdExtCommandExt for ChildSetup<Fd, D> {
    type Fd = Fd;

    type Dir = D;

    closed spec fn hooks(&self) -> Seq<Hook<Fd, D>> {
        self.hooks@
    }

    fn take_fd_n(&mut self, fd: Arc<Fd>, target: i32) -> (out: &mut Self) {
        self.hooks.push(Hook::TakeFd { fd, target });
        self
    }

    fn cwd_dir(&mut self, dir: D) -> (out: &mut Self) {
        self.hooks.push(Hook::CwdDir { dir });
        self
    }
}

/// Whether `perform` may be called on request number `at` of `hooks`.
pub open spec fn accepts<Fd, D, E, P: Fn(&Hook<Fd, D>) -> Result<(), E>>(
    perform: P,
    hooks: Seq<Hook<Fd, D>>,
    at: int,
) -> bool {
    call_requires(perform, (&hooks[at],))
}

/// Whether `outcome` is an answer that `perform` can give for request number
/// `at` of `hooks`.
pub open spec fn answers<Fd, D, E, P: Fn(&Hook<Fd, D>) -> Result<(), E>>(
    perform: P,
    hooks: Seq<Hook<Fd, D>>,
    at: int,
    outcome: Result<(), E>,
) -> bool {
    call_ensures(perform, (&hooks[at],), outcome)
}

/// What [`ChildSetup::next`] decides, over the requests as a sequence.
pub open spec fn next_after<'a, Fd, D, E>(
    hooks: Seq<Hook<Fd, D>>,
    done: int,
    last: Result<(), E>,
) -> Next<'a, Fd, D, E> {
    match last {
        Err(error) => Next::Abort(error),
        Ok(()) => if 0 <= done < hooks.len() {
            Next::Run(&hooks[done])
        } else {
            Next::Launch
        },
    }
}

/// The part of a child process that the requests act on.
pub struct Child<Fd, D> {
    /// What is open under each descriptor number.
    pub descriptors: Map<int, Fd>,
    /// The working directory, once a request has set it; `None` while it is
    /// still the one inherited from the parent.
    pub cwd: Option<D>,
}

/// The child after one request has been carried out without failure.
pub open spec fn carry_out<Fd, D>(child: Child<Fd, D>, hook: Hook<Fd, D>) -> Child<Fd, D> {
    match hook {
        Hook::TakeFd { fd, target } => Child {
            descriptors: child.descriptors.insert(target as int, *fd),
            cwd: child.cwd,
        },
        Hook::CwdDir { dir } => Child { descriptors: child.descriptors, cwd: Some(dir) },
    }
}

/// The child after the requests from number `at` on have been carried out in
/// order, none of them failing.
pub open spec fn settled<Fd, D>(hooks: Seq<Hook<Fd, D>>, at: int, child: Child<Fd, D>) -> Child<
    Fd,
    D,
>
    decreases hooks.len() - at,
{
    if 0 <= at < hooks.len() {
        settled(hooks, at + 1, carry_out(child, hooks[at]))
    } else {
        child
    }
}

/// Whether `hook` asks for a descriptor under the number `target`.
pub open spec fn takes<Fd, D>(hook: Hook<Fd, D>, target: int) -> bool {
    hook matches Hook::TakeFd { target: number, .. } && number == target
}

/// A descriptor number that no request from `at` on asks for holds after the
/// setup what it held before: nothing is moved, closed or picked on the
/// caller's behalf.
pub proof fn lemma_other_descriptors_kept<Fd, D>(
    hooks: Seq<Hook<Fd, D>>,
    at: int,
    child: Child<Fd, D>,
    number: int,
)
    requires
        0 <= at,
        forall|i: int| at <= i < hooks.len() ==> !takes(#[trigger] hooks[i], number),
    ensures
        settled(hooks, at, child).descriptors.contains_key(number)
            == child.descriptors.contains_key(number),
        child.descriptors.contains_key(number) ==> settled(hooks, at, child).descriptors[number]
            == child.descriptors[number],
    decreases hooks.len() - at,
{
    if at < hooks.len() {
        assert(!takes(hooks[at], number));
        lemma_other_descriptors_kept(hooks, at + 1, carry_out(child, hooks[at]), number);
    }
}

/// After the setup, the number that a request asked for holds the descriptor
/// of the latest request for that number, whatever was open there before.
pub proof fn lemma_descriptor_taken<Fd, D>(
    hooks: Seq<Hook<Fd, D>>,
    at: int,
    child: Child<Fd, D>,
    latest: int,
)
    requires
        0 <= at <= latest < hooks.len(),
        hooks[latest] is TakeFd,
        forall|i: int|
            latest < i < hooks.len() ==> !takes(#[trigger] hooks[i], hooks[latest]->target as int),
    ensures
        settled(hooks, at, child).descriptors.contains_key(hooks[latest]->target as int),
        settled(hooks, at, child).descriptors[hooks[latest]->target as int]
            == *hooks[latest]->fd,
    decreases latest - at,
{
    let after = carry_out(child, hooks[at]);
    if at < latest {
        lemma_descriptor_taken(hooks, at + 1, after, latest);
    } else {
        lemma_other_descriptors_kept(hooks, at + 1, after, hooks[latest]->target as int);
    }
}

/// After the setup, the working directory is the one of the latest request
/// that named one.
pub proof fn lemma_working_directory_set<Fd, D>(
    hooks: Seq<Hook<Fd, D>>,
    at: int,
    child: Child<Fd, D>,
    latest: int,
)
    requires
        0 <= at <= latest < hooks.len(),
        hooks[latest] is CwdDir,
        forall|i: int| latest < i < hooks.len() ==> !(#[trigger] hooks[i] is CwdDir),
    ensures
        settled(hooks, at, child).cwd == Some(hooks[latest]->dir),
    decreases latest - at,
{
    let after = carry_out(child, hooks[at]);
    if at < latest {
        lemma_working_directory_set(hooks, at + 1, after, latest);
    } else {
        lemma_working_directory_kept(hooks, at + 1, after);
    }
}

/// Where no request from `at` on names a working directory, the child keeps
/// the one it has.
pub proof fn lemma_working_directory_kept<Fd, D>(
    hooks: Seq<Hook<Fd, D>>,
    at: int,
    child: Child<Fd, D>,
)
    requires
        0 <= at,
        forall|i: int| at <= i < hooks.len() ==> !(#[trigger] hooks[i] is CwdDir),
    ensures
        settled(hooks, at, child).cwd == child.cwd,
    decreases hooks.len() - at,
{
    if at < hooks.len() {
        assert(!(hooks[at] is CwdDir));
        lemma_working_directory_kept(hooks, at + 1, carry_out(child, hooks[at]));
    }
}

/// Carrying out the requests from number `done` on as [`ChildSetup::next`]
/// directs, where `last` is how the latest request went and `outcomes[i]` is
/// how request `i` goes if it is tried: the child at the moment its program is
/// loaded, or the error that stops the launch. A request that fails has no
/// effect on the child.
pub open spec fn launch<Fd, D, E>(
    hooks: Seq<Hook<Fd, D>>,
    done: int,
    last: Result<(), E>,
    child: Child<Fd, D>,
    outcomes: Seq<Result<(), E>>,
) -> Result<Child<Fd, D>, E>
    decreases hooks.len() - done,
{
    match next_after(hooks, done, last) {
        Next::Abort(error) => Err(error),
        Next::Launch => Ok(child),
        Next::Run(hook) => if outcomes[done] is Ok {
            launch(hooks, done + 1, Ok(()), carry_out(child, *hook), outcomes)
        } else {
            launch(hooks, done + 1, outcomes[done], child, outcomes)
        },
    }
}

/// Where every request succeeds, each is carried out, in the order in which
/// the requests were made, before the program is loaded.
pub proof fn lemma_launch_carries_out_all<Fd, D, E>(
    hooks: Seq<Hook<Fd, D>>,
    done: int,
    child: Child<Fd, D>,
    outcomes: Seq<Result<(), E>>,
)
    requires
        0 <= done,
        outcomes.len() == hooks.len(),
        forall|i: int| done <= i < hooks.len() ==> #[trigger] outcomes[i] is Ok,
    ensures
        launch(hooks, done, Ok(()), child, outcomes) == Ok::<Child<Fd, D>, E>(
            settled(hooks, done, child),
        ),
    decreases hooks.len() - done,
{
    if done < hooks.len() {
        assert(outcomes[done] is Ok);
        lemma_launch_carries_out_all(hooks, done + 1, carry_out(child, hooks[done]), outcomes);
    }
}

/// The first request that fails stops the launch with its error: no request
/// after it is tried, and the program is not loaded.
pub proof fn lemma_launch_stops_at_first_failure<Fd, D, E>(
    hooks: Seq<Hook<Fd, D>>,
    done: int,
    child: Child<Fd, D>,
    outcomes: Seq<Result<(), E>>,
    failing: int,
)
    requires
        0 <= done <= failing < hooks.len(),
        outcomes.len() == hooks.len(),
        outcomes[failing] is Err,
        forall|i: int| done <= i < failing ==> #[trigger] outcomes[i] is Ok,
    ensures
        launch(hooks, done, Ok(()), child, outcomes) == Err::<Child<Fd, D>, E>(
            outcomes[failing]->Err_0,
        ),
    decreases failing - done,
{
    if done < failing {
        assert(outcomes[done] is Ok);
        lemma_launch_stops_at_first_failure(
            hooks,
            done + 1,
            carry_out(child, hooks[done]),
            outcomes,
            failing,
        );
    } else {
        assert(launch(hooks, done + 1, outcomes[done], child, outcomes) == Err::<Child<Fd, D>, E>(
            outcomes[failing]->Err_0,
        ));
    }
}

} // verus!
