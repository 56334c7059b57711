//! What the wrappers of the system calls decide.
//!
//! Nothing here makes a system call. A wrapper that needs more than one
//! call is a small machine: it names the next call, takes the outcome of
//! that call, and names the one after, until it gives the result of the
//! whole.

use crate::null_terminated::NullTerminatedSlice;
use libc::{c_char, c_int, pid_t};
use vstd::prelude::*;

verus! {

/// An argument or environment array: one reference to the first character
/// of a string for each entry, and the sentinel behind them.
pub type CStrArray<'s, 'a> = NullTerminatedSlice<'s, &'a c_char>;

/// A file descriptor.
pub type RawFd = c_int;

/// An error number, as the system leaves it behind after a failed call.
pub type Errno = c_int;

/// The error number for an argument that is not valid, as Linux, the BSDs
/// and macOS number it.
pub const EINVAL: Errno = 22;

/// The error number for a descriptor that is no terminal, as Linux, the
/// BSDs and macOS number it.
pub const ENOTTY: Errno = 25;

/// Which of the two processes after a `fork` this one is.
#[derive(Clone, Copy, Debug, PartialEq, Eq)]
pub enum Fork {
    /// The parent, with the id of its new child.
    Parent(pid_t),
    /// The child.
    Child,
}

impl Fork {
    /// The side that the value returned by a successful `fork` stands for:
    /// zero in the child, the child's id in the parent.
    pub fn from_pid(pid: pid_t) -> (side: Fork)
        ensures
            pid == 0 ==> side == Fork::Child,
            pid != 0 ==> side == Fork::Parent(pid),
    {
        match pid {
            0 => Fork::Child,
            pid => Fork::Parent(pid),
        }
    }

    /// What a `fork` reports, from the value it returned and the error
    /// number it left: minus one is the failure with that error number,
    /// zero is the child, anything else is the parent with the id of the
    /// child.
    pub fn from_result(returned: pid_t, errno: Errno) -> (result: Result<Fork, Errno>)
        ensures
            returned == -1 ==> result == Err::<Fork, Errno>(errno),
            returned == 0 ==> result == Ok::<Fork, Errno>(Fork::Child),
            returned != -1 && returned != 0 ==> result == Ok::<Fork, Errno>(Fork::Parent(returned)),
    {
        if returned == -1 {
            Err(errno)
        } else {
            Ok(Fork::from_pid(returned))
        }
    }

    /// Whether this is the child.
    pub fn is_child(&self) -> (answer: bool)
        ensures
            answer == (*self is Child),
    {
        match *self {
            Fork::Child => true,
            _ => false,
        }
    }

    /// Whether this is the parent.
    pub fn is_parent(&self) -> (answer: bool)
        ensures
            answer == (*self is Parent),
    {
        match *self {
            Fork::Parent(_) => true,
            _ => false,
        }
    }
}

/// Whether a descriptor is a terminal, from what the system's `isatty`
/// returned and the error number it left. One means yes. Anything else
/// with `ENOTTY` means no: the descriptor is good, and no terminal.
/// Anything else is the error.
pub fn isatty(returned: c_int, errno: Errno) -> (answer: Result<bool, Errno>)
    ensures
        returned == 1 ==> answer == Ok::<bool, Errno>(true),
        returned != 1 && errno == ENOTTY ==> answer == Ok::<bool, Errno>(false),
        returned != 1 && errno != ENOTTY ==> answer == Err::<bool, Errno>(errno),
{
    if returned == 1 {
        Ok(true)
    } else if errno == ENOTTY {
        Ok(false)
    } else {
        Err(errno)
    }
}

/// A call that `dup3` asks for, or its result.
#[derive(Clone, Copy, Debug, PartialEq, Eq)]
pub enum Dup3Action {
    /// Duplicate `oldfd` onto `newfd`.
    Dup2 { oldfd: RawFd, newfd: RawFd },
    /// Set the close-on-exec flag of `fd`.
    SetCloexec { fd: RawFd },
    /// Close `fd`. Whether that fails is of no interest.
    Close { fd: RawFd },
    /// Nothing more to do: this is the result of the whole.
    Return(Result<RawFd, Errno>),
}

/// Where a `dup3` stands: the call it waits for.
///
/// `dup3` duplicates a descriptor onto another, which must differ from it,
/// and then sets the close-on-exec flag of the new descriptor if asked to.
#[derive(Clone, Copy, Debug, PartialEq, Eq)]
pub enum Dup3 {
    /// `dup2` was asked for.
    Duplicating { cloexec: bool },
    /// The flag of the new descriptor `fd` was asked for.
    Marking { fd: RawFd },
    /// The new descriptor was to be closed, after its flag failed with
    /// `errno`.
    Closing { errno: Errno },
    /// The result was given.
    Done(Result<RawFd, Errno>),
}

impl Dup3 {
    /// The first step. Equal descriptors are refused with `EINVAL` before
    /// any call.
    pub open spec fn first(oldfd: RawFd, newfd: RawFd, cloexec: bool) -> (Dup3, Dup3Action) {
        if oldfd == newfd {
            (Dup3::Done(Err(EINVAL)), Dup3Action::Return(Err(EINVAL)))
        } else {
            (Dup3::Duplicating { cloexec }, Dup3Action::Dup2 { oldfd, newfd })
        }
    }

    /// The step after the awaited call ended in `outcome`.
    ///
    /// A failed `dup2` is the result. A new descriptor whose flag cannot
    /// be set is closed again, and the failure of the flag is the result.
    pub open spec fn next(self, outcome: Result<c_int, Errno>) -> (Dup3, Dup3Action) {
        match self {
            Dup3::Duplicating { cloexec } => match outcome {
                Ok(fd) => if cloexec {
                    (Dup3::Marking { fd }, Dup3Action::SetCloexec { fd })
                } else {
                    (Dup3::Done(Ok(fd)), Dup3Action::Return(Ok(fd)))
                },
                Err(errno) => (Dup3::Done(Err(errno)), Dup3Action::Return(Err(errno))),
            },
            Dup3::Marking { fd } => match outcome {
                Ok(_) => (Dup3::Done(Ok(fd)), Dup3Action::Return(Ok(fd))),
                Err(errno) => (Dup3::Closing { errno }, Dup3Action::Close { fd }),
            },
            Dup3::Closing { errno } => (Dup3::Done(Err(errno)), Dup3Action::Return(Err(errno))),
            Dup3::Done(result) => (self, Dup3Action::Return(result)),
        }
    }

    /// The result of the whole, where `dup2` ends in `duplicated` and
    /// setting the flag, if it comes to that, in `marked`.
    pub open spec fn result(
        oldfd: RawFd,
        newfd: RawFd,
        cloexec: bool,
        duplicated: Result<c_int, Errno>,
        marked: Result<c_int, Errno>,
    ) -> Result<RawFd, Errno> {
        if oldfd == newfd {
            Err(EINVAL)
        } else if duplicated is Err {
            Err(duplicated->Err_0)
        } else if cloexec && marked is Err {
            Err(marked->Err_0)
        } else {
            Ok(duplicated->Ok_0)
        }
    }

    /// See [`Dup3::first`].
    pub fn begin(oldfd: RawFd, newfd: RawFd, cloexec: bool) -> (step: (Dup3, Dup3Action))
        ensures
            step == Dup3::first(oldfd, newfd, cloexec),
    {
        if oldfd == newfd {
            (Dup3::Done(Err(EINVAL)), Dup3Action::Return(Err(EINVAL)))
        } else {
            (Dup3::Duplicating { cloexec }, Dup3Action::Dup2 { oldfd, newfd })
        }
    }

    /// See [`Dup3::next`].
    pub fn resume(self, outcome: Result<c_int, Errno>) -> (step: (Dup3, Dup3Action))
        ensures
            step == self.next(outcome),
    {
        match self {
            Dup3::Duplicating { cloexec } => match outcome {
                Ok(fd) => if cloexec {
                    (Dup3::Marking { fd }, Dup3Action::SetCloexec { fd })
                } else {
                    (Dup3::Done(Ok(fd)), Dup3Action::Return(Ok(fd)))
                },
                Err(errno) => (Dup3::Done(Err(errno)), Dup3Action::Return(Err(errno))),
            },
            Dup3::Marking { fd } => match outcome {
                Ok(_) => (Dup3::Done(Ok(fd)), Dup3Action::Return(Ok(fd))),
                Err(errno) => (Dup3::Closing { errno }, Dup3Action::Close { fd }),
            },
            Dup3::Closing { errno } => (Dup3::Done(Err(errno)), Dup3Action::Return(Err(errno))),
            Dup3::Done(result) => (self, Dup3Action::Return(result)),
        }
    }

    /// Every run of `dup3` is one of four. Equal descriptors: no call.
    /// Else `dup2`, which is all if it fails or no flag is asked for. Else
    /// the flag is set on what `dup2` returned, which is all if that
    /// works. Else what `dup2` returned is closed. In each the result is
    /// [`Dup3::result`], whatever closing ends in.
    pub proof fn lemma_runs(
        oldfd: RawFd,
        newfd: RawFd,
        cloexec: bool,
        duplicated: Result<c_int, Errno>,
        marked: Result<c_int, Errno>,
        closed: Result<c_int, Errno>,
    )
        ensures
            ({
                let result = Dup3Action::Return(
                    Dup3::result(oldfd, newfd, cloexec, duplicated, marked),
                );
                let (at0, step0) = Dup3::first(oldfd, newfd, cloexec);
                let (at1, step1) = at0.next(duplicated);
                let (at2, step2) = at1.next(marked);
                let (at3, step3) = at2.next(closed);
                if oldfd == newfd {
                    step0 == result
                } else if duplicated is Err || !cloexec {
                    step0 == (Dup3Action::Dup2 { oldfd, newfd }) && step1 == result
                } else if marked is Ok {
                    &&& step0 == (Dup3Action::Dup2 { oldfd, newfd })
                    &&& step1 == (Dup3Action::SetCloexec { fd: duplicated->Ok_0 })
                    &&& step2 == result
                } else {
                    &&& step0 == (Dup3Action::Dup2 { oldfd, newfd })
                    &&& step1 == (Dup3Action::SetCloexec { fd: duplicated->Ok_0 })
                    &&& step2 == (Dup3Action::Close { fd: duplicated->Ok_0 })
                    &&& step3 == result
                }
            }),
    {
    }
}

/// A call that setting the flags of a new pipe asks for, or the result.
#[derive(Clone, Copy, Debug, PartialEq, Eq)]
pub enum Pipe2Action {
    /// Set the close-on-exec flag of `fd`.
    SetCloexec { fd: RawFd },
    /// Set the non-blocking flag of `fd`.
    SetNonblock { fd: RawFd },
    /// Close `fd`. Whether that fails is of no interest.
    Close { fd: RawFd },
    /// Nothing more to do: this is the result of the whole.
    Return(Result<(), Errno>),
}

/// How far setting the flags of a new pipe has come.
#[derive(Clone, Copy, Debug, PartialEq, Eq)]
pub enum Pipe2Stage {
    /// The planned call number `at` was asked for.
    Setting { at: usize },
    /// A planned call failed with `errno`, and the first end was to be
    /// closed.
    ClosingFirst { errno: Errno },
    /// After that, the second end was to be closed.
    ClosingSecond { errno: Errno },
    /// The result was given.
    Done(Result<(), Errno>),
}

/// Setting the flags of the two ends of a new pipe.
///
/// The calls are planned ahead (see [`Pipe2::plan`]) and made in that
/// order. The first that fails ends it: both ends are closed, and that
/// failure is the result.
#[derive(Clone, Copy, Debug, PartialEq, Eq)]
pub struct Pipe2 {
    pub fd1: RawFd,
    pub fd2: RawFd,
    pub cloexec: bool,
    pub nonblock: bool,
    pub stage: Pipe2Stage,
}

impl Pipe2 {
    /// The calls to make while none fails: close-on-exec on the first end
    /// and on the second, if asked for; then non-blocking on the first end
    /// and on the second, if asked for.
    pub open spec fn plan(self) -> Seq<Pipe2Action> {
        let cloexec = if self.cloexec {
            seq![Pipe2Action::SetCloexec { fd: self.fd1 }, Pipe2Action::SetCloexec { fd: self.fd2 }]
        } else {
            seq![]
        };
        let nonblock = if self.nonblock {
            seq![
                Pipe2Action::SetNonblock { fd: self.fd1 },
                Pipe2Action::SetNonblock { fd: self.fd2 },
            ]
        } else {
            seq![]
        };
        cloexec + nonblock
    }

    /// The planned call number `at`, or the good result behind the last.
    pub open spec fn planned(self, at: int) -> (Pipe2, Pipe2Action) {
        if 0 <= at < self.plan().len() {
            (Pipe2 { stage: Pipe2Stage::Setting { at: at as usize }, ..self }, self.plan()[at])
        } else {
            (Pipe2 { stage: Pipe2Stage::Done(Ok(())), ..self }, Pipe2Action::Return(Ok(())))
        }
    }

    /// The first step for the ends `fd1` and `fd2`.
    pub open spec fn first(fd1: RawFd, fd2: RawFd, cloexec: bool, nonblock: bool) -> (
        Pipe2,
        Pipe2Action,
    ) {
        (Pipe2 { fd1, fd2, cloexec, nonblock, stage: Pipe2Stage::Done(Ok(())) }).planned(0)
    }

    /// The step after the awaited call ended in `outcome`.
    pub open spec fn next(self, outcome: Result<c_int, Errno>) -> (Pipe2, Pipe2Action) {
        match self.stage {
            Pipe2Stage::Setting { at } => match outcome {
                Ok(_) => self.planned(at + 1),
                Err(errno) => (
                    Pipe2 { stage: Pipe2Stage::ClosingFirst { errno }, ..self },
                    Pipe2Action::Close { fd: self.fd1 },
                ),
            },
            Pipe2Stage::ClosingFirst { errno } => (
                Pipe2 { stage: Pipe2Stage::ClosingSecond { errno }, ..self },
                Pipe2Action::Close { fd: self.fd2 },
            ),
            Pipe2Stage::ClosingSecond { errno } => (
                Pipe2 { stage: Pipe2Stage::Done(Err(errno)), ..self },
                Pipe2Action::Return(Err(errno)),
            ),
            Pipe2Stage::Done(result) => (self, Pipe2Action::Return(result)),
        }
    }

    fn step(self, at: usize) -> (step: (Pipe2, Pipe2Action))
        ensures
            step == self.planned(at as int),
    {
        let fd = if at % 2 == 0 {
            self.fd1
        } else {
            self.fd2
        };
        let action = if self.cloexec && at < 2 {
            Some(Pipe2Action::SetCloexec { fd })
        } else if self.nonblock && (at < 2 || (self.cloexec && at < 4)) {
            Some(Pipe2Action::SetNonblock { fd })
        } else {
            None
        };
        let mut state = self;
        match action {
            Some(action) => {
                state.stage = Pipe2Stage::Setting { at };
                (state, action)
            },
            None => {
                state.stage = Pipe2Stage::Done(Ok(()));
                (state, Pipe2Action::Return(Ok(())))
            },
        }
    }

    /// See [`Pipe2::first`].
    pub fn begin(fd1: RawFd, fd2: RawFd, cloexec: bool, nonblock: bool) -> (step: (
        Pipe2,
        Pipe2Action,
    ))
        ensures
            step == Pipe2::first(fd1, fd2, cloexec, nonblock),
    {
        (Pipe2 { fd1, fd2, cloexec, nonblock, stage: Pipe2Stage::Done(Ok(())) }).step(0)
    }

    /// See [`Pipe2::next`].
    pub fn resume(self, outcome: Result<c_int, Errno>) -> (step: (Pipe2, Pipe2Action))
        ensures
            step == self.next(outcome),
    {
        let mut state = self;
        match self.stage {
            Pipe2Stage::Setting { at } => match outcome {
                Ok(_) => if at < 4 {
                    self.step(at + 1)
                } else {
                    state.stage = Pipe2Stage::Done(Ok(()));
                    (state, Pipe2Action::Return(Ok(())))
                },
                Err(errno) => {
                    state.stage = Pipe2Stage::ClosingFirst { errno };
                    (state, Pipe2Action::Close { fd: self.fd1 })
                },
            },
            Pipe2Stage::ClosingFirst { errno } => {
                state.stage = Pipe2Stage::ClosingSecond { errno };
                (state, Pipe2Action::Close { fd: self.fd2 })
            },
            Pipe2Stage::ClosingSecond { errno } => {
                state.stage = Pipe2Stage::Done(Err(errno));
                (state, Pipe2Action::Return(Err(errno)))
            },
            Pipe2Stage::Done(result) => (self, Pipe2Action::Return(result)),
        }
    }

    /// The step `action` is what the state `self` waits for: a state that
    /// sets flags waits for the planned call of its number, and so on.
    pub open spec fn awaits(self, action: Pipe2Action) -> bool {
        match self.stage {
            Pipe2Stage::Setting { at } => at < self.plan().len() && action == self.plan()[
                at as int
            ],
            Pipe2Stage::ClosingFirst { .. } => action == (Pipe2Action::Close { fd: self.fd1 }),
            Pipe2Stage::ClosingSecond { .. } => action == (Pipe2Action::Close { fd: self.fd2 }),
            Pipe2Stage::Done(result) => action == Pipe2Action::Return(result),
        }
    }

    /// How many calls may still be asked for.
    pub open spec fn calls_left(self) -> int {
        match self.stage {
            Pipe2Stage::Setting { at } => self.plan().len() - at + 2,
            Pipe2Stage::ClosingFirst { .. } => 2,
            Pipe2Stage::ClosingSecond { .. } => 1,
            Pipe2Stage::Done(_) => 0,
        }
    }

    /// The calls are asked for in the order of the plan, and only those:
    /// the first step is the first planned call, and while calls succeed
    /// each step is the planned call after the last. With nothing planned,
    /// or behind the last planned call, the result is good.
    pub proof fn lemma_follows_plan(self, action: Pipe2Action, outcome: Result<c_int, Errno>)
        requires
            self.awaits(action),
        ensures
            ({
                let (begun, step) = Pipe2::first(self.fd1, self.fd2, self.cloexec, self.nonblock);
                begun.awaits(step) && begun.plan() == self.plan()
            }),
            ({
                let (then, step) = self.next(outcome);
                then.awaits(step) && then.plan() == self.plan()
            }),
            self.stage matches Pipe2Stage::Setting { at } ==> (outcome is Ok ==> self.next(
                outcome,
            ).1 == if at + 1 < self.plan().len() {
                self.plan()[at + 1]
            } else {
                Pipe2Action::Return(Ok(()))
            }),
    {
    }

    /// The first call that fails ends the setting of flags: the first end
    /// is closed, then the second, and the failure is the result, whatever
    /// the closing ends in.
    pub proof fn lemma_failure_closes_both(
        self,
        errno: Errno,
        closed1: Result<c_int, Errno>,
        closed2: Result<c_int, Errno>,
    )
        requires
            self.stage is Setting,
        ensures
            ({
                let (at1, step1) = self.next(Err(errno));
                let (at2, step2) = at1.next(closed1);
                let (at3, step3) = at2.next(closed2);
                &&& step1 == (Pipe2Action::Close { fd: self.fd1 })
                &&& step2 == (Pipe2Action::Close { fd: self.fd2 })
                &&& step3 == Pipe2Action::Return(Err(errno))
            }),
    {
    }

    /// Each step leaves fewer calls to ask for, and none is left exactly
    /// when the result is given: at most four calls to set flags, and two
    /// to close.
    pub proof fn lemma_ends(self, action: Pipe2Action, outcome: Result<c_int, Errno>)
        requires
            self.awaits(action),
        ensures
            0 <= self.calls_left() <= 6,
            self.calls_left() == 0 <==> action is Return,
            self.calls_left() > 0 ==> self.next(outcome).0.calls_left() < self.calls_left(),
    {
    }
}

} // verus!
