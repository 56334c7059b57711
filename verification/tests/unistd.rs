use nix::null_terminated::NullTerminatedVec;
use nix::unistd::{
    isatty, CStrArray, Dup3, Dup3Action, Fork, Pipe2, Pipe2Action, EINVAL, ENOTTY,
};

const EBADF: i32 = 9;
const EMFILE: i32 = 24;

/// Feeds `outcomes` to a `dup3` until it gives its result; returns the calls
/// it asked for on the way, and the result.
fn run_dup3(
    oldfd: i32,
    newfd: i32,
    cloexec: bool,
    outcomes: &[Result<i32, i32>],
) -> (Vec<Dup3Action>, Result<i32, i32>) {
    let (mut state, mut action) = Dup3::begin(oldfd, newfd, cloexec);
    let mut calls = Vec::new();
    let mut fed = outcomes.iter();
    loop {
        if let Dup3Action::Return(result) = action {
            assert!(fed.next().is_none());
            return (calls, result);
        }
        calls.push(action);
        (state, action) = state.resume(*fed.next().unwrap());
    }
}

/// The same for the flags of a new pipe.
fn run_pipe2(
    cloexec: bool,
    nonblock: bool,
    outcomes: &[Result<i32, i32>],
) -> (Vec<Pipe2Action>, Result<(), i32>) {
    let (mut state, mut action) = Pipe2::begin(3, 4, cloexec, nonblock);
    let mut calls = Vec::new();
    let mut fed = outcomes.iter();
    loop {
        if let Pipe2Action::Return(result) = action {
            assert!(fed.next().is_none());
            return (calls, result);
        }
        calls.push(action);
        (state, action) = state.resume(*fed.next().unwrap());
    }
}

#[test]
fn fork_tells_child_and_parent_apart() {
    assert_eq!(Fork::from_pid(0), Fork::Child);
    assert_eq!(Fork::from_pid(4711), Fork::Parent(4711));
    assert!(Fork::Child.is_child());
    assert!(!Fork::Child.is_parent());
    assert!(Fork::Parent(1).is_parent());
    assert!(!Fork::Parent(1).is_child());
}

#[test]
fn fork_reports_failure_child_and_parent() {
    assert_eq!(Fork::from_result(-1, EMFILE), Err(EMFILE));
    assert_eq!(Fork::from_result(-1, 0), Err(0));
    assert_eq!(Fork::from_result(0, EMFILE), Ok(Fork::Child));
    assert_eq!(Fork::from_result(4711, EMFILE), Ok(Fork::Parent(4711)));
    assert_eq!(Fork::from_result(-2, EMFILE), Ok(Fork::Parent(-2)));
}

#[test]
fn isatty_is_true_when_the_call_returns_one() {
    assert_eq!(isatty(1, 0), Ok(true));
    assert_eq!(isatty(1, ENOTTY), Ok(true));
    assert_eq!(isatty(1, EBADF), Ok(true));
}

#[test]
fn isatty_is_false_for_a_descriptor_that_is_no_terminal() {
    assert_eq!(ENOTTY, 25);
    assert_eq!(isatty(0, ENOTTY), Ok(false));
    assert_eq!(isatty(-1, ENOTTY), Ok(false));
}

#[test]
fn isatty_hands_on_any_other_error() {
    assert_eq!(isatty(0, EBADF), Err(EBADF));
    assert_eq!(isatty(0, 0), Err(0));
    assert_eq!(isatty(2, EINVAL), Err(EINVAL));
}

#[test]
fn dup3_refuses_equal_descriptors_before_any_call() {
    assert_eq!(EINVAL, 22);
    assert_eq!(run_dup3(5, 5, false, &[]), (vec![], Err(EINVAL)));
    assert_eq!(run_dup3(5, 5, true, &[]), (vec![], Err(EINVAL)));
}

#[test]
fn dup3_without_the_flag_is_dup2() {
    assert_eq!(
        run_dup3(5, 6, false, &[Ok(6)]),
        (vec![Dup3Action::Dup2 { oldfd: 5, newfd: 6 }], Ok(6))
    );
    assert_eq!(
        run_dup3(5, 6, false, &[Err(EBADF)]),
        (vec![Dup3Action::Dup2 { oldfd: 5, newfd: 6 }], Err(EBADF))
    );
}

#[test]
fn dup3_sets_the_flag_of_the_new_descriptor() {
    assert_eq!(
        run_dup3(5, 6, true, &[Ok(6), Ok(0)]),
        (
            vec![Dup3Action::Dup2 { oldfd: 5, newfd: 6 }, Dup3Action::SetCloexec { fd: 6 }],
            Ok(6)
        )
    );
    assert_eq!(
        run_dup3(5, 6, true, &[Err(EMFILE)]),
        (vec![Dup3Action::Dup2 { oldfd: 5, newfd: 6 }], Err(EMFILE))
    );
}

#[test]
fn dup3_closes_the_new_descriptor_when_the_flag_fails() {
    let calls = vec![
        Dup3Action::Dup2 { oldfd: 5, newfd: 6 },
        Dup3Action::SetCloexec { fd: 6 },
        Dup3Action::Close { fd: 6 },
    ];
    assert_eq!(run_dup3(5, 6, true, &[Ok(6), Err(EBADF), Ok(0)]), (calls.clone(), Err(EBADF)));
    assert_eq!(run_dup3(5, 6, true, &[Ok(6), Err(EBADF), Err(EMFILE)]), (calls, Err(EBADF)));
}

#[test]
fn dup3_keeps_giving_its_result() {
    let (state, action) = Dup3::begin(1, 2, false);
    assert_eq!(action, Dup3Action::Dup2 { oldfd: 1, newfd: 2 });
    let (state, action) = state.resume(Ok(2));
    assert_eq!(action, Dup3Action::Return(Ok(2)));
    let (state, action) = state.resume(Err(EBADF));
    assert_eq!(state, Dup3::Done(Ok(2)));
    assert_eq!(action, Dup3Action::Return(Ok(2)));
}

#[test]
fn pipe2_without_flags_makes_no_call() {
    assert_eq!(run_pipe2(false, false, &[]), (vec![], Ok(())));
}

#[test]
fn pipe2_sets_each_flag_on_both_ends_in_order() {
    assert_eq!(
        run_pipe2(true, false, &[Ok(0), Ok(0)]),
        (vec![Pipe2Action::SetCloexec { fd: 3 }, Pipe2Action::SetCloexec { fd: 4 }], Ok(()))
    );
    assert_eq!(
        run_pipe2(false, true, &[Ok(0), Ok(0)]),
        (vec![Pipe2Action::SetNonblock { fd: 3 }, Pipe2Action::SetNonblock { fd: 4 }], Ok(()))
    );
    assert_eq!(
        run_pipe2(true, true, &[Ok(0), Ok(0), Ok(0), Ok(0)]),
        (
            vec![
                Pipe2Action::SetCloexec { fd: 3 },
                Pipe2Action::SetCloexec { fd: 4 },
                Pipe2Action::SetNonblock { fd: 3 },
                Pipe2Action::SetNonblock { fd: 4 },
            ],
            Ok(())
        )
    );
}

#[test]
fn pipe2_closes_both_ends_at_the_first_failure() {
    assert_eq!(
        run_pipe2(true, true, &[Err(EBADF), Ok(0), Ok(0)]),
        (
            vec![
                Pipe2Action::SetCloexec { fd: 3 },
                Pipe2Action::Close { fd: 3 },
                Pipe2Action::Close { fd: 4 },
            ],
            Err(EBADF)
        )
    );
    assert_eq!(
        run_pipe2(true, true, &[Ok(0), Ok(0), Ok(0), Err(EMFILE), Err(EBADF), Err(EBADF)]),
        (
            vec![
                Pipe2Action::SetCloexec { fd: 3 },
                Pipe2Action::SetCloexec { fd: 4 },
                Pipe2Action::SetNonblock { fd: 3 },
                Pipe2Action::SetNonblock { fd: 4 },
                Pipe2Action::Close { fd: 3 },
                Pipe2Action::Close { fd: 4 },
            ],
            Err(EMFILE)
        )
    );
    assert_eq!(
        run_pipe2(false, true, &[Ok(0), Err(EINVAL), Ok(0), Ok(0)]),
        (
            vec![
                Pipe2Action::SetNonblock { fd: 3 },
                Pipe2Action::SetNonblock { fd: 4 },
                Pipe2Action::Close { fd: 3 },
                Pipe2Action::Close { fd: 4 },
            ],
            Err(EINVAL)
        )
    );
}

#[test]
fn an_argument_array_is_a_run_of_first_characters() {
    let program = [b'l' as libc::c_char, b's' as libc::c_char, 0];
    let flag = [b'-' as libc::c_char, b'l' as libc::c_char, 0];
    let buffer = NullTerminatedVec::new(vec![&program[0], &flag[0]]);
    let argv: CStrArray = buffer.as_ref();
    assert_eq!(argv.len(), 2);
    let run = argv.as_ptr();
    assert_eq!(run.len(), 3);
    assert!(std::ptr::eq(run[0].unwrap(), &program[0]));
    assert!(std::ptr::eq(run[1].unwrap(), &flag[0]));
    assert!(run[2].is_none());
}
