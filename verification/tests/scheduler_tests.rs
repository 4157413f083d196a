use ckb_std::error::SysError;
use ckb_std::scheduler::{
    ProcState, ReadOutcome, Scheduler, Wake, WaitOutcome, WriteOutcome, MAX_FDS, MAX_VMS,
};

#[test]
fn scheduler_picks_lowest_id_runnable() {
    let mut s = Scheduler::new();
    assert_eq!(s.process_id(), 0);
    // three children, ids 1, 2, 3
    assert_eq!(s.spawn(Vec::new()), Ok(1));
    assert_eq!(s.spawn(Vec::new()), Ok(2));
    assert_eq!(s.spawn(Vec::new()), Ok(3));
    // the processor frees up; the lowest id runs next, every time
    s.exit(0);
    assert_eq!(s.schedule(), 1);
    s.exit(0);
    assert_eq!(s.schedule(), 2);
    s.exit(0);
    assert_eq!(s.schedule(), 3);
}

#[test]
fn scheduler_priority_after_unblock() {
    let mut s = Scheduler::new();
    assert_eq!(s.spawn(Vec::new()), Ok(1));
    assert_eq!(s.spawn(Vec::new()), Ok(2));
    // the root waits for 2; 1 and 2 are runnable, so 1 runs first
    assert_eq!(s.wait(2), WaitOutcome::Blocked);
    assert_eq!(s.schedule(), 1);
    // 1 exits; 2 is the only runnable process
    s.exit(0);
    assert_eq!(s.schedule(), 2);
    // 2 exits: the root is unblocked, and being the lowest id it runs next
    s.exit(7);
    assert_eq!(s.schedule(), 0);
    assert_eq!(s.take_wake(), Some(Wake::WaitEnded(Ok(7))));
}

#[test]
fn pipe_fifo_across_chunked_reads_and_writes() {
    let mut s = Scheduler::new();
    let (rfd, wfd) = s.pipe().unwrap();
    // hand the read end to the child
    assert_eq!(s.spawn(vec![rfd]), Ok(1));
    // the root writes five bytes; no reader is there yet, so it suspends
    assert_eq!(
        s.write(wfd, vec![b'h', b'e', b'l', b'l', b'o']),
        WriteOutcome::Blocked
    );
    assert_eq!(s.schedule(), 1);
    // the child reads three bytes: the writer's first three, in order
    let mut collected = Vec::new();
    match s.read(rfd, 3) {
        ReadOutcome::Done(Ok(bytes)) => {
            assert_eq!(bytes, vec![b'h', b'e', b'l']);
            collected.extend_from_slice(&bytes);
        }
        other => panic!("unexpected read outcome {:?}", other),
    }
    // the child reads again; nothing is pending, so it suspends
    assert_eq!(s.read(rfd, 16), ReadOutcome::Blocked);
    // the root resumes and learns that three bytes were taken
    assert_eq!(s.schedule(), 0);
    assert_eq!(s.take_wake(), Some(Wake::WriteEnded(Ok(3))));
    // it writes the remaining two; the waiting reader takes them at once
    match s.write(wfd, vec![b'l', b'o']) {
        WriteOutcome::Done(Ok(n)) => assert_eq!(n, 2),
        other => panic!("unexpected write outcome {:?}", other),
    }
    // the child resumes holding exactly the remainder
    assert!(matches!(s.procs[1].state, ProcState::Runnable));
    match &s.procs[1].pending {
        Some(Wake::ReadEnded(Ok(bytes))) => collected.extend_from_slice(bytes),
        other => panic!("unexpected wake {:?}", other),
    }
    // all bytes read equal all bytes written, in write order
    assert_eq!(collected, vec![b'h', b'e', b'l', b'l', b'o']);
}

#[test]
fn closed_write_end_fails_reader() {
    let mut s = Scheduler::new();
    let (rfd, wfd) = s.pipe().unwrap();
    assert_eq!(s.spawn(vec![wfd]), Ok(1));
    // the root reads; no writer yet, so it suspends
    assert_eq!(s.read(rfd, 8), ReadOutcome::Blocked);
    assert_eq!(s.schedule(), 1);
    // the child closes the write end: the suspended reader is resumed at
    // once and observes the closed-end error instead of hanging forever
    assert_eq!(s.close(wfd), Ok(()));
    assert!(matches!(s.procs[0].state, ProcState::Runnable));
    s.exit(0);
    assert_eq!(s.schedule(), 0);
    assert_eq!(
        s.take_wake(),
        Some(Wake::ReadEnded(Err(SysError::OtherEndClosed)))
    );
    // any later read on the same pipe fails the same way
    assert_eq!(
        s.read(rfd, 8),
        ReadOutcome::Done(Err(SysError::OtherEndClosed))
    );
}

#[test]
fn closed_read_end_fails_writer() {
    let mut s = Scheduler::new();
    let (rfd, wfd) = s.pipe().unwrap();
    assert_eq!(s.spawn(vec![rfd]), Ok(1));
    // the root suspends writing
    assert_eq!(s.write(wfd, vec![1, 2, 3]), WriteOutcome::Blocked);
    assert_eq!(s.schedule(), 1);
    // the child closes the read end: the writer is resumed with the error
    assert_eq!(s.close(rfd), Ok(()));
    s.exit(0);
    assert_eq!(s.schedule(), 0);
    assert_eq!(
        s.take_wake(),
        Some(Wake::WriteEnded(Err(SysError::OtherEndClosed)))
    );
    assert_eq!(
        s.write(wfd, vec![4]),
        WriteOutcome::Done(Err(SysError::OtherEndClosed))
    );
}

#[test]
fn exit_reaps_waiters_and_descriptors() {
    let mut s = Scheduler::new();
    let (rfd, wfd) = s.pipe().unwrap();
    // the child keeps the write end
    assert_eq!(s.spawn(vec![wfd]), Ok(1));
    // the root suspends reading
    assert_eq!(s.read(rfd, 4), ReadOutcome::Blocked);
    assert_eq!(s.schedule(), 1);
    // the child exits without writing: its descriptors close, and the
    // orphaned reader resumes with the closed-end error
    s.exit(3);
    assert!(matches!(s.procs[0].state, ProcState::Runnable));
    assert_eq!(s.schedule(), 0);
    assert_eq!(
        s.take_wake(),
        Some(Wake::ReadEnded(Err(SysError::OtherEndClosed)))
    );
    // waiting on the terminated child answers at once with its code
    assert_eq!(s.wait(1), WaitOutcome::Done(Ok(3)));
}

#[test]
fn wait_failure_on_unknown_pid() {
    let mut s = Scheduler::new();
    assert_eq!(s.wait(9), WaitOutcome::Done(Err(SysError::WaitFailure)));
}

#[test]
fn resource_ceilings_are_normal_errors() {
    let mut s = Scheduler::new();
    // the VM ceiling: the root plus fifteen children fill the machine
    for i in 1..MAX_VMS {
        assert_eq!(s.spawn(Vec::new()), Ok(i as u64));
    }
    assert_eq!(s.spawn(Vec::new()), Err(SysError::MaxVmsSpawned));
    // the caller keeps running and other calls still work
    assert_eq!(s.process_id(), 0);
    // the descriptor ceiling
    let mut t = Scheduler::new();
    for _ in 0..(MAX_FDS / 2) {
        assert!(t.pipe().is_ok());
    }
    assert_eq!(t.pipe(), Err(SysError::MaxFdsCreated));
}

#[test]
fn spawn_checks_descriptors() {
    let mut s = Scheduler::new();
    assert_eq!(s.spawn(vec![42]), Err(SysError::InvalidFd));
    let (rfd, wfd) = s.pipe().unwrap();
    // a handed-over descriptor no longer belongs to the parent
    assert_eq!(s.spawn(vec![rfd]), Ok(1));
    assert_eq!(
        s.read(rfd, 1),
        ReadOutcome::Done(Err(SysError::InvalidFd))
    );
    // and cannot be handed over twice
    assert_eq!(s.spawn(vec![rfd]), Err(SysError::InvalidFd));
    assert_eq!(s.spawn(vec![wfd]), Ok(2));
    assert_eq!(s.procs[2].inherited_fds, vec![wfd]);
}

#[test]
fn invalid_descriptor_operations() {
    let mut s = Scheduler::new();
    assert_eq!(s.read(2, 1), ReadOutcome::Done(Err(SysError::InvalidFd)));
    assert_eq!(
        s.write(2, vec![1]),
        WriteOutcome::Done(Err(SysError::InvalidFd))
    );
    assert_eq!(s.close(2), Err(SysError::InvalidFd));
    let (rfd, wfd) = s.pipe().unwrap();
    // reading the write end and writing the read end are invalid
    assert_eq!(s.read(wfd, 1), ReadOutcome::Done(Err(SysError::InvalidFd)));
    assert_eq!(
        s.write(rfd, vec![1]),
        WriteOutcome::Done(Err(SysError::InvalidFd))
    );
    // closing twice is invalid
    assert_eq!(s.close(rfd), Ok(()));
    assert_eq!(s.close(rfd), Err(SysError::InvalidFd));
}
