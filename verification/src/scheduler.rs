//! A verified model of the host's cooperative process scheduler.
//!
//! The host runs many single-threaded VM instances (processes) and schedules
//! them deterministically: whenever the processor is free, the runnable
//! process with the lowest id runs next. Pipes are synchronous: bytes move
//! only when a reader and a writer meet, so a process that reads an empty
//! pipe, writes to an unread pipe, or waits on a live process is suspended
//! until its counterpart arrives; closing one end of a pipe fails — and
//! unblocks — the other end.
//!
//! This model is what guest code may assume of the host when it uses the
//! `spawn`/`pipe`/`read`/`write`/`wait`/`close` family. Its operations carry
//! the exact state transitions as contracts, and the scheduling rule, the
//! first-in-first-out property of pipes and the closed-pipe error behaviour
//! are proved of it.

use vstd::prelude::*;

use crate::error::SysError;

verus! {

/// The first file descriptor id a process can hold; the ids 0 and 1 are
/// reserved, and a zero descriptor terminates a descriptor list on the wire.
pub const FIRST_FD: u64 = 2;

/// The most VM instances the host will hold at once.
pub const MAX_VMS: usize = 16;

/// The most file descriptors the host will hold at once.
pub const MAX_FDS: usize = 64;

/// The state of one process.
#[derive(Debug, PartialEq, Eq)]
pub enum ProcState {
    /// Ready to run, not on the processor.
    Runnable,
    /// On the processor.
    Running,
    /// Finished; the exit code is recorded.
    Terminated,
    /// Suspended in a read of the pipe behind `fd`, with room for `cap`
    /// bytes.
    WaitForRead { fd: u64, cap: usize },
    /// Suspended in a write of `data` to the pipe behind `fd`.
    WaitForWrite { fd: u64, data: Vec<u8> },
    /// Suspended until the process `pid` terminates.
    WaitForExit { pid: u64 },
}

/// What a suspended process receives when it is resumed.
#[derive(Debug, PartialEq, Eq)]
pub enum Wake {
    /// The read ended: the bytes read, or the error.
    ReadEnded(Result<Vec<u8>, SysError>),
    /// The write ended: the count of bytes taken, or the error.
    WriteEnded(Result<usize, SysError>),
    /// The wait ended: the target's exit code, or the error.
    WaitEnded(Result<i8, SysError>),
}

/// One process of the machine.
#[derive(Debug, PartialEq, Eq)]
pub struct Process {
    /// The process id; ids are assigned incrementally and the root is 0.
    pub id: u64,
    /// The scheduling state.
    pub state: ProcState,
    /// The exit code; meaningful once the process is terminated.
    pub exit_code: i8,
    /// The descriptors handed over by the parent at spawn time.
    pub inherited_fds: Vec<u64>,
    /// The result to deliver when the process next runs, set when a
    /// suspension ends.
    pub pending: Option<Wake>,
}

/// One end of a pipe, as seen through a file descriptor.
#[derive(Debug, Clone, Copy, PartialEq, Eq, Structural)]
pub struct FdEntry {
    /// Which pipe this descriptor belongs to.
    pub pipe: usize,
    /// Whether this is the write end.
    pub write_end: bool,
    /// The process that may use this descriptor.
    pub owner: u64,
    /// Whether the descriptor is still open.
    pub open: bool,
}

/// One pipe: a synchronous byte channel between its two descriptors.
pub struct Pipe {
    /// The descriptor of the read end.
    pub read_fd: u64,
    /// The descriptor of the write end.
    pub write_fd: u64,
    /// Every byte writers have put into the pipe, in write order.
    pub written: Ghost<Seq<u8>>,
    /// Every byte readers have taken out of the pipe, in read order.
    pub delivered: Ghost<Seq<u8>>,
}

/// The whole machine: processes, descriptors, pipes, and the process on the
/// processor.
pub struct Scheduler {
    /// All processes ever created, indexed by id.
    pub procs: Vec<Process>,
    /// All descriptors ever created; the descriptor id is the index plus
    /// [`FIRST_FD`].
    pub fds: Vec<FdEntry>,
    /// All pipes ever created.
    pub pipes: Vec<Pipe>,
    /// The index of the process on the processor. When that process is not
    /// in the running state, the processor is free and the next runnable
    /// process is due to be scheduled.
    pub current: usize,
}

impl Scheduler {
    /// A descriptor id the machine has handed out.
    pub open spec fn fd_valid(self, fd: u64) -> bool {
        FIRST_FD <= fd && fd - FIRST_FD < self.fds.len()
    }

    /// The table entry behind a descriptor id.
    pub open spec fn fd_entry(self, fd: u64) -> FdEntry {
        self.fds[fd - FIRST_FD]
    }

    /// The descriptor is open and owned by the process `pid`.
    pub open spec fn fd_usable(self, fd: u64, pid: u64) -> bool {
        &&& self.fd_valid(fd)
        &&& self.fd_entry(fd).open
        &&& self.fd_entry(fd).owner == pid
    }

    /// Process `j` is suspended reading the descriptor `rfd`.
    pub open spec fn reader_waiting(self, rfd: u64, j: int) -> bool {
        &&& 0 <= j < self.procs.len()
        &&& self.procs[j].state matches ProcState::WaitForRead { fd, cap } && fd == rfd
    }

    /// Process `j` is suspended writing the descriptor `wfd`.
    pub open spec fn writer_waiting(self, wfd: u64, j: int) -> bool {
        &&& 0 <= j < self.procs.len()
        &&& self.procs[j].state matches ProcState::WaitForWrite { fd, data } && fd == wfd
    }

    /// One pipe is wired consistently: its two descriptors exist, are
    /// distinct, point back at it from the right ends — and what has been
    /// taken out of it is exactly what was put in, in order.
    pub open spec fn pipe_wf(self, p: int) -> bool {
        let pipe = self.pipes[p];
        &&& self.fd_valid(pipe.read_fd)
        &&& self.fd_valid(pipe.write_fd)
        &&& pipe.read_fd != pipe.write_fd
        &&& self.fd_entry(pipe.read_fd).pipe == p
        &&& !self.fd_entry(pipe.read_fd).write_end
        &&& self.fd_entry(pipe.write_fd).pipe == p
        &&& self.fd_entry(pipe.write_fd).write_end
        &&& pipe.delivered@ == pipe.written@
    }

    /// One process's suspension is consistent: a process suspended on a
    /// descriptor owns that end of a pipe and the end is open; a process
    /// suspended on an exit waits for a process that exists.
    pub open spec fn proc_wf(self, i: int) -> bool {
        match self.procs[i].state {
            ProcState::WaitForRead { fd, cap } => self.fd_usable(fd, i as u64) && !self.fd_entry(
                fd,
            ).write_end,
            ProcState::WaitForWrite { fd, data } => self.fd_usable(fd, i as u64) && self.fd_entry(
                fd,
            ).write_end,
            ProcState::WaitForExit { pid } => pid < self.procs.len(),
            _ => true,
        }
    }

    /// The machine is well formed.
    pub open spec fn wf(self) -> bool {
        &&& self.current < self.procs.len()
        &&& self.procs.len() <= MAX_VMS
        &&& self.fds.len() <= MAX_FDS
        &&& forall|i: int| 0 <= i < self.procs.len() ==> (#[trigger] self.procs[i].id) == i
        &&& forall|i: int|
            0 <= i < self.procs.len() && i != self.current ==> !((#[trigger] self.procs[i].state)
                is Running)
        &&& forall|f: int|
            0 <= f < self.fds.len() ==> (#[trigger] self.fds[f].pipe) < self.pipes.len()
                && self.fds[f].owner < self.procs.len()
        &&& forall|f: int|
            0 <= f < self.fds.len() ==> (if self.fds[f].write_end {
                self.pipes[(#[trigger] self.fds[f]).pipe as int].write_fd == f + FIRST_FD
            } else {
                self.pipes[self.fds[f].pipe as int].read_fd == f + FIRST_FD
            })
        &&& forall|p: int| 0 <= p < self.pipes.len() ==> #[trigger] self.pipe_wf(p)
        &&& forall|i: int| 0 <= i < self.procs.len() ==> #[trigger] self.proc_wf(i)
    }

    /// The process on the processor is running.
    pub open spec fn has_running(self) -> bool {
        self.procs[self.current as int].state is Running
    }

    /// The id of the process on the processor.
    pub open spec fn spec_current_pid(self) -> u64 {
        self.current as u64
    }

    /// Some process is ready to run.
    pub open spec fn exists_runnable(self) -> bool {
        exists|i: int| 0 <= i < self.procs.len() && (#[trigger] self.procs[i].state) is Runnable
    }

    /// A fresh machine: one root process with id 0, on the processor, and no
    /// pipes.
    pub fn new() -> (r: Scheduler)
        ensures
            r.wf(),
            r.has_running(),
            r.procs@.len() == 1,
            r.procs@[0].id == 0,
            r.current == 0,
            r.fds@.len() == 0,
            r.pipes@.len() == 0,
    {
        let root = Process {
            id: 0,
            state: ProcState::Running,
            exit_code: 0,
            inherited_fds: Vec::new(),
            pending: None,
        };
        let mut procs: Vec<Process> = Vec::new();
        procs.push(root);
        Scheduler { procs, fds: Vec::new(), pipes: Vec::new(), current: 0 }
    }

    /// The id of the calling process.
    pub fn process_id(&self) -> (r: u64)
        requires
            self.wf(),
        ensures
            r == self.spec_current_pid(),
    {
        self.current as u64
    }

    /// Put the lowest-id runnable process on the free processor.
    ///
    /// This is the whole scheduling rule: among all runnable processes, the
    /// one with the minimum process id runs next — a strict, total,
    /// deterministic order with no fairness. It holds whenever the processor
    /// is handed over: after a spawn, an unblocked read or write, a finished
    /// wait, or an exit.
    pub fn schedule(&mut self) -> (r: u64)
        requires
            old(self).wf(),
            !old(self).has_running(),
            old(self).exists_runnable(),
        ensures
            final(self).wf(),
            final(self).has_running(),
            // the chosen process was runnable, and no runnable process has a
            // smaller id
            r < old(self).procs@.len(),
            old(self).procs@[r as int].state is Runnable,
            forall|i: int|
                0 <= i < old(self).procs@.len() && (#[trigger] old(self).procs@[i].state)
                    is Runnable ==> r <= i,
            // the chosen process now runs; nothing else changes
            final(self).current == r,
            final(self).procs@ == old(self).procs@.update(
                r as int,
                Process { state: ProcState::Running, ..old(self).procs@[r as int] },
            ),
            final(self).fds@ == old(self).fds@,
            final(self).pipes@ == old(self).pipes@,
    {
        let mut i: usize = 0;
        loop
            invariant
                self == old(self),
                i < self.procs.len(),
                forall|j: int| 0 <= j < i ==> !((#[trigger] self.procs@[j].state) is Runnable),
                self.exists_runnable(),
            ensures
                self == old(self),
                i < self.procs.len(),
                self.procs@[i as int].state is Runnable,
                forall|j: int| 0 <= j < i ==> !((#[trigger] self.procs@[j].state) is Runnable),
            decreases self.procs.len() - i,
        {
            let runnable = matches!(self.procs[i].state, ProcState::Runnable);
            if runnable {
                break ;
            }
            proof {
                let w = choose|w: int|
                    0 <= w < self.procs.len() && (#[trigger] self.procs[w].state) is Runnable;
                assert(i < w);
            }
            i = i + 1;
        }
        let p = &mut self.procs[i];
        p.state = ProcState::Running;
        self.current = i;
        proof {
            let snew = *final(self);
            let sold = *old(self);
            assert(snew.procs@ =~= sold.procs@.update(
                i as int,
                Process { state: ProcState::Running, ..sold.procs@[i as int] },
            ));
            assert forall|q: int| 0 <= q < snew.pipes.len() implies #[trigger] snew.pipe_wf(q) by {
                assert(sold.pipe_wf(q));
            }
            assert forall|k: int| 0 <= k < snew.procs.len() implies #[trigger] snew.proc_wf(k) by {
                assert(sold.proc_wf(k));
            }
        }
        i as u64
    }
}


/// The immediate outcome of a read: finished with a result, or suspended.
#[derive(Debug, PartialEq, Eq)]
pub enum ReadOutcome {
    Done(Result<Vec<u8>, SysError>),
    Blocked,
}

/// The immediate outcome of a write: finished with a result, or suspended.
#[derive(Debug, PartialEq, Eq)]
pub enum WriteOutcome {
    Done(Result<usize, SysError>),
    Blocked,
}

/// The immediate outcome of a wait: finished with a result, or suspended.
#[derive(Debug, PartialEq, Eq)]
pub enum WaitOutcome {
    Done(Result<i8, SysError>),
    Blocked,
}

impl Scheduler {
    /// The data a process suspended in a write is offering.
    pub open spec fn writer_data(self, j: int) -> Seq<u8> {
        match self.procs[j].state {
            ProcState::WaitForWrite { fd, data } => data@,
            _ => Seq::empty(),
        }
    }

    /// The buffer room a process suspended in a read is offering.
    pub open spec fn reader_cap(self, j: int) -> nat {
        match self.procs[j].state {
            ProcState::WaitForRead { fd, cap } => cap as nat,
            _ => 0,
        }
    }

    /// Two processes suspended on the same descriptor are the same process:
    /// only the descriptor's one owner can suspend on it.
    pub proof fn lemma_waiter_unique(self, fd: u64, j1: int, j2: int)
        requires
            self.wf(),
            (self.reader_waiting(fd, j1) && self.reader_waiting(fd, j2)) || (self.writer_waiting(
                fd,
                j1,
            ) && self.writer_waiting(fd, j2)),
        ensures
            j1 == j2,
    {
        assert(self.proc_wf(j1));
        assert(self.proc_wf(j2));
    }

    /// Find the process suspended in a write of the descriptor `wfd`.
    fn find_writer(&self, wfd: u64) -> (r: Option<usize>)
        requires
            self.wf(),
        ensures
            r matches Some(j) ==> self.writer_waiting(wfd, j as int),
            r is None ==> forall|j: int| !self.writer_waiting(wfd, j),
    {
        let mut i: usize = 0;
        while i < self.procs.len()
            invariant
                i <= self.procs@.len(),
                forall|j: int| 0 <= j < i ==> !self.writer_waiting(wfd, j),
            decreases self.procs@.len() - i,
        {
            let found = match &self.procs[i].state {
                ProcState::WaitForWrite { fd, data } => *fd == wfd,
                _ => false,
            };
            if found {
                return Some(i);
            }
            i = i + 1;
        }
        None
    }

    /// Find the process suspended in a read of the descriptor `rfd`.
    fn find_reader(&self, rfd: u64) -> (r: Option<usize>)
        requires
            self.wf(),
        ensures
            r matches Some(j) ==> self.reader_waiting(rfd, j as int),
            r is None ==> forall|j: int| !self.reader_waiting(rfd, j),
    {
        let mut i: usize = 0;
        while i < self.procs.len()
            invariant
                i <= self.procs@.len(),
                forall|j: int| 0 <= j < i ==> !self.reader_waiting(rfd, j),
            decreases self.procs@.len() - i,
        {
            let found = match &self.procs[i].state {
                ProcState::WaitForRead { fd, cap } => *fd == rfd,
                _ => false,
            };
            if found {
                return Some(i);
            }
            i = i + 1;
        }
        None
    }

    /// Create a pipe owned by the calling process. The read end comes first,
    /// the write end second; the error is the descriptor ceiling, and the
    /// caller keeps running either way.
    pub fn pipe(&mut self) -> (r: Result<(u64, u64), SysError>)
        requires
            old(self).wf(),
            old(self).has_running(),
        ensures
            final(self).wf(),
            final(self).has_running(),
            final(self).current == old(self).current,
            final(self).procs@ == old(self).procs@,
            match r {
                Err(e) => {
                    &&& e == SysError::MaxFdsCreated
                    &&& old(self).fds@.len() + 2 > MAX_FDS
                    &&& final(self).fds@ == old(self).fds@
                    &&& final(self).pipes@ == old(self).pipes@
                },
                Ok((rfd, wfd)) => {
                    &&& old(self).fds@.len() + 2 <= MAX_FDS
                    &&& rfd == FIRST_FD + old(self).fds@.len()
                    &&& wfd == rfd + 1
                    &&& final(self).fds@.len() == old(self).fds@.len() + 2
                    &&& final(self).fds@ == old(self).fds@.push(
                        FdEntry {
                            pipe: old(self).pipes@.len() as usize,
                            write_end: false,
                            owner: old(self).spec_current_pid(),
                            open: true,
                        },
                    ).push(
                        FdEntry {
                            pipe: old(self).pipes@.len() as usize,
                            write_end: true,
                            owner: old(self).spec_current_pid(),
                            open: true,
                        },
                    )
                    &&& final(self).pipes@.len() == old(self).pipes@.len() + 1
                    &&& (forall|q: int|
                        0 <= q < old(self).pipes@.len() ==> final(self).pipes@[q] == old(
                            self,
                        ).pipes@[q])
                    &&& final(self).pipes@.last().read_fd == rfd
                    &&& final(self).pipes@.last().write_fd == wfd
                    &&& final(self).pipes@.last().written@ == Seq::<u8>::empty()
                    &&& final(self).pipes@.last().delivered@ == Seq::<u8>::empty()
                },
            },
    {
        if self.fds.len() + 2 > MAX_FDS {
            return Err(SysError::MaxFdsCreated);
        }
        let pid = self.current as u64;
        let pipe_idx = self.pipes.len();
        let rfd = FIRST_FD + (self.fds.len() as u64);
        let wfd = rfd + 1;
        self.fds.push(FdEntry { pipe: pipe_idx, write_end: false, owner: pid, open: true });
        self.fds.push(FdEntry { pipe: pipe_idx, write_end: true, owner: pid, open: true });
        self.pipes.push(
            Pipe {
                read_fd: rfd,
                write_fd: wfd,
                written: Ghost(Seq::empty()),
                delivered: Ghost(Seq::empty()),
            },
        );
        proof {
            let snew = *final(self);
            let sold = *old(self);
            assert forall|q: int| 0 <= q < snew.pipes.len() implies #[trigger] snew.pipe_wf(q) by {
                if q < sold.pipes.len() {
                    assert(sold.pipe_wf(q));
                }
            }
            assert forall|k: int| 0 <= k < snew.procs.len() implies #[trigger] snew.proc_wf(k) by {
                assert(sold.proc_wf(k));
            }
        }
        Ok((rfd, wfd))
    }
}


impl Scheduler {
    /// The descriptor is a usable read end for the calling process.
    pub open spec fn read_fd_ok(self, fd: u64) -> bool {
        &&& self.fd_usable(fd, self.spec_current_pid())
        &&& !self.fd_entry(fd).write_end
    }

    /// The descriptor is a usable write end for the calling process.
    pub open spec fn write_fd_ok(self, fd: u64) -> bool {
        &&& self.fd_usable(fd, self.spec_current_pid())
        &&& self.fd_entry(fd).write_end
    }

    /// A transfer of `moved` bytes over pipe `p` from the suspended process
    /// `j` to the caller: `j` resumes runnable with the write acknowledged,
    /// the pipe's stream grows by exactly the moved bytes on both sides, and
    /// nothing else changes.
    pub open spec fn read_transfer_post(pre: Scheduler, post: Scheduler, p: int, j: int, moved: Seq<u8>) -> bool {
        &&& post.procs@ == pre.procs@.update(
            j,
            Process {
                state: ProcState::Runnable,
                pending: Some(Wake::WriteEnded(Ok(moved.len() as usize))),
                ..pre.procs@[j]
            },
        )
        &&& post.fds@ == pre.fds@
        &&& post.pipes@.len() == pre.pipes@.len()
        &&& (forall|q: int|
            0 <= q < pre.pipes@.len() && q != p ==> post.pipes@[q] == pre.pipes@[q])
        &&& post.pipes@[p].read_fd == pre.pipes@[p].read_fd
        &&& post.pipes@[p].write_fd == pre.pipes@[p].write_fd
        &&& post.pipes@[p].written@ == pre.pipes@[p].written@ + moved
        &&& post.pipes@[p].delivered@ == pre.pipes@[p].delivered@ + moved
        &&& post.current == pre.current
    }

    /// A transfer of `moved` bytes over pipe `p` from the caller to the
    /// suspended process `j`: `j` resumes runnable holding exactly the moved
    /// bytes, the pipe's stream grows by them on both sides, and nothing
    /// else changes.
    pub open spec fn write_transfer_post(pre: Scheduler, post: Scheduler, p: int, j: int, moved: Seq<u8>) -> bool {
        &&& post.procs@.len() == pre.procs@.len()
        &&& (forall|k: int|
            0 <= k < pre.procs@.len() && k != j ==> post.procs@[k] == pre.procs@[k])
        &&& post.procs@[j].id == pre.procs@[j].id
        &&& post.procs@[j].state is Runnable
        &&& post.procs@[j].exit_code == pre.procs@[j].exit_code
        &&& post.procs@[j].inherited_fds@ == pre.procs@[j].inherited_fds@
        &&& post.procs@[j].pending matches Some(w) && w matches Wake::ReadEnded(res) && res
            matches Ok(bytes) && bytes@ == moved
        &&& post.fds@ == pre.fds@
        &&& post.pipes@.len() == pre.pipes@.len()
        &&& (forall|q: int|
            0 <= q < pre.pipes@.len() && q != p ==> post.pipes@[q] == pre.pipes@[q])
        &&& post.pipes@[p].read_fd == pre.pipes@[p].read_fd
        &&& post.pipes@[p].write_fd == pre.pipes@[p].write_fd
        &&& post.pipes@[p].written@ == pre.pipes@[p].written@ + moved
        &&& post.pipes@[p].delivered@ == pre.pipes@[p].delivered@ + moved
        &&& post.current == pre.current
    }

    /// The caller is suspended in the given state; nothing else changes.
    pub open spec fn suspended_post(pre: Scheduler, post: Scheduler, st: ProcState) -> bool {
        &&& post.procs@ == pre.procs@.update(
            pre.current as int,
            Process { state: st, ..pre.procs@[pre.current as int] },
        )
        &&& post.fds@ == pre.fds@
        &&& post.pipes@ == pre.pipes@
        &&& post.current == pre.current
    }

    /// Read up to `cap` bytes from the pipe behind `fd`.
    ///
    /// With a writer suspended on the other end, up to `cap` of its bytes
    /// move at once: the caller receives exactly the prefix the writer
    /// offered, in order, and the writer resumes with that count — the
    /// first-in-first-out transfer. With the other end closed and no writer,
    /// the read fails as closed. Otherwise the caller suspends until a
    /// writer or a close arrives.
    pub fn read(&mut self, fd: u64, cap: usize) -> (r: ReadOutcome)
        requires
            old(self).wf(),
            old(self).has_running(),
        ensures
            final(self).wf(),
            match r {
                ReadOutcome::Done(res) => match res {
                    Ok(bytes) => {
                        &&& old(self).read_fd_ok(fd)
                        &&& exists|j: int|
                            #[trigger] old(self).writer_waiting(
                                old(self).pipes@[old(self).fd_entry(fd).pipe as int].write_fd,
                                j,
                            ) && bytes@ == old(self).writer_data(j).take(
                                vstd::math::min(cap as int, old(self).writer_data(j).len() as int),
                            ) && Scheduler::read_transfer_post(
                                *old(self),
                                *final(self),
                                old(self).fd_entry(fd).pipe as int,
                                j,
                                bytes@,
                            )
                        &&& final(self).has_running()
                    },
                    Err(e) => {
                        &&& *final(self) == *old(self)
                        &&& final(self).has_running()
                        &&& if !old(self).read_fd_ok(fd) {
                            e == SysError::InvalidFd
                        } else {
                            let wfd = old(self).pipes@[old(self).fd_entry(fd).pipe as int].write_fd;
                            &&& e == SysError::OtherEndClosed
                            &&& !old(self).fd_entry(wfd).open
                            &&& forall|j: int| !old(self).writer_waiting(wfd, j)
                        }
                    },
                },
                ReadOutcome::Blocked => {
                    let wfd = old(self).pipes@[old(self).fd_entry(fd).pipe as int].write_fd;
                    &&& old(self).read_fd_ok(fd)
                    &&& old(self).fd_entry(wfd).open
                    &&& forall|j: int| !old(self).writer_waiting(wfd, j)
                    &&& Scheduler::suspended_post(
                        *old(self),
                        *final(self),
                        ProcState::WaitForRead { fd, cap },
                    )
                },
            },
    {
        let pid = self.current as u64;
        if !(fd >= FIRST_FD && fd - FIRST_FD < self.fds.len() as u64) {
            return ReadOutcome::Done(Err(SysError::InvalidFd));
        }
        let e = self.fds[(fd - FIRST_FD) as usize];
        if !e.open || e.owner != pid || e.write_end {
            return ReadOutcome::Done(Err(SysError::InvalidFd));
        }
        let p = e.pipe;
        let wfd = self.pipes[p].write_fd;
        proof {
            assert(self.pipe_wf(p as int));
        }
        match self.find_writer(wfd) {
            Some(j) => {
                let ghost pre = *self;
                let mut st = ProcState::Runnable;
                let pj = &mut self.procs[j];
                core::mem::swap(&mut pj.state, &mut st);
                let data = match st {
                    ProcState::WaitForWrite { fd: _, data } => data,
                    _ => {
                        proof {
                            assert(false);
                        }
                        Vec::new()
                    },
                };
                let t = if cap < data.len() {
                    cap
                } else {
                    data.len()
                };
                let mut bytes = data;
                bytes.truncate(t);
                let pj2 = &mut self.procs[j];
                pj2.pending = Some(Wake::WriteEnded(Ok(t)));
                let pp = &mut self.pipes[p];
                pp.written = Ghost(pp.written@ + bytes@);
                pp.delivered = Ghost(pp.delivered@ + bytes@);
                proof {
                    let snew = *final(self);
                    let sold = *old(self);
                    assert(snew.procs@ =~= sold.procs@.update(
                        j as int,
                        Process {
                            state: ProcState::Runnable,
                            pending: Some(Wake::WriteEnded(Ok(t))),
                            ..sold.procs@[j as int]
                        },
                    ));
                    assert(bytes@ == sold.writer_data(j as int).take(
                        vstd::math::min(cap as int, sold.writer_data(j as int).len() as int),
                    ));
                    assert forall|q: int| 0 <= q < snew.pipes.len() implies #[trigger] snew.pipe_wf(
                        q,
                    ) by {
                        assert(sold.pipe_wf(q));
                    }
                    assert forall|k: int| 0 <= k < snew.procs.len() implies #[trigger] snew.proc_wf(
                        k,
                    ) by {
                        assert(sold.proc_wf(k));
                    }
                }
                ReadOutcome::Done(Ok(bytes))
            },
            None => {
                let wopen = self.fds[(wfd - FIRST_FD) as usize].open;
                if !wopen {
                    ReadOutcome::Done(Err(SysError::OtherEndClosed))
                } else {
                    let c = self.current;
                    let pc = &mut self.procs[c];
                    pc.state = ProcState::WaitForRead { fd, cap };
                    proof {
                        let snew = *final(self);
                        let sold = *old(self);
                        assert(snew.procs@ =~= sold.procs@.update(
                            sold.current as int,
                            Process {
                                state: ProcState::WaitForRead { fd, cap },
                                ..sold.procs@[sold.current as int]
                            },
                        ));
                        assert forall|q: int|
                            0 <= q < snew.pipes.len() implies #[trigger] snew.pipe_wf(q) by {
                            assert(sold.pipe_wf(q));
                        }
                        assert forall|k: int|
                            0 <= k < snew.procs.len() implies #[trigger] snew.proc_wf(k) by {
                            assert(sold.proc_wf(k));
                        }
                    }
                    ReadOutcome::Blocked
                }
            },
        }
    }
}


impl Scheduler {
    /// Write the given bytes to the pipe behind `fd`.
    ///
    /// With a reader suspended on the other end, up to its buffer room moves
    /// at once: the reader receives exactly the first `t` bytes offered, in
    /// order, and the caller learns `t` — a short count is a normal result.
    /// With the other end closed and no reader, the write fails as closed.
    /// Otherwise the caller suspends, with its bytes, until a reader or a
    /// close arrives.
    pub fn write(&mut self, fd: u64, data: Vec<u8>) -> (r: WriteOutcome)
        requires
            old(self).wf(),
            old(self).has_running(),
        ensures
            final(self).wf(),
            match r {
                WriteOutcome::Done(res) => match res {
                    Ok(t) => {
                        &&& old(self).write_fd_ok(fd)
                        &&& exists|j: int|
                            #[trigger] old(self).reader_waiting(
                                old(self).pipes@[old(self).fd_entry(fd).pipe as int].read_fd,
                                j,
                            ) && t == vstd::math::min(
                                old(self).reader_cap(j) as int,
                                data@.len() as int,
                            ) && Scheduler::write_transfer_post(
                                *old(self),
                                *final(self),
                                old(self).fd_entry(fd).pipe as int,
                                j,
                                data@.take(t as int),
                            )
                        &&& final(self).has_running()
                    },
                    Err(e) => {
                        &&& *final(self) == *old(self)
                        &&& final(self).has_running()
                        &&& if !old(self).write_fd_ok(fd) {
                            e == SysError::InvalidFd
                        } else {
                            let rfd = old(self).pipes@[old(self).fd_entry(fd).pipe as int].read_fd;
                            &&& e == SysError::OtherEndClosed
                            &&& !old(self).fd_entry(rfd).open
                            &&& forall|j: int| !old(self).reader_waiting(rfd, j)
                        }
                    },
                },
                WriteOutcome::Blocked => {
                    let rfd = old(self).pipes@[old(self).fd_entry(fd).pipe as int].read_fd;
                    &&& old(self).write_fd_ok(fd)
                    &&& old(self).fd_entry(rfd).open
                    &&& forall|j: int| !old(self).reader_waiting(rfd, j)
                    &&& Scheduler::suspended_post(
                        *old(self),
                        *final(self),
                        ProcState::WaitForWrite { fd, data: data },
                    )
                },
            },
    {
        let pid = self.current as u64;
        if !(fd >= FIRST_FD && fd - FIRST_FD < self.fds.len() as u64) {
            return WriteOutcome::Done(Err(SysError::InvalidFd));
        }
        let e = self.fds[(fd - FIRST_FD) as usize];
        if !e.open || e.owner != pid || !e.write_end {
            return WriteOutcome::Done(Err(SysError::InvalidFd));
        }
        let p = e.pipe;
        let rfd = self.pipes[p].read_fd;
        proof {
            assert(self.pipe_wf(p as int));
        }
        match self.find_reader(rfd) {
            Some(j) => {
                let cap = match &self.procs[j].state {
                    ProcState::WaitForRead { fd: _, cap } => *cap,
                    _ => {
                        proof {
                            assert(false);
                        }
                        0
                    },
                };
                let t = if cap < data.len() {
                    cap
                } else {
                    data.len()
                };
                let mut bytes = data;
                bytes.truncate(t);
                let pj = &mut self.procs[j];
                pj.state = ProcState::Runnable;
                let pj2 = &mut self.procs[j];
                let ghost moved = bytes@;
                pj2.pending = Some(Wake::ReadEnded(Ok(bytes)));
                let pp = &mut self.pipes[p];
                pp.written = Ghost(pp.written@ + moved);
                pp.delivered = Ghost(pp.delivered@ + moved);
                proof {
                    let snew = *final(self);
                    let sold = *old(self);
                    assert(snew.procs@[j as int].inherited_fds@ == sold.procs@[
                        j as int].inherited_fds@);
                    assert forall|q: int| 0 <= q < snew.pipes.len() implies #[trigger] snew.pipe_wf(
                        q,
                    ) by {
                        assert(sold.pipe_wf(q));
                    }
                    assert forall|k: int| 0 <= k < snew.procs.len() implies #[trigger] snew.proc_wf(
                        k,
                    ) by {
                        assert(sold.proc_wf(k));
                    }
                }
                WriteOutcome::Done(Ok(t))
            },
            None => {
                let ropen = self.fds[(rfd - FIRST_FD) as usize].open;
                if !ropen {
                    WriteOutcome::Done(Err(SysError::OtherEndClosed))
                } else {
                    let c = self.current;
                    let pc = &mut self.procs[c];
                    pc.state = ProcState::WaitForWrite { fd, data };
                    proof {
                        let snew = *final(self);
                        let sold = *old(self);
                        assert(snew.procs@ =~= sold.procs@.update(
                            sold.current as int,
                            Process {
                                state: snew.procs@[sold.current as int].state,
                                ..sold.procs@[sold.current as int]
                            },
                        ));
                        assert forall|q: int|
                            0 <= q < snew.pipes.len() implies #[trigger] snew.pipe_wf(q) by {
                            assert(sold.pipe_wf(q));
                        }
                        assert forall|k: int|
                            0 <= k < snew.procs.len() implies #[trigger] snew.proc_wf(k) by {
                            assert(sold.proc_wf(k));
                        }
                    }
                    WriteOutcome::Blocked
                }
            },
        }
    }

    /// The descriptor at the other end of the pipe that `fd` belongs to.
    pub open spec fn peer_fd(pre: Scheduler, fd: u64) -> u64 {
        let p = pre.fd_entry(fd).pipe as int;
        if pre.fd_entry(fd).write_end {
            pre.pipes@[p].read_fd
        } else {
            pre.pipes@[p].write_fd
        }
    }

    /// Close a descriptor of the calling process.
    ///
    /// Closing one end of a pipe makes every later read or write on the
    /// other end fail as closed; a process already suspended on the other
    /// end is resumed at once and receives that same error rather than
    /// hanging forever.
    #[verifier::rlimit(60)]
    pub fn close(&mut self, fd: u64) -> (r: Result<(), SysError>)
        requires
            old(self).wf(),
            old(self).has_running(),
        ensures
            final(self).wf(),
            final(self).has_running(),
            final(self).current == old(self).current,
            match r {
                Err(e) => {
                    &&& e == SysError::InvalidFd
                    &&& !old(self).fd_usable(fd, old(self).spec_current_pid())
                    &&& *final(self) == *old(self)
                },
                Ok(()) => {
                    let peer = Scheduler::peer_fd(*old(self), fd);
                    &&& old(self).fd_usable(fd, old(self).spec_current_pid())
                    // the descriptor is marked closed; the pipes keep their
                    // streams
                    &&& final(self).fds@ == old(self).fds@.update(
                        fd - FIRST_FD,
                        FdEntry { open: false, ..old(self).fd_entry(fd) },
                    )
                    &&& final(self).pipes@ == old(self).pipes@
                    // a process suspended on the other end is resumed at once
                    // and receives the closed-end error
                    &&& (forall|j: int|
                        #[trigger] old(self).reader_waiting(peer, j) ==> final(self).procs@ == old(
                            self,
                        ).procs@.update(
                            j,
                            Process {
                                state: ProcState::Runnable,
                                pending: Some(
                                    Wake::ReadEnded(Err(SysError::OtherEndClosed)),
                                ),
                                ..old(self).procs@[j]
                            },
                        ))
                    &&& (forall|j: int|
                        #[trigger] old(self).writer_waiting(peer, j) ==> final(self).procs@ == old(
                            self,
                        ).procs@.update(
                            j,
                            Process {
                                state: ProcState::Runnable,
                                pending: Some(
                                    Wake::WriteEnded(Err(SysError::OtherEndClosed)),
                                ),
                                ..old(self).procs@[j]
                            },
                        ))
                    // with nobody suspended there, the processes stay as they
                    // were
                    &&& ((forall|j: int|
                        !old(self).reader_waiting(peer, j) && !old(self).writer_waiting(
                            peer,
                            j,
                        )) ==> final(self).procs@ == old(self).procs@)
                },
            },
    {
        let pid = self.current as u64;
        if !(fd >= FIRST_FD && fd - FIRST_FD < self.fds.len() as u64) {
            return Err(SysError::InvalidFd);
        }
        let e = self.fds[(fd - FIRST_FD) as usize];
        if !e.open || e.owner != pid {
            return Err(SysError::InvalidFd);
        }
        let p = e.pipe;
        proof {
            assert(old(self).pipe_wf(p as int));
        }
        if e.write_end {
            let peer = self.pipes[p].read_fd;
            let waiter = self.find_reader(peer);
            let ef = &mut self.fds[(fd - FIRST_FD) as usize];
            ef.open = false;
            match waiter {
                Some(j) => {
                    let pj = &mut self.procs[j];
                    pj.state = ProcState::Runnable;
                    let pj2 = &mut self.procs[j];
                    pj2.pending = Some(Wake::ReadEnded(Err(SysError::OtherEndClosed)));
                    proof {
                        assert(self.procs@ =~= old(self).procs@.update(
                            j as int,
                            Process {
                                state: ProcState::Runnable,
                                pending: Some(
                                    Wake::ReadEnded(Err(SysError::OtherEndClosed)),
                                ),
                                ..old(self).procs@[j as int]
                            },
                        ));
                        assert forall|jj: int|
                            old(self).reader_waiting(peer, jj) implies jj == j as int by {
                            old(self).lemma_waiter_unique(peer, jj, j as int);
                        }
                    }
                },
                None => {},
            }
        } else {
            let peer = self.pipes[p].write_fd;
            let waiter = self.find_writer(peer);
            let ef = &mut self.fds[(fd - FIRST_FD) as usize];
            ef.open = false;
            match waiter {
                Some(j) => {
                    let pj = &mut self.procs[j];
                    pj.state = ProcState::Runnable;
                    let pj2 = &mut self.procs[j];
                    pj2.pending = Some(Wake::WriteEnded(Err(SysError::OtherEndClosed)));
                    proof {
                        assert(self.procs@ =~= old(self).procs@.update(
                            j as int,
                            Process {
                                state: ProcState::Runnable,
                                pending: Some(
                                    Wake::WriteEnded(Err(SysError::OtherEndClosed)),
                                ),
                                ..old(self).procs@[j as int]
                            },
                        ));
                        assert forall|jj: int|
                            old(self).writer_waiting(peer, jj) implies jj == j as int by {
                            old(self).lemma_waiter_unique(peer, jj, j as int);
                        }
                    }
                },
                None => {},
            }
        }
        proof {
            let snew = *final(self);
            let sold = *old(self);
            assert(snew.fds@ =~= sold.fds@.update(
                fd - FIRST_FD,
                FdEntry { open: false, ..sold.fd_entry(fd) },
            ));
            let peer = if sold.fd_entry(fd).write_end {
                sold.pipes@[p as int].read_fd
            } else {
                sold.pipes@[p as int].write_fd
            };
            if sold.fd_entry(fd).write_end {
                assert forall|j: int| !sold.writer_waiting(peer, j) by {
                    if sold.writer_waiting(peer, j) {
                        assert(sold.proc_wf(j));
                    }
                }
            } else {
                assert forall|j: int| !sold.reader_waiting(peer, j) by {
                    if sold.reader_waiting(peer, j) {
                        assert(sold.proc_wf(j));
                    }
                }
            }
            assert forall|q: int| 0 <= q < snew.pipes.len() implies #[trigger] snew.pipe_wf(q) by {
                assert(sold.pipe_wf(q));
            }
            assert forall|k: int| 0 <= k < snew.procs.len() implies #[trigger] snew.proc_wf(k) by {
                assert(sold.proc_wf(k));
                if snew.procs@[k].state == sold.procs@[k].state {
                    match sold.procs@[k].state {
                        ProcState::WaitForRead { fd: kfd, cap } => {
                            assert(kfd != fd);
                        },
                        ProcState::WaitForWrite { fd: kfd, data } => {
                            assert(kfd != fd);
                        },
                        _ => {},
                    }
                }
            }
            let peer2 = Scheduler::peer_fd(sold, fd);
            assert(snew.fds@ == sold.fds@.update(
                fd - FIRST_FD,
                FdEntry { open: false, ..sold.fd_entry(fd) },
            ));
            assert(snew.pipes@ == sold.pipes@);
            assert(snew.current == sold.current);
            assert forall|j: int|
                #[trigger] sold.reader_waiting(peer2, j) implies snew.procs@ == sold.procs@.update(
                j,
                Process {
                    state: ProcState::Runnable,
                    pending: Some(Wake::ReadEnded(Err(SysError::OtherEndClosed))),
                    ..sold.procs@[j]
                },
            ) by {
                assert(sold.proc_wf(j));
            }
            assert forall|j: int|
                #[trigger] sold.writer_waiting(peer2, j) implies snew.procs@ == sold.procs@.update(
                j,
                Process {
                    state: ProcState::Runnable,
                    pending: Some(Wake::WriteEnded(Err(SysError::OtherEndClosed))),
                    ..sold.procs@[j]
                },
            ) by {
                assert(sold.proc_wf(j));
            }
            assert((forall|j: int|
                !sold.reader_waiting(peer2, j) && !sold.writer_waiting(peer2, j)) ==> snew.procs@
                == sold.procs@);
        }
        Ok(())
    }

    /// Wait for the process `pid` to terminate. A pid never handed out is a
    /// wait failure; a terminated target answers with its exit code at once;
    /// a live target suspends the caller until the target exits.
    pub fn wait(&mut self, pid: u64) -> (r: WaitOutcome)
        requires
            old(self).wf(),
            old(self).has_running(),
        ensures
            final(self).wf(),
            match r {
                WaitOutcome::Done(res) => match res {
                    Ok(code) => {
                        &&& pid < old(self).procs@.len()
                        &&& old(self).procs@[pid as int].state is Terminated
                        &&& code == old(self).procs@[pid as int].exit_code
                        &&& *final(self) == *old(self)
                        &&& final(self).has_running()
                    },
                    Err(e) => {
                        &&& e == SysError::WaitFailure
                        &&& pid >= old(self).procs@.len()
                        &&& *final(self) == *old(self)
                        &&& final(self).has_running()
                    },
                },
                WaitOutcome::Blocked => {
                    &&& pid < old(self).procs@.len()
                    &&& !(old(self).procs@[pid as int].state is Terminated)
                    &&& Scheduler::suspended_post(
                        *old(self),
                        *final(self),
                        ProcState::WaitForExit { pid },
                    )
                },
            },
    {
        if !(pid < self.procs.len() as u64) {
            return WaitOutcome::Done(Err(SysError::WaitFailure));
        }
        let terminated = matches!(self.procs[pid as usize].state, ProcState::Terminated);
        if terminated {
            return WaitOutcome::Done(Ok(self.procs[pid as usize].exit_code));
        }
        let c = self.current;
        let pc = &mut self.procs[c];
        pc.state = ProcState::WaitForExit { pid };
        proof {
            let snew = *final(self);
            let sold = *old(self);
            assert(snew.procs@ =~= sold.procs@.update(
                sold.current as int,
                Process {
                    state: ProcState::WaitForExit { pid },
                    ..sold.procs@[sold.current as int]
                },
            ));
            assert forall|q: int| 0 <= q < snew.pipes.len() implies #[trigger] snew.pipe_wf(q) by {
                assert(sold.pipe_wf(q));
            }
            assert forall|k: int| 0 <= k < snew.procs.len() implies #[trigger] snew.proc_wf(k) by {
                assert(sold.proc_wf(k));
            }
        }
        WaitOutcome::Blocked
    }

    /// Take the result that ended this process's last suspension, if any.
    pub fn take_wake(&mut self) -> (r: Option<Wake>)
        requires
            old(self).wf(),
            old(self).has_running(),
        ensures
            final(self).wf(),
            final(self).has_running(),
            r == old(self).procs@[old(self).current as int].pending,
            final(self).procs@ == old(self).procs@.update(
                old(self).current as int,
                Process { pending: None, ..old(self).procs@[old(self).current as int] },
            ),
            final(self).fds@ == old(self).fds@,
            final(self).pipes@ == old(self).pipes@,
            final(self).current == old(self).current,
    {
        let c = self.current;
        let pc = &mut self.procs[c];
        let r = pc.pending.take();
        proof {
            let snew = *final(self);
            let sold = *old(self);
            assert(snew.procs@ =~= sold.procs@.update(
                sold.current as int,
                Process { pending: None, ..sold.procs@[sold.current as int] },
            ));
            assert forall|q: int| 0 <= q < snew.pipes.len() implies #[trigger] snew.pipe_wf(q) by {
                assert(sold.pipe_wf(q));
            }
            assert forall|k: int| 0 <= k < snew.procs.len() implies #[trigger] snew.proc_wf(k) by {
                assert(sold.proc_wf(k));
            }
        }
        r
    }
}


impl Scheduler {
    /// Every descriptor in the list is usable by the calling process.
    pub open spec fn fds_usable(self, list: Seq<u64>) -> bool {
        forall|k: int|
            0 <= k < list.len() ==> self.fd_usable(#[trigger] list[k], self.spec_current_pid())
    }

    /// Create a child process in the runnable state; the caller is not
    /// suspended. The listed descriptors are handed over to the child. The
    /// VM ceiling and a bad descriptor are normal errors: the caller keeps
    /// running and may retry or recover.
    pub fn spawn(&mut self, inherited: Vec<u64>) -> (r: Result<u64, SysError>)
        requires
            old(self).wf(),
            old(self).has_running(),
        ensures
            final(self).wf(),
            final(self).has_running(),
            final(self).current == old(self).current,
            final(self).pipes@ == old(self).pipes@,
            match r {
                Err(e) => {
                    &&& *final(self) == *old(self)
                    &&& if old(self).procs@.len() >= MAX_VMS {
                        e == SysError::MaxVmsSpawned
                    } else {
                        e == SysError::InvalidFd && !old(self).fds_usable(inherited@)
                    }
                },
                Ok(pid) => {
                    &&& old(self).procs@.len() < MAX_VMS
                    &&& old(self).fds_usable(inherited@)
                    &&& pid == old(self).procs@.len()
                    &&& final(self).procs@.len() == old(self).procs@.len() + 1
                    &&& (forall|k: int|
                        0 <= k < old(self).procs@.len() ==> final(self).procs@[k] == old(
                            self,
                        ).procs@[k])
                    &&& final(self).procs@.last().id == pid
                    &&& final(self).procs@.last().state is Runnable
                    &&& final(self).procs@.last().inherited_fds@ == inherited@
                    &&& final(self).procs@.last().pending is None
                    // ownership of exactly the listed descriptors moves to
                    // the child
                    &&& (forall|f: int|
                        0 <= f < old(self).fds@.len() ==> (#[trigger] final(self).fds@[f]) == (
                        if inherited@.contains((f + FIRST_FD) as u64) {
                            FdEntry { owner: pid, ..old(self).fds@[f] }
                        } else {
                            old(self).fds@[f]
                        }))
                },
            },
    {
        if self.procs.len() >= MAX_VMS {
            return Err(SysError::MaxVmsSpawned);
        }
        let pid = self.current as u64;
        let mut i: usize = 0;
        while i < inherited.len()
            invariant
                self == old(self),
                old(self).wf(),
                old(self).has_running(),
                old(self).procs@.len() < MAX_VMS,
                i <= inherited@.len(),
                pid == self.spec_current_pid(),
                forall|k: int| 0 <= k < i ==> self.fd_usable(#[trigger] inherited@[k], pid),
            decreases inherited@.len() - i,
        {
            let fd = inherited[i];
            if !(fd >= FIRST_FD && fd - FIRST_FD < self.fds.len() as u64) {
                proof {
                    assert(!old(self).fd_usable(inherited@[i as int], pid));
                }
                return Err(SysError::InvalidFd);
            }
            let e = self.fds[(fd - FIRST_FD) as usize];
            if !e.open || e.owner != pid {
                proof {
                    assert(!old(self).fd_usable(inherited@[i as int], pid));
                }
                return Err(SysError::InvalidFd);
            }
            i = i + 1;
        }
        let child = self.procs.len() as u64;
        let mut i: usize = 0;
        while i < inherited.len()
            invariant
                old(self).wf(),
                old(self).has_running(),
                i <= inherited@.len(),
                child == old(self).procs@.len(),
                pid == old(self).spec_current_pid(),
                old(self).fds_usable(inherited@),
                self.procs@ == old(self).procs@,
                self.pipes@ == old(self).pipes@,
                self.current == old(self).current,
                self.fds@.len() == old(self).fds@.len(),
                forall|f: int|
                    0 <= f < old(self).fds@.len() ==> (#[trigger] self.fds@[f]) == (
                    if exists|k: int|
                        0 <= k < i && inherited@[k] == f + FIRST_FD {
                        FdEntry { owner: child, ..old(self).fds@[f] }
                    } else {
                        old(self).fds@[f]
                    }),
            decreases inherited@.len() - i,
        {
            let fd = inherited[i];
            proof {
                assert(old(self).fd_usable(inherited@[i as int], pid));
            }
            let ef = &mut self.fds[(fd - FIRST_FD) as usize];
            ef.owner = child;
            proof {
                assert forall|f: int|
                    0 <= f < old(self).fds@.len() implies (#[trigger] self.fds@[f]) == (
                    if exists|k: int|
                        0 <= k < i + 1 && inherited@[k] == f + FIRST_FD {
                        FdEntry { owner: child, ..old(self).fds@[f] }
                    } else {
                        old(self).fds@[f]
                    }) by {
                    if f == fd - FIRST_FD {
                        assert(inherited@[i as int] == f + FIRST_FD);
                    } else {
                        if exists|k: int| 0 <= k < i + 1 && inherited@[k] == f + FIRST_FD {
                            let k = choose|k: int|
                                0 <= k < i + 1 && inherited@[k] == f + FIRST_FD;
                            assert(k < i);
                        }
                    }
                }
            }
            i = i + 1;
        }
        self.procs.push(
            Process {
                id: child,
                state: ProcState::Runnable,
                exit_code: 0,
                inherited_fds: inherited,
                pending: None,
            },
        );
        proof {
            let snew = *final(self);
            let sold = *old(self);
            assert forall|f: int|
                0 <= f < sold.fds@.len() implies (#[trigger] snew.fds@[f]) == (
                if inherited@.contains((f + FIRST_FD) as u64) {
                    FdEntry { owner: child, ..sold.fds@[f] }
                } else {
                    sold.fds@[f]
                }) by {
                if inherited@.contains((f + FIRST_FD) as u64) {
                    let k = choose|k: int|
                        0 <= k < inherited@.len() && inherited@[k] == (f + FIRST_FD) as u64;
                    assert(exists|k: int|
                        0 <= k < inherited@.len() && inherited@[k] == f + FIRST_FD);
                }
            }
            assert forall|q: int| 0 <= q < snew.pipes.len() implies #[trigger] snew.pipe_wf(q) by {
                assert(sold.pipe_wf(q));
            }
            assert forall|k: int| 0 <= k < snew.procs.len() implies #[trigger] snew.proc_wf(k) by {
                if k < sold.procs.len() {
                    assert(sold.proc_wf(k));
                    match sold.procs@[k].state {
                        ProcState::WaitForRead { fd, cap } => {
                            assert(sold.fd_entry(fd).owner == k as u64);
                            assert(!inherited@.contains(fd));
                        },
                        ProcState::WaitForWrite { fd, data } => {
                            assert(sold.fd_entry(fd).owner == k as u64);
                            assert(!inherited@.contains(fd));
                        },
                        _ => {},
                    }
                }
            }
        }
        Ok(child)
    }
}


impl Scheduler {
    /// Process `j` is suspended until the process `pid` exits.
    pub open spec fn waiting_exit_on(self, j: int, pid: u64) -> bool {
        self.procs[j].state matches ProcState::WaitForExit { pid: w } && w == pid
    }

    /// Process `j` is suspended on a pipe whose other end belongs to the
    /// process `pid`.
    pub open spec fn blocked_on_peer_of(self, j: int, pid: u64) -> bool {
        match self.procs[j].state {
            ProcState::WaitForRead { fd, cap } => self.fd_entry(
                Scheduler::peer_fd(self, fd),
            ).owner == pid,
            ProcState::WaitForWrite { fd, data } => self.fd_entry(
                Scheduler::peer_fd(self, fd),
            ).owner == pid,
            _ => false,
        }
    }

    /// Terminate the calling process with the given exit code.
    ///
    /// The exit code is recorded; every process waiting for this exit is
    /// resumed with it; every descriptor of the dead process is closed; and
    /// every process suspended on a pipe whose other end belonged to the dead
    /// process is resumed with the closed-end error. The processor is then
    /// free for the next runnable process.
    pub fn exit(&mut self, code: i8)
        requires
            old(self).wf(),
            old(self).has_running(),
        ensures
            final(self).wf(),
            !final(self).has_running(),
            final(self).current == old(self).current,
            final(self).pipes@ == old(self).pipes@,
            final(self).procs@.len() == old(self).procs@.len(),
            final(self).fds@.len() == old(self).fds@.len(),
            // the caller is terminated and its code recorded
            final(self).procs@[old(self).current as int].state is Terminated,
            final(self).procs@[old(self).current as int].exit_code == code,
            // the dead process's descriptors are closed, others are untouched
            forall|f: int|
                0 <= f < old(self).fds@.len() ==> (#[trigger] final(self).fds@[f]) == (
                if old(self).fds@[f].owner == old(self).spec_current_pid() {
                    FdEntry { open: false, ..old(self).fds@[f] }
                } else {
                    old(self).fds@[f]
                }),
            // every process waiting for this exit is resumed with the code
            forall|j: int|
                0 <= j < old(self).procs@.len() && #[trigger] old(self).waiting_exit_on(
                    j,
                    old(self).spec_current_pid(),
                ) ==> final(self).procs@[j] == (Process {
                    state: ProcState::Runnable,
                    pending: Some(Wake::WaitEnded(Ok(code))),
                    ..old(self).procs@[j]
                }),
            // every process suspended on a pipe whose other end belonged to
            // the dead process is resumed with the closed-end error
            forall|j: int|
                0 <= j < old(self).procs@.len() && #[trigger] old(self).blocked_on_peer_of(
                    j,
                    old(self).spec_current_pid(),
                ) ==> (final(self).procs@[j] == (Process {
                    state: ProcState::Runnable,
                    pending: Some(Wake::ReadEnded(Err::<Vec<u8>, SysError>(SysError::OtherEndClosed))),
                    ..old(self).procs@[j]
                }) || final(self).procs@[j] == (Process {
                    state: ProcState::Runnable,
                    pending: Some(
                        Wake::WriteEnded(Err::<usize, SysError>(SysError::OtherEndClosed)),
                    ),
                    ..old(self).procs@[j]
                })),
            // every other process is untouched
            forall|j: int|
                0 <= j < old(self).procs@.len() && j != old(self).current && !old(
                    self,
                ).waiting_exit_on(j, old(self).spec_current_pid()) && !old(self).blocked_on_peer_of(
                    j,
                    old(self).spec_current_pid(),
                ) ==> (#[trigger] final(self).procs@[j]) == old(self).procs@[j],
    {
        let pid = self.current as u64;
        // close every descriptor of the dying process
        let mut f: usize = 0;
        while f < self.fds.len()
            invariant
                old(self).wf(),
                old(self).has_running(),
                pid == old(self).spec_current_pid(),
                f <= self.fds@.len(),
                self.procs@ == old(self).procs@,
                self.pipes@ == old(self).pipes@,
                self.current == old(self).current,
                self.fds@.len() == old(self).fds@.len(),
                forall|g: int|
                    0 <= g < old(self).fds@.len() ==> (#[trigger] self.fds@[g]) == (
                    if g < f && old(self).fds@[g].owner == pid {
                        FdEntry { open: false, ..old(self).fds@[g] }
                    } else {
                        old(self).fds@[g]
                    }),
            decreases self.fds@.len() - f,
        {
            if self.fds[f].owner == pid {
                let ef = &mut self.fds[f];
                ef.open = false;
            }
            f = f + 1;
        }
        // resume exit waiters and orphaned pipe peers
        let mut j: usize = 0;
        while j < self.procs.len()
            invariant
                old(self).wf(),
                old(self).has_running(),
                pid == old(self).spec_current_pid(),
                j <= self.procs@.len(),
                self.pipes@ == old(self).pipes@,
                self.current == old(self).current,
                self.procs@.len() == old(self).procs@.len(),
                self.fds@.len() == old(self).fds@.len(),
                forall|g: int|
                    0 <= g < old(self).fds@.len() ==> (#[trigger] self.fds@[g]) == (
                    if old(self).fds@[g].owner == pid {
                        FdEntry { open: false, ..old(self).fds@[g] }
                    } else {
                        old(self).fds@[g]
                    }),
                forall|k: int|
                    0 <= k < old(self).procs@.len() && k < j && #[trigger] old(
                        self,
                    ).waiting_exit_on(k, pid) ==> self.procs@[k] == (Process {
                        state: ProcState::Runnable,
                        pending: Some(Wake::WaitEnded(Ok(code))),
                        ..old(self).procs@[k]
                    }),
                forall|k: int|
                    0 <= k < old(self).procs@.len() && k < j && #[trigger] old(
                        self,
                    ).blocked_on_peer_of(k, pid) ==> (self.procs@[k] == (Process {
                        state: ProcState::Runnable,
                        pending: Some(
                            Wake::ReadEnded(Err::<Vec<u8>, SysError>(SysError::OtherEndClosed)),
                        ),
                        ..old(self).procs@[k]
                    }) || self.procs@[k] == (Process {
                        state: ProcState::Runnable,
                        pending: Some(
                            Wake::WriteEnded(Err::<usize, SysError>(SysError::OtherEndClosed)),
                        ),
                        ..old(self).procs@[k]
                    })),
                forall|k: int|
                    0 <= k < old(self).procs@.len() && (k >= j || (!old(self).waiting_exit_on(
                        k,
                        pid,
                    ) && !old(self).blocked_on_peer_of(k, pid))) ==> (#[trigger] self.procs@[k])
                        == old(self).procs@[k],
            decreases self.procs@.len() - j,
        {
            proof {
                assert(self.procs@[j as int] == old(self).procs@[j as int]);
                assert(old(self).proc_wf(j as int));
            }
            let action: u8 = match &self.procs[j].state {
                ProcState::WaitForExit { pid: w } => {
                    if *w == pid {
                        1
                    } else {
                        0
                    }
                },
                ProcState::WaitForRead { fd, cap } => {
                    let e = self.fds[(*fd - FIRST_FD) as usize];
                    proof {
                        assert(old(self).fds@[*fd - FIRST_FD].pipe < old(self).pipes@.len());
                        assert(old(self).pipe_wf(e.pipe as int));
                    }
                    let other = self.pipes[e.pipe].write_fd;
                    if self.fds[(other - FIRST_FD) as usize].owner == pid {
                        2
                    } else {
                        0
                    }
                },
                ProcState::WaitForWrite { fd, data } => {
                    let e = self.fds[(*fd - FIRST_FD) as usize];
                    proof {
                        assert(old(self).fds@[*fd - FIRST_FD].pipe < old(self).pipes@.len());
                        assert(old(self).pipe_wf(e.pipe as int));
                    }
                    let other = self.pipes[e.pipe].read_fd;
                    if self.fds[(other - FIRST_FD) as usize].owner == pid {
                        3
                    } else {
                        0
                    }
                },
                _ => 0,
            };
            if action == 1 {
                let pj = &mut self.procs[j];
                pj.state = ProcState::Runnable;
                let pj2 = &mut self.procs[j];
                pj2.pending = Some(Wake::WaitEnded(Ok(code)));
            } else if action == 2 {
                let pj = &mut self.procs[j];
                pj.state = ProcState::Runnable;
                let pj2 = &mut self.procs[j];
                pj2.pending = Some(Wake::ReadEnded(Err(SysError::OtherEndClosed)));
            } else if action == 3 {
                let pj = &mut self.procs[j];
                pj.state = ProcState::Runnable;
                let pj2 = &mut self.procs[j];
                pj2.pending = Some(Wake::WriteEnded(Err(SysError::OtherEndClosed)));
            }
            j = j + 1;
        }
        // record the termination
        let c = self.current;
        let pc = &mut self.procs[c];
        pc.state = ProcState::Terminated;
        let pc2 = &mut self.procs[c];
        pc2.exit_code = code;
        proof {
            let snew = *final(self);
            let sold = *old(self);
            assert forall|q: int| 0 <= q < snew.pipes.len() implies #[trigger] snew.pipe_wf(q) by {
                assert(sold.pipe_wf(q));
            }
            assert forall|k: int| 0 <= k < snew.procs.len() implies #[trigger] snew.proc_wf(k) by {
                assert(sold.proc_wf(k));
                if snew.procs@[k].state == sold.procs@[k].state {
                    match sold.procs@[k].state {
                        ProcState::WaitForRead { fd, cap } => {
                            assert(!sold.blocked_on_peer_of(k, pid));
                            assert(sold.fd_entry(fd).owner == k as u64);
                            assert(k != sold.current as int);
                        },
                        ProcState::WaitForWrite { fd, data } => {
                            assert(!sold.blocked_on_peer_of(k, pid));
                            assert(sold.fd_entry(fd).owner == k as u64);
                            assert(k != sold.current as int);
                        },
                        _ => {},
                    }
                }
            }
        }
    }
}


/// Law: pipes are first-in-first-out byte streams. In every reachable
/// machine, the concatenation of all bytes readers have taken out of a pipe
/// equals the concatenation of all bytes writers have put into it, in write
/// order — however the writes and reads were chunked. Each transfer appends
/// one chunk to both streams at once (see the contracts of `read`, `write`
/// and the transfer predicates), so the two streams never diverge.
pub proof fn lemma_pipe_fifo(s: Scheduler, p: int)
    requires
        s.wf(),
        0 <= p < s.pipes@.len(),
    ensures
        s.pipes@[p].delivered@ == s.pipes@[p].written@,
{
    assert(s.pipe_wf(p));
}

} // verus!
