//! The syscall marshaling layer.
//!
//! A backend (the real host trap, an in-memory model, a fuzzing stub) is
//! plugged in through the [`SyscallImpls`] trait. The functions of this
//! module decode each raw answer — one integer return code plus, for loads,
//! an actual-length side channel — into a typed result, exactly as the host
//! wire contract prescribes.
//!
//! Load syscalls follow the partial-read convention: the host writes at most
//! `buf.len()` bytes and reports the number of bytes available from the given
//! offset. An answer larger than the buffer is a truncation signal
//! ([`SysError::LengthNotEnough`]), not a failure. The `read`/`write` pipe
//! syscalls follow a different convention: a short count is a normal result.

use vstd::prelude::*;

use crate::ckb_constants::{CellField, HeaderField, InputField, Source};
use crate::error::{spec_syscall_result, SysError};

verus! {

/// One load request: which datum of the transaction context to read.
#[derive(Eq, PartialEq, Structural, Debug, Clone, Copy)]
pub enum LoadKind {
    TxHash,
    ScriptHash,
    Script,
    Transaction,
    Cell { index: usize, source: Source },
    Input { index: usize, source: Source },
    Header { index: usize, source: Source },
    Witness { index: usize, source: Source },
    CellData { index: usize, source: Source },
    BlockExtension { index: usize, source: Source },
    CellByField { index: usize, source: Source, field: CellField },
    HeaderByField { index: usize, source: Source, field: HeaderField },
    InputByField { index: usize, source: Source, field: InputField },
}

/// How many bytes a load from `offset` can still deliver: the host clamps the
/// offset to the data length, so an offset past the end yields zero bytes.
pub open spec fn load_avail(data: Seq<u8>, offset: nat) -> nat {
    if offset <= data.len() {
        (data.len() - offset) as nat
    } else {
        0
    }
}

/// The buffer contents after a load: the host copies
/// `min(buf.len(), avail)` bytes starting at the clamped offset and leaves
/// the rest of the buffer untouched.
pub open spec fn load_written(data: Seq<u8>, old_buf: Seq<u8>, offset: nat) -> Seq<u8> {
    let off = if offset <= data.len() {
        offset
    } else {
        data.len()
    };
    let avail = (data.len() - off) as nat;
    let n = if old_buf.len() <= avail {
        old_buf.len()
    } else {
        avail
    };
    data.subrange(off as int, (off + n) as int) + old_buf.skip(n as int)
}

/// What a typed load returns, as a function of the host-side data (or raw
/// error code), the buffer and the offset.
pub open spec fn load_result_post(
    src: Result<Seq<u8>, u64>,
    old_buf: Seq<u8>,
    new_buf: Seq<u8>,
    offset: nat,
    r: Result<usize, SysError>,
) -> bool {
    match src {
        Ok(data) => {
            &&& new_buf == load_written(data, old_buf, offset)
            &&& r == spec_syscall_result(0, old_buf.len(), load_avail(data, offset))
        },
        Err(code) => {
            &&& new_buf == old_buf
            &&& r == spec_syscall_result(code, old_buf.len(), old_buf.len())
        },
    }
}

/// The capability interface a syscall backend must satisfy.
///
/// Loads are read-only queries of a fixed transaction context, so they take
/// `&self` and two loads of the same kind see the same data. The
/// inter-process calls may change host state and take `&mut self`; their
/// contracts state only what holds of every outcome, since what they return
/// depends on the other processes.
pub trait SyscallImpls: Sized {
    /// The data the host exposes for a load request, or the raw nonzero error
    /// code it answers with. A backend outside the verifier's sight may leave
    /// the default in place; nothing is proved about such a backend's answers
    /// anyway.
    open spec fn source_data(&self, kind: LoadKind) -> Result<Seq<u8>, u64> {
        Err(1u64)
    }

    /// How many cells the backend holds for a source.
    open spec fn cell_count(&self, source: Source) -> nat {
        0
    }

    /// The id of the calling process.
    open spec fn spec_process_id(&self) -> u64 {
        0
    }

    /// A backend never answers a load with the raw code 0 as an error, and
    /// the data it holds fits in memory.
    proof fn source_data_err_nonzero(&self, kind: LoadKind)
        ensures
            self.source_data(kind) matches Err(code) ==> code != 0,
            self.source_data(kind) matches Ok(data) ==> data.len() <= usize::MAX,
    ;

    /// A backend holds a definite number of cells for each source; a cell
    /// index at or past that count, and only such an index, answers with the
    /// out-of-bound code 1.
    proof fn cell_scan_laws_hold(&self)
        ensures
            forall|source: Source| #[trigger] self.cell_count(source) <= usize::MAX,
            forall|index: usize, source: Source, field: CellField|
                index >= self.cell_count(source) ==> #[trigger] self.source_data(
                    LoadKind::CellByField { index, source, field },
                ) == Err::<Seq<u8>, u64>(1u64),
            forall|index: usize, source: Source, field: CellField|
                index < self.cell_count(source) ==> #[trigger] self.source_data(
                    LoadKind::CellByField { index, source, field },
                ) != Err::<Seq<u8>, u64>(1u64),
    ;

    /// Raw load: returns `(code, actual_len)` and fills the buffer.
    fn load(&self, buf: &mut Vec<u8>, offset: usize, kind: LoadKind) -> (r: (u64, usize))
        ensures
            final(buf)@.len() == old(buf)@.len(),
            match self.source_data(kind) {
                Ok(data) => {
                    &&& r.0 == 0
                    &&& r.1 == load_avail(data, offset as nat)
                    &&& final(buf)@ == load_written(data, old(buf)@, offset as nat)
                },
                Err(code) => {
                    &&& r.0 == code
                    &&& final(buf)@ == old(buf)@
                },
            },
    ;

    /// Raw load of cell data as code. The `(code, written)` answer reports
    /// success and how many bytes the backend placed in the buffer.
    fn load_cell_code(
        &self,
        buf: &mut Vec<u8>,
        content_offset: usize,
        content_size: usize,
        index: usize,
        source: Source,
    ) -> (r: u64)
        ensures
            final(buf)@.len() == old(buf)@.len(),
    ;

    /// Raw pipe read: `(code, n)`. On success the backend wrote `n` bytes at
    /// the front of the buffer.
    fn read(&mut self, fd: u64, buf: &mut Vec<u8>) -> (r: (u64, usize))
        ensures
            final(buf)@.len() == old(buf)@.len(),
            r.0 == 0 ==> r.1 <= final(buf)@.len() && final(buf)@.skip(r.1 as int) == old(buf)@.skip(r.1 as int),
            r.0 != 0 ==> final(buf)@ == old(buf)@,
    ;

    /// Raw pipe write: `(code, n)`. On success the backend consumed the first
    /// `n` bytes.
    fn write(&mut self, fd: u64, buf: &Vec<u8>) -> (r: (u64, usize))
        ensures
            r.0 == 0 ==> r.1 <= buf@.len(),
    ;

    /// Raw wait: `(code, exit_code)`.
    fn wait(&mut self, pid: u64) -> (r: (u64, i8));

    /// Raw pipe creation: `(code, read_fd, write_fd)`.
    fn pipe(&mut self) -> (r: (u64, u64, u64));

    /// Raw close.
    fn close(&mut self, fd: u64) -> (r: u64);

    /// Raw spawn: `(code, process_id)`.
    fn spawn(
        &mut self,
        index: usize,
        source: Source,
        place: usize,
        bounds: usize,
        argv: &Vec<Vec<u8>>,
        inherited_fds: &Vec<u64>,
    ) -> (r: (u64, u64));

    /// Raw query of the file descriptors inherited from the parent:
    /// `(code, available)`. On success the backend filled
    /// `min(available, fds.len())` slots.
    fn inherited_fds(&mut self, fds: &mut Vec<u64>) -> (r: (u64, usize))
        ensures
            final(fds)@.len() == old(fds)@.len(),
            r.0 == 0 && r.1 <= final(fds)@.len() ==> final(fds)@.skip(r.1 as int) == old(fds)@.skip(r.1 as int),
            r.0 != 0 ==> final(fds)@ == old(fds)@,
    ;

    /// The id of the calling process; the root process has id 0.
    fn process_id(&self) -> (r: u64)
        ensures
            r == self.spec_process_id(),
    ;

    /// Cycles consumed just before this call.
    fn current_cycles(&self) -> u64;

    /// The raw VM version number.
    fn vm_version(&self) -> u64;

    /// Raw exec: replaces the program. It returns only on failure, with the
    /// raw error code.
    fn exec(
        &mut self,
        index: usize,
        source: Source,
        place: usize,
        bounds: usize,
        argv: &Vec<Vec<u8>>,
    ) -> (r: u64);

    /// Send a debug message; the bytes must not contain an interior zero.
    fn debug(&self, msg: &Vec<u8>);

    /// Ask the host to terminate this process with the given exit code.
    fn exit(&mut self, code: i8);
}

/// Issue one load request of any kind and decode the answer.
pub fn load<S: SyscallImpls>(h: &S, buf: &mut Vec<u8>, offset: usize, kind: LoadKind) -> (r:
    Result<usize, SysError>)
    ensures
        final(buf)@.len() == old(buf)@.len(),
        load_result_post(h.source_data(kind), old(buf)@, final(buf)@, offset as nat, r),
{
    proof {
        h.source_data_err_nonzero(kind);
    }
    let (code, actual) = h.load(buf, offset, kind);
    SysError::build_syscall_result(code, buf.len(), actual)
}

/// Load the transaction hash.
pub fn load_tx_hash<S: SyscallImpls>(h: &S, buf: &mut Vec<u8>, offset: usize) -> (r: Result<
    usize,
    SysError,
>)
    ensures
        final(buf)@.len() == old(buf)@.len(),
        load_result_post(h.source_data(LoadKind::TxHash), old(buf)@, final(buf)@, offset as nat, r),
{
    load(h, buf, offset, LoadKind::TxHash)
}

/// Load the hash of the currently running script.
pub fn load_script_hash<S: SyscallImpls>(h: &S, buf: &mut Vec<u8>, offset: usize) -> (r: Result<
    usize,
    SysError,
>)
    ensures
        final(buf)@.len() == old(buf)@.len(),
        load_result_post(h.source_data(LoadKind::ScriptHash), old(buf)@, final(buf)@, offset as nat, r),
{
    load(h, buf, offset, LoadKind::ScriptHash)
}

/// Load a cell.
pub fn load_cell<S: SyscallImpls>(
    h: &S,
    buf: &mut Vec<u8>,
    offset: usize,
    index: usize,
    source: Source,
) -> (r: Result<usize, SysError>)
    ensures
        final(buf)@.len() == old(buf)@.len(),
        load_result_post(
            h.source_data(LoadKind::Cell { index, source }),
            old(buf)@,
            final(buf)@,
            offset as nat,
            r,
        ),
{
    load(h, buf, offset, LoadKind::Cell { index, source })
}

/// Load an input.
pub fn load_input<S: SyscallImpls>(
    h: &S,
    buf: &mut Vec<u8>,
    offset: usize,
    index: usize,
    source: Source,
) -> (r: Result<usize, SysError>)
    ensures
        final(buf)@.len() == old(buf)@.len(),
        load_result_post(
            h.source_data(LoadKind::Input { index, source }),
            old(buf)@,
            final(buf)@,
            offset as nat,
            r,
        ),
{
    load(h, buf, offset, LoadKind::Input { index, source })
}

/// Load a header.
pub fn load_header<S: SyscallImpls>(
    h: &S,
    buf: &mut Vec<u8>,
    offset: usize,
    index: usize,
    source: Source,
) -> (r: Result<usize, SysError>)
    ensures
        final(buf)@.len() == old(buf)@.len(),
        load_result_post(
            h.source_data(LoadKind::Header { index, source }),
            old(buf)@,
            final(buf)@,
            offset as nat,
            r,
        ),
{
    load(h, buf, offset, LoadKind::Header { index, source })
}

/// Load a witness.
pub fn load_witness<S: SyscallImpls>(
    h: &S,
    buf: &mut Vec<u8>,
    offset: usize,
    index: usize,
    source: Source,
) -> (r: Result<usize, SysError>)
    ensures
        final(buf)@.len() == old(buf)@.len(),
        load_result_post(
            h.source_data(LoadKind::Witness { index, source }),
            old(buf)@,
            final(buf)@,
            offset as nat,
            r,
        ),
{
    load(h, buf, offset, LoadKind::Witness { index, source })
}

/// Load the whole transaction.
pub fn load_transaction<S: SyscallImpls>(h: &S, buf: &mut Vec<u8>, offset: usize) -> (r: Result<
    usize,
    SysError,
>)
    ensures
        final(buf)@.len() == old(buf)@.len(),
        load_result_post(h.source_data(LoadKind::Transaction), old(buf)@, final(buf)@, offset as nat, r),
{
    load(h, buf, offset, LoadKind::Transaction)
}

/// Load one field of a cell.
pub fn load_cell_by_field<S: SyscallImpls>(
    h: &S,
    buf: &mut Vec<u8>,
    offset: usize,
    index: usize,
    source: Source,
    field: CellField,
) -> (r: Result<usize, SysError>)
    ensures
        final(buf)@.len() == old(buf)@.len(),
        load_result_post(
            h.source_data(LoadKind::CellByField { index, source, field }),
            old(buf)@,
            final(buf)@,
            offset as nat,
            r,
        ),
{
    load(h, buf, offset, LoadKind::CellByField { index, source, field })
}

/// Load one field of a header.
pub fn load_header_by_field<S: SyscallImpls>(
    h: &S,
    buf: &mut Vec<u8>,
    offset: usize,
    index: usize,
    source: Source,
    field: HeaderField,
) -> (r: Result<usize, SysError>)
    ensures
        final(buf)@.len() == old(buf)@.len(),
        load_result_post(
            h.source_data(LoadKind::HeaderByField { index, source, field }),
            old(buf)@,
            final(buf)@,
            offset as nat,
            r,
        ),
{
    load(h, buf, offset, LoadKind::HeaderByField { index, source, field })
}

/// Load one field of an input.
pub fn load_input_by_field<S: SyscallImpls>(
    h: &S,
    buf: &mut Vec<u8>,
    offset: usize,
    index: usize,
    source: Source,
    field: InputField,
) -> (r: Result<usize, SysError>)
    ensures
        final(buf)@.len() == old(buf)@.len(),
        load_result_post(
            h.source_data(LoadKind::InputByField { index, source, field }),
            old(buf)@,
            final(buf)@,
            offset as nat,
            r,
        ),
{
    load(h, buf, offset, LoadKind::InputByField { index, source, field })
}

/// Load the data of a cell.
pub fn load_cell_data<S: SyscallImpls>(
    h: &S,
    buf: &mut Vec<u8>,
    offset: usize,
    index: usize,
    source: Source,
) -> (r: Result<usize, SysError>)
    ensures
        final(buf)@.len() == old(buf)@.len(),
        load_result_post(
            h.source_data(LoadKind::CellData { index, source }),
            old(buf)@,
            final(buf)@,
            offset as nat,
            r,
        ),
{
    load(h, buf, offset, LoadKind::CellData { index, source })
}

/// Load the currently running script.
pub fn load_script<S: SyscallImpls>(h: &S, buf: &mut Vec<u8>, offset: usize) -> (r: Result<
    usize,
    SysError,
>)
    ensures
        final(buf)@.len() == old(buf)@.len(),
        load_result_post(h.source_data(LoadKind::Script), old(buf)@, final(buf)@, offset as nat, r),
{
    load(h, buf, offset, LoadKind::Script)
}

/// Load the block extension field of an input, dep cell or header dep.
pub fn load_block_extension<S: SyscallImpls>(
    h: &S,
    buf: &mut Vec<u8>,
    offset: usize,
    index: usize,
    source: Source,
) -> (r: Result<usize, SysError>)
    ensures
        final(buf)@.len() == old(buf)@.len(),
        load_result_post(
            h.source_data(LoadKind::BlockExtension { index, source }),
            old(buf)@,
            final(buf)@,
            offset as nat,
            r,
        ),
{
    load(h, buf, offset, LoadKind::BlockExtension { index, source })
}

/// Load cell data as executable code. On success the whole buffer counts as
/// filled, per the wire convention of this syscall.
pub fn load_cell_code<S: SyscallImpls>(
    h: &S,
    buf: &mut Vec<u8>,
    content_offset: usize,
    content_size: usize,
    index: usize,
    source: Source,
) -> (r: Result<usize, SysError>)
    ensures
        final(buf)@.len() == old(buf)@.len(),
        r matches Ok(n) ==> n == final(buf)@.len(),
{
    let code = h.load_cell_code(buf, content_offset, content_size, index, source);
    SysError::build_syscall_result(code, buf.len(), buf.len())
}

/// Read bytes from a pipe. On success the count of bytes read is returned; a
/// short read is a normal result, unlike the load truncation convention.
///
/// Exactly the codes 1, 6 and 7 decode to `IndexOutOfBound`, `InvalidFd` and
/// `OtherEndClosed`; every other nonzero code is passed through unchanged.
pub fn read<S: SyscallImpls>(h: &mut S, fd: u64, buf: &mut Vec<u8>) -> (r: Result<usize, SysError>)
    ensures
        final(buf)@.len() == old(buf)@.len(),
        r matches Ok(n) ==> n <= final(buf)@.len() && final(buf)@.skip(n as int) == old(buf)@.skip(n as int),
        r matches Err(e) ==> final(buf)@ == old(buf)@ && matches!(
            e,
            SysError::IndexOutOfBound
                | SysError::InvalidFd
                | SysError::OtherEndClosed
                | SysError::Unknown(_),
        ),
{
    let (code, n) = h.read(fd, buf);
    match code {
        0 => Ok(n),
        1 => Err(SysError::IndexOutOfBound),
        6 => Err(SysError::InvalidFd),
        7 => Err(SysError::OtherEndClosed),
        x => Err(SysError::Unknown(x)),
    }
}

/// Write bytes to a pipe. On success the count of bytes written is returned;
/// a short write is a normal result.
pub fn write<S: SyscallImpls>(h: &mut S, fd: u64, buf: &Vec<u8>) -> (r: Result<usize, SysError>)
    ensures
        r matches Ok(n) ==> n <= buf@.len(),
        r matches Err(e) ==> matches!(
            e,
            SysError::IndexOutOfBound
                | SysError::InvalidFd
                | SysError::OtherEndClosed
                | SysError::Unknown(_),
        ),
{
    let (code, n) = h.write(fd, buf);
    match code {
        0 => Ok(n),
        1 => Err(SysError::IndexOutOfBound),
        6 => Err(SysError::InvalidFd),
        7 => Err(SysError::OtherEndClosed),
        x => Err(SysError::Unknown(x)),
    }
}

/// Pause until the process `pid` has terminated; its exit code is returned.
pub fn wait<S: SyscallImpls>(h: &mut S, pid: u64) -> (r: Result<i8, SysError>)
    ensures
        r matches Err(e) ==> matches!(e, SysError::WaitFailure | SysError::Unknown(_)),
{
    let (code, exit_code) = h.wait(pid);
    match code {
        0 => Ok(exit_code),
        5 => Err(SysError::WaitFailure),
        x => Err(SysError::Unknown(x)),
    }
}

/// Create a pipe. The descriptor with read permission comes first, the one
/// with write permission second.
pub fn pipe<S: SyscallImpls>(h: &mut S) -> (r: Result<(u64, u64), SysError>)
    ensures
        r matches Err(e) ==> matches!(e, SysError::MaxFdsCreated | SysError::Unknown(_)),
{
    let (code, fd0, fd1) = h.pipe();
    match code {
        0 => Ok((fd0, fd1)),
        9 => Err(SysError::MaxFdsCreated),
        x => Err(SysError::Unknown(x)),
    }
}

/// Close a file descriptor. Afterwards any read or write on the descriptor
/// at the other end of the pipe fails.
pub fn close<S: SyscallImpls>(h: &mut S, fd: u64) -> (r: Result<(), SysError>)
    ensures
        r matches Err(e) ==> matches!(e, SysError::InvalidFd | SysError::Unknown(_)),
{
    let code = h.close(fd);
    match code {
        0 => Ok(()),
        6 => Err(SysError::InvalidFd),
        x => Err(SysError::Unknown(x)),
    }
}

/// Create a child process from the referenced code; it starts in the
/// runnable state and the caller is not blocked. On success the new process
/// id is returned.
pub fn spawn<S: SyscallImpls>(
    h: &mut S,
    index: usize,
    source: Source,
    place: usize,
    bounds: usize,
    argv: &Vec<Vec<u8>>,
    inherited_fds: &Vec<u64>,
) -> (r: Result<u64, SysError>)
    ensures
        r matches Err(e) ==> matches!(
            e,
            SysError::IndexOutOfBound
                | SysError::ItemMissing
                | SysError::Encoding
                | SysError::InvalidFd
                | SysError::MaxVmsSpawned
                | SysError::Unknown(_),
        ),
{
    let (code, pid) = h.spawn(index, source, place, bounds, argv, inherited_fds);
    match code {
        0 => Ok(pid),
        1 => Err(SysError::IndexOutOfBound),
        2 => Err(SysError::ItemMissing),
        3 => Err(SysError::Encoding),
        6 => Err(SysError::InvalidFd),
        8 => Err(SysError::MaxVmsSpawned),
        x => Err(SysError::Unknown(x)),
    }
}

/// Retrieve the file descriptors passed in from the parent process. The
/// count of available descriptors is returned, which can exceed the length
/// of the passed buffer.
pub fn inherited_fds<S: SyscallImpls>(h: &mut S, fds: &mut Vec<u64>) -> (r: u64)
    ensures
        final(fds)@.len() == old(fds)@.len(),
{
    let (_code, n) = h.inherited_fds(fds);
    n as u64
}

/// The id of the current process; the root process has id 0.
pub fn process_id<S: SyscallImpls>(h: &S) -> (r: u64)
    ensures
        r == h.spec_process_id(),
{
    h.process_id()
}

/// Cycles consumed just before this syscall.
pub fn current_cycles<S: SyscallImpls>(h: &S) -> u64 {
    h.current_cycles()
}

/// The running VM version. Exactly the raw answers 1 and 2 are valid; any
/// other answer is surfaced unchanged.
pub fn vm_version<S: SyscallImpls>(h: &S) -> (r: Result<u64, SysError>)
    ensures
        r matches Ok(v) ==> v == 1 || v == 2,
        r matches Err(e) ==> e matches SysError::Unknown(v) && v != 1 && v != 2,
{
    let version = h.vm_version();
    match version {
        1 | 2 => Ok(version),
        _ => Err(SysError::Unknown(version)),
    }
}

/// Run an executable from the referenced cell in place of the current
/// program. The call returns only on failure.
pub fn exec<S: SyscallImpls>(
    h: &mut S,
    index: usize,
    source: Source,
    place: usize,
    bounds: usize,
    argv: &Vec<Vec<u8>>,
) -> u64 {
    h.exec(index, source, place, bounds, argv)
}

/// Output a debug message. The bytes must not contain an interior zero,
/// since the wire format is a zero-terminated string.
pub fn debug<S: SyscallImpls>(h: &S, msg: &Vec<u8>) {
    h.debug(msg)
}


/// A true host error, as distinct from [`SysError`]: a partial load is not an
/// error in this vocabulary. The wire values are those of the raw codes.
#[derive(Copy, Clone, Debug, PartialEq, Eq, Structural, Hash)]
pub enum Error {
    IndexOutOfBound,
    ItemMissing,
    SliceOutOfBound,
    WrongFormat,
    WaitFailure,
    InvalidFd,
    OtherEndClosed,
    MaxVmsSpawned,
    MaxFdsCreated,
    Other(u64),
}

impl Error {
    /// The raw wire code of this error.
    pub open spec fn spec_code(self) -> u64 {
        match self {
            Error::IndexOutOfBound => 1,
            Error::ItemMissing => 2,
            Error::SliceOutOfBound => 3,
            Error::WrongFormat => 4,
            Error::WaitFailure => 5,
            Error::InvalidFd => 6,
            Error::OtherEndClosed => 7,
            Error::MaxVmsSpawned => 8,
            Error::MaxFdsCreated => 9,
            Error::Other(e) => e,
        }
    }

    /// The raw wire code of this error.
    #[verifier::when_used_as_spec(spec_code)]
    pub fn code(self) -> (r: u64)
        ensures
            r == self.spec_code(),
    {
        match self {
            Error::IndexOutOfBound => 1,
            Error::ItemMissing => 2,
            Error::SliceOutOfBound => 3,
            Error::WrongFormat => 4,
            Error::WaitFailure => 5,
            Error::InvalidFd => 6,
            Error::OtherEndClosed => 7,
            Error::MaxVmsSpawned => 8,
            Error::MaxFdsCreated => 9,
            Error::Other(e) => e,
        }
    }
}

/// The typed meaning of a nonzero raw code in this vocabulary.
pub open spec fn spec_error_from_code(v: u64) -> Error {
    if v == 1 {
        Error::IndexOutOfBound
    } else if v == 2 {
        Error::ItemMissing
    } else if v == 3 {
        Error::SliceOutOfBound
    } else if v == 4 {
        Error::WrongFormat
    } else if v == 5 {
        Error::WaitFailure
    } else if v == 6 {
        Error::InvalidFd
    } else if v == 7 {
        Error::OtherEndClosed
    } else if v == 8 {
        Error::MaxVmsSpawned
    } else if v == 9 {
        Error::MaxFdsCreated
    } else {
        Error::Other(v)
    }
}

/// Decode a raw return code: zero is success, anything else the typed error
/// of that code.
pub fn build_result(v: u64) -> (r: Result<(), Error>)
    ensures
        v == 0 ==> r == Ok::<(), Error>(()),
        v != 0 ==> r == Err::<(), Error>(spec_error_from_code(v)),
{
    if v == 0 {
        Ok(())
    } else if v == 1 {
        Err(Error::IndexOutOfBound)
    } else if v == 2 {
        Err(Error::ItemMissing)
    } else if v == 3 {
        Err(Error::SliceOutOfBound)
    } else if v == 4 {
        Err(Error::WrongFormat)
    } else if v == 5 {
        Err(Error::WaitFailure)
    } else if v == 6 {
        Err(Error::InvalidFd)
    } else if v == 7 {
        Err(Error::OtherEndClosed)
    } else if v == 8 {
        Err(Error::MaxVmsSpawned)
    } else if v == 9 {
        Err(Error::MaxFdsCreated)
    } else {
        Err(Error::Other(v))
    }
}

/// The answer of a partial-loading call: everything fit, a prefix fit and
/// the rest is still available, or a true error.
#[derive(Copy, Clone, Debug, PartialEq, Eq, Structural, Hash)]
pub enum IoResult {
    FullyLoaded(usize),
    PartialLoaded { loaded: usize, available: usize },
    Error(Error),
}

impl IoResult {
    /// Success or the error: a partial load counts as success.
    pub fn to_result(&self) -> (r: Result<(), Error>)
        ensures
            self is Error <==> r == Err::<(), Error>(self->Error_0),
            !(self is Error) <==> r == Ok::<(), Error>(()),
    {
        match self {
            IoResult::FullyLoaded(_) => Ok(()),
            IoResult::PartialLoaded { .. } => Ok(()),
            IoResult::Error(e) => Err(*e),
        }
    }

    /// How many bytes arrived, when any did.
    pub fn loaded(&self) -> (r: Option<usize>)
        ensures
            r == (match *self {
                IoResult::FullyLoaded(l) => Some(l),
                IoResult::PartialLoaded { loaded, available } => Some(loaded),
                IoResult::Error(_) => None::<usize>,
            }),
    {
        match self {
            IoResult::FullyLoaded(l) => Some(*l),
            IoResult::PartialLoaded { loaded, .. } => Some(*loaded),
            IoResult::Error(_) => None,
        }
    }

    /// How many bytes the host holds in all, when the call succeeded.
    pub fn available(&self) -> (r: Option<usize>)
        ensures
            r == (match *self {
                IoResult::FullyLoaded(l) => Some(l),
                IoResult::PartialLoaded { loaded, available } => Some(available),
                IoResult::Error(_) => None::<usize>,
            }),
    {
        match self {
            IoResult::FullyLoaded(l) => Some(*l),
            IoResult::PartialLoaded { available, .. } => Some(*available),
            IoResult::Error(_) => None,
        }
    }

    /// The [`SysError`] this answer stands for: a partial load becomes the
    /// truncation signal with the available total, a slice error a data
    /// encoding error, and the rest map one to one.
    pub fn to_sys_result(&self) -> (r: Result<usize, SysError>)
        ensures
            r == (match *self {
                IoResult::FullyLoaded(l) => Ok(l),
                IoResult::PartialLoaded { loaded, available } => Err::<usize, SysError>(
                    SysError::LengthNotEnough(available),
                ),
                IoResult::Error(e) => Err::<usize, SysError>(spec_sys_error_of(e)),
            }),
    {
        match self {
            IoResult::FullyLoaded(l) => Ok(*l),
            IoResult::PartialLoaded { available, .. } => Err(SysError::LengthNotEnough(*available)),
            IoResult::Error(e) => Err(
                match e {
                    Error::IndexOutOfBound => SysError::IndexOutOfBound,
                    Error::ItemMissing => SysError::ItemMissing,
                    Error::SliceOutOfBound => SysError::Encoding,
                    Error::WrongFormat => SysError::Unknown(4),
                    Error::WaitFailure => SysError::WaitFailure,
                    Error::InvalidFd => SysError::InvalidFd,
                    Error::OtherEndClosed => SysError::OtherEndClosed,
                    Error::MaxVmsSpawned => SysError::MaxVmsSpawned,
                    Error::MaxFdsCreated => SysError::MaxFdsCreated,
                    Error::Other(x) => SysError::Unknown(*x),
                },
            ),
        }
    }
}

/// The [`SysError`] a true host error stands for.
pub open spec fn spec_sys_error_of(e: Error) -> SysError {
    match e {
        Error::IndexOutOfBound => SysError::IndexOutOfBound,
        Error::ItemMissing => SysError::ItemMissing,
        Error::SliceOutOfBound => SysError::Encoding,
        Error::WrongFormat => SysError::Unknown(4),
        Error::WaitFailure => SysError::WaitFailure,
        Error::InvalidFd => SysError::InvalidFd,
        Error::OtherEndClosed => SysError::OtherEndClosed,
        Error::MaxVmsSpawned => SysError::MaxVmsSpawned,
        Error::MaxFdsCreated => SysError::MaxFdsCreated,
        Error::Other(x) => SysError::Unknown(x),
    }
}

/// One page of code loaded by the code-loading syscall, with its flags.
#[derive(Clone, Copy, Debug, PartialEq, Eq, Hash)]
pub struct MemoryPageResult {
    /// Where the page begins.
    pub page_start: u64,
    /// The page contents.
    pub data: [u8; 4096],
    /// The page flags.
    pub flag: u8,
}

} // verus!
