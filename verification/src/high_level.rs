//! The partial-read data loaders.
//!
//! Variable-length data is fetched with at most two syscalls: one read into a
//! fixed-size buffer, and — only when the host reports a larger total — one
//! more read of exactly the remainder. The common small item costs a single
//! call; an item of any size costs two.

use vstd::prelude::*;

use crate::ckb_constants::{CellField, HeaderField, InputField, ScriptHashType, Source};
use crate::error::{spec_error_of_code, SysError};
use crate::syscalls;
use crate::syscalls::{load_avail, load_written, LoadKind, SyscallImpls};
use vstd::bytes::{spec_u64_from_le_bytes, u64_from_le_bytes};

verus! {

/// The byte size of a serialized cell input.
pub const CELL_INPUT_SIZE: usize = 44;

/// The byte size of a serialized header.
pub const HEADER_SIZE: usize = 208;

/// The byte size of a serialized out point.
pub const OUT_POINT_SIZE: usize = 36;

/// The fixed first-call buffer size: enough for most small items, so that
/// they cost one syscall.
pub const BUF_SIZE: usize = 256;

/// What a full variable-length load of `kind` yields: the host data itself,
/// or the typed error of the host's answer code.
pub open spec fn spec_load_data(src: Result<Seq<u8>, u64>) -> Result<Seq<u8>, SysError> {
    match src {
        Ok(data) => Ok(data),
        Err(code) => Err(spec_error_of_code(code)),
    }
}

/// What a load into a fresh zeroed buffer of `n` bytes yields: the data,
/// zero-padded to `n` when it is shorter, the exact-size truncation signal
/// when it is longer, or the typed error.
pub open spec fn spec_load_fixed(src: Result<Seq<u8>, u64>, n: nat) -> Result<Seq<u8>, SysError> {
    match src {
        Ok(data) => {
            if data.len() <= n {
                Ok(data + Seq::new((n - data.len()) as nat, |i: int| 0u8))
            } else {
                Err(SysError::LengthNotEnough(data.len() as usize))
            }
        },
        Err(code) => Err(spec_error_of_code(code)),
    }
}

/// Relates an executable load result to its specified value.
pub open spec fn load_matches(spec_r: Result<Seq<u8>, SysError>, r: Result<Vec<u8>, SysError>) -> bool {
    match spec_r {
        Ok(s) => r matches Ok(v) && v@ == s,
        Err(e) => r == Err::<Vec<u8>, SysError>(e),
    }
}

/// Load the whole datum of `kind`, however large, with at most two syscalls.
///
/// The first call reads into a [`BUF_SIZE`] buffer. If the host reports a
/// larger total, a buffer of exactly that size is allocated, the prefix
/// already read is kept, and one more call fetches the remainder starting at
/// the prefix length.
pub fn load_data<S: SyscallImpls>(h: &S, kind: LoadKind) -> (r: Result<Vec<u8>, SysError>)
    ensures
        load_matches(spec_load_data(h.source_data(kind)), r),
{
    proof {
        h.source_data_err_nonzero(kind);
    }
    let mut buf: Vec<u8> = vec![0u8; BUF_SIZE];
    let ghost zeros = buf@;
    let first = syscalls::load(h, &mut buf, 0, kind);
    match first {
        Ok(len) => {
            proof {
                let data = h.source_data(kind)->Ok_0;
                assert(h.source_data(kind) is Ok);
                assert(len == data.len());
                assert(buf@ == load_written(data, zeros, 0));
            }
            buf.truncate(len);
            proof {
                let data = h.source_data(kind)->Ok_0;
                assert(buf@ =~= data);
            }
            Ok(buf)
        },
        Err(SysError::LengthNotEnough(actual_size)) => {
            proof {
                assert(h.source_data(kind) is Ok);
            }
            let ghost data = h.source_data(kind)->Ok_0;
            proof {
                assert(actual_size == data.len());
                assert(actual_size > BUF_SIZE);
                assert(buf@ == data.subrange(0, BUF_SIZE as int));
            }
            let tail_len: usize = actual_size - BUF_SIZE;
            let mut tail: Vec<u8> = vec![0u8; tail_len];
            let second = syscalls::load(h, &mut tail, BUF_SIZE, kind);
            match second {
                Ok(len) => {
                    proof {
                        assert(len + BUF_SIZE == actual_size);
                        assert(tail@ =~= data.skip(BUF_SIZE as int));
                    }
                    let mut out = buf;
                    out.append(&mut tail);
                    proof {
                        assert(out@ =~= data);
                    }
                    Ok(out)
                },
                Err(e) => {
                    proof {
                        assert(load_avail(data, BUF_SIZE as nat) == tail_len);
                        assert(false);
                    }
                    Err(e)
                },
            }
        },
        Err(e) => Err(e),
    }
}

/// Law: a load into a too-small buffer answers with the exact total size, and
/// the two-call sequence — the small-buffer prefix plus the exact remainder —
/// reconstructs byte for byte what one oversized-buffer call delivers.
pub proof fn lemma_load_truncation_round_trip(data: Seq<u8>, small: Seq<u8>, rest: Seq<u8>, big: Seq<u8>)
    requires
        small.len() < data.len(),
        data.len() <= usize::MAX,
        rest.len() == data.len() - small.len(),
        big.len() >= data.len(),
    ensures
        crate::error::spec_syscall_result(0, small.len(), load_avail(data, 0)) == Err::<
            usize,
            SysError,
        >(SysError::LengthNotEnough(data.len() as usize)),
        load_written(data, small, 0) + load_written(data, rest, small.len()) == load_written(
            data,
            big,
            0,
        ).take(data.len() as int),
{
    assert(load_written(data, small, 0) + load_written(data, rest, small.len()) =~= load_written(
        data,
        big,
        0,
    ).take(data.len() as int));
}


/// Load exactly `n` bytes into a fresh zeroed buffer: the common path for
/// fixed-size items (hashes, packed integers, fixed records).
fn load_fixed<S: SyscallImpls>(h: &S, kind: LoadKind, n: usize) -> (r: Result<Vec<u8>, SysError>)
    ensures
        load_matches(spec_load_fixed(h.source_data(kind), n as nat), r),
{
    proof {
        h.source_data_err_nonzero(kind);
    }
    let mut buf: Vec<u8> = vec![0u8; n];
    let ghost zeros = buf@;
    match syscalls::load(h, &mut buf, 0, kind) {
        Ok(_len) => {
            proof {
                let data = h.source_data(kind)->Ok_0;
                assert(buf@ =~= data + Seq::new((n - data.len()) as nat, |i: int| 0u8));
            }
            Ok(buf)
        },
        Err(e) => Err(e),
    }
}

/// What loading a packed little-endian `u64` field yields.
pub open spec fn spec_load_u64(src: Result<Seq<u8>, u64>) -> Result<u64, SysError> {
    match spec_load_fixed(src, 8) {
        Ok(s) => Ok(spec_u64_from_le_bytes(s)),
        Err(e) => Err(e),
    }
}

/// Load a packed little-endian `u64` field.
fn load_u64_field<S: SyscallImpls>(h: &S, kind: LoadKind) -> (r: Result<u64, SysError>)
    ensures
        r == spec_load_u64(h.source_data(kind)),
{
    match load_fixed(h, kind, 8) {
        Ok(buf) => Ok(u64_from_le_bytes(buf.as_slice())),
        Err(e) => Err(e),
    }
}

/// Load the transaction hash: 32 bytes.
pub fn load_tx_hash<S: SyscallImpls>(h: &S) -> (r: Result<Vec<u8>, SysError>)
    ensures
        load_matches(spec_load_fixed(h.source_data(LoadKind::TxHash), 32), r),
        r matches Ok(v) ==> v@.len() == 32,
{
    load_fixed(h, LoadKind::TxHash, 32)
}

/// Load the hash of the currently running script: 32 bytes.
pub fn load_script_hash<S: SyscallImpls>(h: &S) -> (r: Result<Vec<u8>, SysError>)
    ensures
        load_matches(spec_load_fixed(h.source_data(LoadKind::ScriptHash), 32), r),
        r matches Ok(v) ==> v@.len() == 32,
{
    load_fixed(h, LoadKind::ScriptHash, 32)
}

/// Load a whole cell as its serialized bytes.
pub fn load_cell<S: SyscallImpls>(h: &S, index: usize, source: Source) -> (r: Result<
    Vec<u8>,
    SysError,
>)
    ensures
        load_matches(spec_load_data(h.source_data(LoadKind::Cell { index, source })), r),
{
    load_data(h, LoadKind::Cell { index, source })
}

/// Load an input as its serialized bytes: a fixed-size record.
pub fn load_input<S: SyscallImpls>(h: &S, index: usize, source: Source) -> (r: Result<
    Vec<u8>,
    SysError,
>)
    ensures
        load_matches(
            spec_load_fixed(
                h.source_data(LoadKind::Input { index, source }),
                CELL_INPUT_SIZE as nat,
            ),
            r,
        ),
        r matches Ok(v) ==> v@.len() == CELL_INPUT_SIZE,
{
    load_fixed(h, LoadKind::Input { index, source }, CELL_INPUT_SIZE)
}

/// Load a header as its serialized bytes: a fixed-size record.
pub fn load_header<S: SyscallImpls>(h: &S, index: usize, source: Source) -> (r: Result<
    Vec<u8>,
    SysError,
>)
    ensures
        load_matches(
            spec_load_fixed(h.source_data(LoadKind::Header { index, source }), HEADER_SIZE as nat),
            r,
        ),
        r matches Ok(v) ==> v@.len() == HEADER_SIZE,
{
    load_fixed(h, LoadKind::Header { index, source }, HEADER_SIZE)
}

/// Load a witness.
pub fn load_witness<S: SyscallImpls>(h: &S, index: usize, source: Source) -> (r: Result<
    Vec<u8>,
    SysError,
>)
    ensures
        load_matches(spec_load_data(h.source_data(LoadKind::Witness { index, source })), r),
{
    load_data(h, LoadKind::Witness { index, source })
}

/// Load the whole transaction as its serialized bytes.
pub fn load_transaction<S: SyscallImpls>(h: &S) -> (r: Result<Vec<u8>, SysError>)
    ensures
        load_matches(spec_load_data(h.source_data(LoadKind::Transaction)), r),
{
    load_data(h, LoadKind::Transaction)
}

/// Load the capacity of a cell.
pub fn load_cell_capacity<S: SyscallImpls>(h: &S, index: usize, source: Source) -> (r: Result<
    u64,
    SysError,
>)
    ensures
        r == spec_load_u64(
            h.source_data(LoadKind::CellByField { index, source, field: CellField::Capacity }),
        ),
{
    load_u64_field(h, LoadKind::CellByField { index, source, field: CellField::Capacity })
}

/// Load the occupied capacity of a cell.
pub fn load_cell_occupied_capacity<S: SyscallImpls>(h: &S, index: usize, source: Source) -> (r:
    Result<u64, SysError>)
    ensures
        r == spec_load_u64(
            h.source_data(
                LoadKind::CellByField { index, source, field: CellField::OccupiedCapacity },
            ),
        ),
{
    load_u64_field(h, LoadKind::CellByField { index, source, field: CellField::OccupiedCapacity })
}

/// Load the data hash of a cell: 32 bytes.
pub fn load_cell_data_hash<S: SyscallImpls>(h: &S, index: usize, source: Source) -> (r: Result<
    Vec<u8>,
    SysError,
>)
    ensures
        load_matches(
            spec_load_fixed(
                h.source_data(LoadKind::CellByField { index, source, field: CellField::DataHash }),
                32,
            ),
            r,
        ),
{
    load_fixed(h, LoadKind::CellByField { index, source, field: CellField::DataHash }, 32)
}

/// Load the lock hash of a cell: 32 bytes.
pub fn load_cell_lock_hash<S: SyscallImpls>(h: &S, index: usize, source: Source) -> (r: Result<
    Vec<u8>,
    SysError,
>)
    ensures
        load_matches(
            spec_load_fixed(
                h.source_data(LoadKind::CellByField { index, source, field: CellField::LockHash }),
                32,
            ),
            r,
        ),
{
    load_fixed(h, LoadKind::CellByField { index, source, field: CellField::LockHash }, 32)
}

/// Load the type-script hash of a cell; a cell without a type script yields
/// `None`.
pub fn load_cell_type_hash<S: SyscallImpls>(h: &S, index: usize, source: Source) -> (r: Result<
    Option<Vec<u8>>,
    SysError,
>)
    ensures
        match spec_load_fixed(
            h.source_data(LoadKind::CellByField { index, source, field: CellField::TypeHash }),
            32,
        ) {
            Ok(s) => r matches Ok(v) && v matches Some(hash) && hash@ == s,
            Err(SysError::ItemMissing) => r == Ok::<Option<Vec<u8>>, SysError>(None),
            Err(e) => r == Err::<Option<Vec<u8>>, SysError>(e),
        },
{
    match load_fixed(h, LoadKind::CellByField { index, source, field: CellField::TypeHash }, 32) {
        Ok(buf) => Ok(Some(buf)),
        Err(SysError::ItemMissing) => Ok(None),
        Err(e) => Err(e),
    }
}

/// Load the lock script of a cell as its serialized bytes.
pub fn load_cell_lock<S: SyscallImpls>(h: &S, index: usize, source: Source) -> (r: Result<
    Vec<u8>,
    SysError,
>)
    ensures
        load_matches(
            spec_load_data(
                h.source_data(LoadKind::CellByField { index, source, field: CellField::Lock }),
            ),
            r,
        ),
{
    load_data(h, LoadKind::CellByField { index, source, field: CellField::Lock })
}

/// Load the type script of a cell as its serialized bytes; a cell without a
/// type script yields `None`.
pub fn load_cell_type<S: SyscallImpls>(h: &S, index: usize, source: Source) -> (r: Result<
    Option<Vec<u8>>,
    SysError,
>)
    ensures
        match spec_load_data(
            h.source_data(LoadKind::CellByField { index, source, field: CellField::Type }),
        ) {
            Ok(s) => r matches Ok(v) && v matches Some(script) && script@ == s,
            Err(SysError::ItemMissing) => r == Ok::<Option<Vec<u8>>, SysError>(None),
            Err(e) => r == Err::<Option<Vec<u8>>, SysError>(e),
        },
{
    match load_data(h, LoadKind::CellByField { index, source, field: CellField::Type }) {
        Ok(buf) => Ok(Some(buf)),
        Err(SysError::ItemMissing) => Ok(None),
        Err(e) => Err(e),
    }
}

/// Load the epoch number of a header.
pub fn load_header_epoch_number<S: SyscallImpls>(h: &S, index: usize, source: Source) -> (r: Result<
    u64,
    SysError,
>)
    ensures
        r == spec_load_u64(
            h.source_data(
                LoadKind::HeaderByField { index, source, field: HeaderField::EpochNumber },
            ),
        ),
{
    load_u64_field(h, LoadKind::HeaderByField { index, source, field: HeaderField::EpochNumber })
}

/// Load the epoch start block number of a header.
pub fn load_header_epoch_start_block_number<S: SyscallImpls>(
    h: &S,
    index: usize,
    source: Source,
) -> (r: Result<u64, SysError>)
    ensures
        r == spec_load_u64(
            h.source_data(
                LoadKind::HeaderByField {
                    index,
                    source,
                    field: HeaderField::EpochStartBlockNumber,
                },
            ),
        ),
{
    load_u64_field(
        h,
        LoadKind::HeaderByField { index, source, field: HeaderField::EpochStartBlockNumber },
    )
}

/// Load the epoch length of a header.
pub fn load_header_epoch_length<S: SyscallImpls>(h: &S, index: usize, source: Source) -> (r: Result<
    u64,
    SysError,
>)
    ensures
        r == spec_load_u64(
            h.source_data(
                LoadKind::HeaderByField { index, source, field: HeaderField::EpochLength },
            ),
        ),
{
    load_u64_field(h, LoadKind::HeaderByField { index, source, field: HeaderField::EpochLength })
}

/// Load the since field of an input.
pub fn load_input_since<S: SyscallImpls>(h: &S, index: usize, source: Source) -> (r: Result<
    u64,
    SysError,
>)
    ensures
        r == spec_load_u64(
            h.source_data(LoadKind::InputByField { index, source, field: InputField::Since }),
        ),
{
    load_u64_field(h, LoadKind::InputByField { index, source, field: InputField::Since })
}

/// Load the out point of an input: a fixed-size record.
pub fn load_input_out_point<S: SyscallImpls>(h: &S, index: usize, source: Source) -> (r: Result<
    Vec<u8>,
    SysError,
>)
    ensures
        load_matches(
            spec_load_fixed(
                h.source_data(LoadKind::InputByField { index, source, field: InputField::OutPoint }),
                OUT_POINT_SIZE as nat,
            ),
            r,
        ),
{
    load_fixed(
        h,
        LoadKind::InputByField { index, source, field: InputField::OutPoint },
        OUT_POINT_SIZE,
    )
}

/// Load the data of a cell.
pub fn load_cell_data<S: SyscallImpls>(h: &S, index: usize, source: Source) -> (r: Result<
    Vec<u8>,
    SysError,
>)
    ensures
        load_matches(spec_load_data(h.source_data(LoadKind::CellData { index, source })), r),
{
    load_data(h, LoadKind::CellData { index, source })
}

/// Load the currently running script as its serialized bytes.
pub fn load_script<S: SyscallImpls>(h: &S) -> (r: Result<Vec<u8>, SysError>)
    ensures
        load_matches(spec_load_data(h.source_data(LoadKind::Script)), r),
{
    load_data(h, LoadKind::Script)
}


/// Byte-for-byte equality of two buffers.
pub fn bytes_equal(a: &Vec<u8>, b: &Vec<u8>) -> (r: bool)
    ensures
        r == (a@ == b@),
{
    if a.len() != b.len() {
        return false;
    }
    let mut i: usize = 0;
    while i < a.len()
        invariant
            i <= a@.len(),
            a@.len() == b@.len(),
            forall|j: int| 0 <= j < i ==> a@[j] == b@[j],
        decreases a@.len() - i,
    {
        if a[i] != b[i] {
            return false;
        }
        i += 1;
    }
    proof {
        assert(a@ =~= b@);
    }
    true
}

/// The zero-padded 32-byte field loaded at one cell index.
pub open spec fn spec_cell_field<S: SyscallImpls>(
    h: &S,
    index: usize,
    source: Source,
    field: CellField,
) -> Result<Seq<u8>, SysError> {
    spec_load_fixed(h.source_data(LoadKind::CellByField { index, source, field }), 32)
}

/// Every cell index below `n` loaded its data hash and none matched `target`.
pub open spec fn data_hash_scan_clean<S: SyscallImpls>(
    h: &S,
    source: Source,
    target: Seq<u8>,
    n: int,
) -> bool {
    forall|j: usize|
        j < n ==> ((#[trigger] spec_cell_field(h, j, source, CellField::DataHash)) matches Ok(s)
            && s != target)
}

/// Find the first cell whose data hash equals `data_hash`.
///
/// The scan runs index by index; running off the end of the source is the
/// natural end of the search, not an error.
pub fn find_cell_by_data_hash<S: SyscallImpls>(h: &S, data_hash: &Vec<u8>, source: Source) -> (r:
    Result<Option<usize>, SysError>)
    ensures
        match r {
            Ok(found) => match found {
                Some(i) => {
                    &&& i < h.cell_count(source)
                    &&& spec_cell_field(h, i, source, CellField::DataHash) matches Ok(s) && s
                        == data_hash@
                    &&& data_hash_scan_clean(h, source, data_hash@, i as int)
                },
                None => data_hash_scan_clean(h, source, data_hash@, h.cell_count(source) as int),
            },
            Err(e) => {
                &&& !(e is IndexOutOfBound)
                &&& exists|j: usize|
                    j < h.cell_count(source) && #[trigger] spec_cell_field(
                        h,
                        j,
                        source,
                        CellField::DataHash,
                    ) == Err::<Seq<u8>, SysError>(e) && data_hash_scan_clean(
                        h,
                        source,
                        data_hash@,
                        j as int,
                    )
            },
        },
{
    proof {
        h.cell_scan_laws_hold();
    }
    let mut i: usize = 0;
    loop
        invariant
            i <= h.cell_count(source),
            data_hash_scan_clean(h, source, data_hash@, i as int),
        decreases h.cell_count(source) - i,
    {
        proof {
            h.cell_scan_laws_hold();
        }
        match load_cell_data_hash(h, i, source) {
            Ok(buf) => {
                if bytes_equal(&buf, data_hash) {
                    return Ok(Some(i));
                }
            },
            Err(SysError::IndexOutOfBound) => {
                return Ok(None);
            },
            Err(e) => {
                proof {
                    assert(i < h.cell_count(source));
                    assert(spec_cell_field(h, i, source, CellField::DataHash) == Err::<
                        Seq<u8>,
                        SysError,
                    >(e));
                }
                return Err(e);
            },
        }
        proof {
            assert(i < h.cell_count(source));
        }
        i += 1;
    }
}

/// Every dep index below `n` either has no such field or loaded a hash that
/// does not match `target`.
pub open spec fn dep_scan_clean<S: SyscallImpls>(
    h: &S,
    field: CellField,
    target: Seq<u8>,
    n: int,
) -> bool {
    forall|j: usize|
        j < n ==> match (#[trigger] spec_cell_field(h, j, Source::CellDep, field)) {
            Ok(s) => s != target,
            Err(e) => e is ItemMissing,
        }
}

/// The field a code reference of the given hash type is looked up by.
pub open spec fn spec_hash_type_field(hash_type: ScriptHashType) -> CellField {
    if hash_type is Type {
        CellField::TypeHash
    } else {
        CellField::DataHash
    }
}

/// Look for a dep cell with the given code hash: by type hash when
/// `hash_type` says so, by data hash otherwise. Deps without the field are
/// skipped; running off the end of the deps is the out-of-bound error.
pub fn look_for_dep_with_hash2<S: SyscallImpls>(
    h: &S,
    code_hash: &Vec<u8>,
    hash_type: ScriptHashType,
) -> (r: Result<usize, SysError>)
    ensures
        ({
            let field = spec_hash_type_field(hash_type);
            match r {
                Ok(i) => {
                    &&& i < h.cell_count(Source::CellDep)
                    &&& spec_cell_field(h, i, Source::CellDep, field) matches Ok(s) && s
                        == code_hash@
                    &&& dep_scan_clean(h, field, code_hash@, i as int)
                },
                Err(e) => {
                    if e is IndexOutOfBound {
                        dep_scan_clean(h, field, code_hash@, h.cell_count(Source::CellDep) as int)
                    } else {
                        exists|j: usize|
                            j < h.cell_count(Source::CellDep) && #[trigger] spec_cell_field(
                                h,
                                j,
                                Source::CellDep,
                                field,
                            ) == Err::<Seq<u8>, SysError>(e) && !(e is ItemMissing)
                                && dep_scan_clean(h, field, code_hash@, j as int)
                    }
                },
            }
        }),
{
    let field = match hash_type {
        ScriptHashType::Type => CellField::TypeHash,
        _ => CellField::DataHash,
    };
    proof {
        h.cell_scan_laws_hold();
    }
    let mut current: usize = 0;
    loop
        invariant
            field == spec_hash_type_field(hash_type),
            current <= h.cell_count(Source::CellDep),
            dep_scan_clean(h, field, code_hash@, current as int),
        decreases h.cell_count(Source::CellDep) - current,
    {
        proof {
            h.cell_scan_laws_hold();
        }
        match load_fixed(
            h,
            LoadKind::CellByField { index: current, source: Source::CellDep, field },
            32,
        ) {
            Ok(buf) => {
                if bytes_equal(&buf, code_hash) {
                    return Ok(current);
                }
            },
            Err(SysError::ItemMissing) => {},
            Err(SysError::IndexOutOfBound) => {
                return Err(SysError::IndexOutOfBound);
            },
            Err(e) => {
                proof {
                    assert(current < h.cell_count(Source::CellDep));
                    assert(spec_cell_field(h, current, Source::CellDep, field) == Err::<
                        Seq<u8>,
                        SysError,
                    >(e));
                }
                return Err(e);
            },
        }
        proof {
            assert(current < h.cell_count(Source::CellDep));
        }
        current += 1;
    }
}

/// Look for a dep cell with the given data hash.
pub fn look_for_dep_with_data_hash<S: SyscallImpls>(h: &S, data_hash: &Vec<u8>) -> (r: Result<
    usize,
    SysError,
>)
    ensures
        match r {
            Ok(i) => {
                &&& i < h.cell_count(Source::CellDep)
                &&& spec_cell_field(h, i, Source::CellDep, CellField::DataHash) matches Ok(s) && s
                    == data_hash@
                &&& dep_scan_clean(h, CellField::DataHash, data_hash@, i as int)
            },
            Err(_) => true,
        },
{
    look_for_dep_with_hash2(h, data_hash, ScriptHashType::Data)
}

/// Run an executable from the dep cell with the given code hash in place of
/// the current program. The call comes back only on failure, so it always
/// answers with an error.
pub fn exec_cell<S: SyscallImpls>(
    h: &mut S,
    code_hash: &Vec<u8>,
    hash_type: ScriptHashType,
    argv: &Vec<Vec<u8>>,
) -> (r: Result<(), SysError>)
    ensures
        r is Err,
{
    let index = match look_for_dep_with_hash2(&*h, code_hash, hash_type) {
        Ok(i) => i,
        Err(e) => {
            return Err(e);
        },
    };
    let ret = syscalls::exec(h, index, Source::CellDep, 0, 0, argv);
    let err = match ret {
        1 => SysError::IndexOutOfBound,
        2 => SysError::ItemMissing,
        code => SysError::Unknown(code),
    };
    Err(err)
}

/// Spawn the dep cell with the given code hash as a child process, passing
/// it the given arguments and file descriptors. On success the child's
/// process id is returned.
pub fn spawn_cell<S: SyscallImpls>(
    h: &mut S,
    code_hash: &Vec<u8>,
    hash_type: ScriptHashType,
    argv: &Vec<Vec<u8>>,
    inherited_fds: &Vec<u64>,
) -> (r: Result<u64, SysError>)
    ensures
        r matches Err(e) ==> matches!(
            e,
            SysError::IndexOutOfBound
                | SysError::ItemMissing
                | SysError::LengthNotEnough(_)
                | SysError::Encoding
                | SysError::InvalidFd
                | SysError::MaxVmsSpawned
                | SysError::Unknown(_),
        ),
{
    let index = match look_for_dep_with_hash2(&*h, code_hash, hash_type) {
        Ok(i) => i,
        Err(e) => {
            return Err(e);
        },
    };
    syscalls::spawn(h, index, Source::CellDep, 0, 0, argv, inherited_fds)
}

} // verus!
