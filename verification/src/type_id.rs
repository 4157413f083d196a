//! Type-id validation.
//!
//! A type-id script pins a cell lineage: its 32-byte id must equal, at
//! minting time, the digest of the transaction's first input together with
//! the output index of the new cell. A transfer moves exactly one cell of
//! the group; burning the cell is allowed.

use vstd::prelude::*;

use crate::ckb_constants::{CellField, Source};
use crate::error::SysError;
use crate::high_level::{
    load_cell_type_hash, load_input, load_script_hash, spec_load_fixed, CELL_INPUT_SIZE,
};
use crate::syscalls;
use crate::syscalls::{LoadKind, SyscallImpls};
use vstd::bytes::{spec_u64_to_le_bytes, u64_to_le_bytes};

verus! {

/// The 32-byte digest of the default hash function over `data`.
pub uninterp spec fn blake2b_256_of(data: Seq<u8>) -> Seq<u8>;

/// Relies on the chain's default 32-byte personalized hash
/// (`ckb_hash::blake2b_256`): the digest depends on the input bytes alone.
#[verifier::external_body]
fn blake2b_256(data: &Vec<u8>) -> (r: Vec<u8>)
    ensures
        r@ == blake2b_256_of(data@),
        r@.len() == 32,
{
    ckb_hash::blake2b_256(data.as_slice()).to_vec()
}

/// The type id a minting operation must carry: the digest of the first
/// input, as loaded, together with the packed output index.
pub open spec fn spec_type_id(input: Seq<u8>, output_index: u64) -> Seq<u8> {
    blake2b_256_of(input + spec_u64_to_le_bytes(output_index))
}

/// Compute the type id for a minting operation: the digest of the serialized
/// first input followed by the little-endian output index.
pub fn compute_type_id(input: &Vec<u8>, output_index: u64) -> (r: Vec<u8>)
    ensures
        r@ == spec_type_id(input@, output_index),
        r@.len() == 32,
{
    let mut message = Vec::new();
    let mut i: usize = 0;
    while i < input.len()
        invariant
            i <= input@.len(),
            message@ == input@.take(i as int),
        decreases input@.len() - i,
    {
        message.push(input[i]);
        i = i + 1;
    }
    let mut index_bytes = u64_to_le_bytes(output_index);
    message.append(&mut index_bytes);
    proof {
        assert(message@ =~= input@ + spec_u64_to_le_bytes(output_index));
    }
    blake2b_256(&message)
}

/// The host holds a cell at this index of this source.
pub open spec fn spec_cell_present<S: SyscallImpls>(h: &S, index: usize, source: Source) -> bool {
    h.source_data(LoadKind::Cell { index, source }) is Ok
}

/// Whether a cell exists at the given index of the given source.
fn is_cell_present<S: SyscallImpls>(h: &S, index: usize, source: Source) -> (r: bool)
    ensures
        r == spec_cell_present(h, index, source),
{
    proof {
        h.source_data_err_nonzero(LoadKind::Cell { index, source });
    }
    let mut buf: Vec<u8> = Vec::new();
    matches!(
        syscalls::load_cell(h, &mut buf, 0, index, source),
        Ok(_) | Err(SysError::LengthNotEnough(_)),
    )
}

/// The zero-padded type hash loaded at one output index.
pub open spec fn spec_output_type_hash<S: SyscallImpls>(h: &S, index: usize) -> Result<
    Seq<u8>,
    SysError,
> {
    spec_load_fixed(
        h.source_data(
            LoadKind::CellByField { index, source: Source::Output, field: CellField::TypeHash },
        ),
        32,
    )
}

/// Every output below `n` was examined and none carries the type hash
/// `target`: either it has no type script, or its hash differs.
pub open spec fn spec_outputs_clean<S: SyscallImpls>(h: &S, target: Seq<u8>, n: int) -> bool {
    forall|j: usize|
        j < n ==> match (#[trigger] spec_output_type_hash(h, j)) {
            Ok(s) => s != target,
            Err(e) => e is ItemMissing,
        }
}

/// Find the first output whose type hash equals the running script's hash.
/// No such output is the type-id error; any unexpected load failure is
/// propagated.
fn locate_index<S: SyscallImpls>(h: &S) -> (r: Result<usize, SysError>)
    ensures
        match r {
            Ok(i) => {
                &&& spec_load_fixed(h.source_data(LoadKind::ScriptHash), 32) matches Ok(target)
                    && spec_output_type_hash(h, i) matches Ok(s) && s == target
                    && spec_outputs_clean(h, target, i as int) && i < h.cell_count(Source::Output)
            },
            Err(e) => {
                if e is TypeIdError {
                    spec_load_fixed(h.source_data(LoadKind::ScriptHash), 32) matches Ok(target)
                        && spec_outputs_clean(h, target, h.cell_count(Source::Output) as int)
                } else {
                    true
                }
            },
        },
{
    let hash = match load_script_hash(h) {
        Ok(v) => v,
        Err(e) => {
            return Err(e);
        },
    };
    proof {
        h.cell_scan_laws_hold();
    }
    let mut i: usize = 0;
    loop
        invariant
            i <= h.cell_count(Source::Output),
            spec_load_fixed(h.source_data(LoadKind::ScriptHash), 32) matches Ok(target) && target
                == hash@,
            spec_outputs_clean(h, hash@, i as int),
        decreases h.cell_count(Source::Output) - i,
    {
        proof {
            h.cell_scan_laws_hold();
        }
        match load_cell_type_hash(h, i, Source::Output) {
            Ok(Some(type_hash)) => {
                if crate::high_level::bytes_equal(&type_hash, &hash) {
                    return Ok(i);
                }
            },
            Ok(None) => {},
            Err(SysError::IndexOutOfBound) => {
                return Err(SysError::TypeIdError);
            },
            Err(e) => {
                return Err(e);
            },
        }
        proof {
            assert(i < h.cell_count(Source::Output));
        }
        i = i + 1;
    }
}

/// What a valid type id must be, as a function of the host context: with a
/// second cell in either group the id is invalid however it reads; a minting
/// operation (no group input) requires the id to equal the digest of the
/// first input and the located output index; a transfer or a burn requires
/// nothing more.
pub open spec fn spec_type_id_obligation<S: SyscallImpls>(
    h: &S,
    type_id: Seq<u8>,
    located: usize,
) -> bool {
    &&& !spec_cell_present(h, 1, Source::GroupInput)
    &&& !spec_cell_present(h, 1, Source::GroupOutput)
    &&& (!spec_cell_present(h, 0, Source::GroupInput) ==> (spec_load_fixed(
        h.source_data(LoadKind::Input { index: 0, source: Source::Input }),
        CELL_INPUT_SIZE as nat,
    ) matches Ok(input) && type_id == spec_type_id(input, located as u64)))
}

/// Validate a type id against the transaction.
///
/// After the group-size check there are three cases: no group input and one
/// group output is a minting operation, whose id must equal the digest of
/// the first input and the new cell's output index; one group input and one
/// group output is a transfer; one group input and no group output is a
/// burn, which is allowed. A second cell in either group is invalid.
pub fn validate_type_id<S: SyscallImpls>(h: &S, type_id: &Vec<u8>) -> (r: Result<(), SysError>)
    ensures
        r matches Ok(()) ==> exists|located: usize|
            #[trigger] spec_type_id_obligation(h, type_id@, located),
        (spec_cell_present(h, 1, Source::GroupInput) || spec_cell_present(
            h,
            1,
            Source::GroupOutput,
        )) ==> r == Err::<(), SysError>(SysError::TypeIdError),
{
    if is_cell_present(h, 1, Source::GroupInput) || is_cell_present(h, 1, Source::GroupOutput) {
        return Err(SysError::TypeIdError);
    }
    if !is_cell_present(h, 0, Source::GroupInput) {
        // minting: the id must match the first input and the new index
        let index = match locate_index(h) {
            Ok(i) => i,
            Err(e) => {
                return Err(e);
            },
        };
        let input = match load_input(h, 0, Source::Input) {
            Ok(v) => v,
            Err(e) => {
                return Err(e);
            },
        };
        let expected = compute_type_id(&input, index as u64);
        if !crate::high_level::bytes_equal(&expected, type_id) {
            return Err(SysError::TypeIdError);
        }
        proof {
            assert(spec_type_id_obligation(h, type_id@, index));
        }
        Ok(())
    } else {
        // transfer or burn
        proof {
            assert(spec_type_id_obligation(h, type_id@, 0));
        }
        Ok(())
    }
}

/// Extract the 32-byte type id stored in a script's argument bytes at the
/// given offset.
pub fn load_id_from_args(args: &Vec<u8>, offset: usize) -> (r: Result<Vec<u8>, SysError>)
    ensures
        offset + 32 <= args@.len() ==> (r matches Ok(v) && v@ == args@.subrange(
            offset as int,
            offset + 32,
        )),
        offset + 32 > args@.len() ==> r == Err::<Vec<u8>, SysError>(SysError::TypeIdError),
{
    if offset > args.len() || args.len() - offset < 32 {
        return Err(SysError::TypeIdError);
    }
    let end: usize = args.len();
    let mut id: Vec<u8> = Vec::new();
    let mut i: usize = 0;
    while i < 32
        invariant
            i <= 32,
            end == args@.len(),
            offset + 32 <= end,
            id@ == args@.subrange(offset as int, offset + i),
        decreases 32 - i,
    {
        id.push(args[offset + i]);
        proof {
            assert(id@ =~= args@.subrange(offset as int, offset + i + 1));
        }
        i = i + 1;
    }
    Ok(id)
}

/// Validate that the script follows the type-id rule, with the id stored in
/// the script's argument bytes at the given offset.
pub fn check_type_id<S: SyscallImpls>(h: &S, args: &Vec<u8>, offset: usize) -> (r: Result<
    (),
    SysError,
>)
    ensures
        offset + 32 > args@.len() ==> r == Err::<(), SysError>(SysError::TypeIdError),
        r matches Ok(()) ==> offset + 32 <= args@.len() && exists|located: usize|
            #[trigger] spec_type_id_obligation(
                h,
                args@.subrange(offset as int, offset + 32),
                located,
            ),
{
    let type_id = match load_id_from_args(args, offset) {
        Ok(v) => v,
        Err(e) => {
            return Err(e);
        },
    };
    validate_type_id(h, &type_id)
}

} // verus!
