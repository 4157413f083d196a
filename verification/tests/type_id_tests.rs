use ckb_std::error::SysError;
use ckb_std::mem_host::{HostEntry, MemHost};
use ckb_std::type_id::{check_type_id, compute_type_id, load_id_from_args, validate_type_id};

// A minting transaction: no cell of the group on the input side, one new
// cell of the group on the output side, whose type hash equals the running
// script's hash.
fn minting_host() -> MemHost {
    let mut host = MemHost::empty();
    host.script_hash = vec![0xAAu8; 32];
    let mut first_input = HostEntry::blank();
    first_input.input = (0u8..44).collect();
    host.inputs.push(first_input);
    let mut new_cell = HostEntry::blank();
    new_cell.type_hash = Some(vec![0xAAu8; 32]);
    new_cell.cell = vec![1];
    host.outputs.push(new_cell);
    let mut group_out = HostEntry::blank();
    group_out.cell = vec![1];
    host.group_outputs.push(group_out);
    host
}

#[test]
fn compute_type_id_matches_the_chain_hash() {
    // cross-check against the real hash function: the digest of the
    // serialized input followed by the little-endian output index, under the
    // chain's personalization
    let input: Vec<u8> = (0u8..44).collect();
    let index: u64 = 3;
    let mut message = input.clone();
    message.extend_from_slice(&index.to_le_bytes());
    let expected = ckb_hash::blake2b_256(&message);
    let got = compute_type_id(&input, index);
    assert_eq!(got.len(), 32);
    assert_eq!(got, expected.to_vec());
}

#[test]
fn minting_accepts_exactly_the_computed_id() {
    let host = minting_host();
    let input: Vec<u8> = (0u8..44).collect();
    let type_id = compute_type_id(&input, 0);
    assert_eq!(validate_type_id(&host, &type_id), Ok(()));
    // any other id is refused
    let mut wrong = type_id.clone();
    wrong[0] ^= 1;
    assert_eq!(validate_type_id(&host, &wrong), Err(SysError::TypeIdError));
}

#[test]
fn transfer_and_burn_are_allowed() {
    // a transfer: one group input, one group output
    let mut host = minting_host();
    let mut group_in = HostEntry::blank();
    group_in.cell = vec![1];
    host.group_inputs.push(group_in);
    let id = vec![0u8; 32];
    assert_eq!(validate_type_id(&host, &id), Ok(()));
    // a burn: one group input, no group output
    host.group_outputs.clear();
    assert_eq!(validate_type_id(&host, &id), Ok(()));
}

#[test]
fn a_second_group_cell_is_refused() {
    let mut host = minting_host();
    let mut extra = HostEntry::blank();
    extra.cell = vec![1];
    host.group_outputs.push(extra);
    let input: Vec<u8> = (0u8..44).collect();
    let type_id = compute_type_id(&input, 0);
    assert_eq!(validate_type_id(&host, &type_id), Err(SysError::TypeIdError));
}

#[test]
fn minting_without_a_matching_output_is_refused() {
    let mut host = minting_host();
    // the outputs carry a different type hash than the running script
    host.outputs[0].type_hash = Some(vec![0xBBu8; 32]);
    let input: Vec<u8> = (0u8..44).collect();
    let type_id = compute_type_id(&input, 0);
    assert_eq!(validate_type_id(&host, &type_id), Err(SysError::TypeIdError));
}

#[test]
fn id_is_read_from_the_args_at_the_offset() {
    let mut args = vec![0u8; 4];
    let input: Vec<u8> = (0u8..44).collect();
    let type_id = compute_type_id(&input, 0);
    args.extend_from_slice(&type_id);
    assert_eq!(load_id_from_args(&args, 4).unwrap(), type_id);
    // args too short for the offset
    assert_eq!(load_id_from_args(&args, 5), Err(SysError::TypeIdError));
    let host = minting_host();
    assert_eq!(check_type_id(&host, &args, 4), Ok(()));
    assert_eq!(check_type_id(&host, &args, 36), Err(SysError::TypeIdError));
}
