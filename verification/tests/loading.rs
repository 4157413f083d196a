use ckb_std::ckb_constants::{CellField, ScriptHashType, Source};
use ckb_std::error::SysError;
use ckb_std::high_level::{
    find_cell_by_data_hash, load_cell_capacity, load_cell_data, load_cell_type_hash, load_input,
    load_tx_hash, load_witness, look_for_dep_with_data_hash, look_for_dep_with_hash2,
};
use ckb_std::mem_host::{HostEntry, MemHost};
use ckb_std::syscalls;
use ckb_std::syscalls::LoadKind;

fn host_with_witness(witness: Vec<u8>) -> MemHost {
    let mut host = MemHost::empty();
    let mut entry = HostEntry::blank();
    entry.witness = witness;
    host.inputs.push(entry);
    host
}

#[test]
fn small_item_loads_in_one_piece() {
    let data: Vec<u8> = (0u8..200).collect();
    let host = host_with_witness(data.clone());
    assert_eq!(load_witness(&host, 0, Source::Input).unwrap(), data);
}

#[test]
fn large_item_round_trips_through_truncation() {
    // larger than the first-call buffer: the loader retries with the exact
    // remainder and reconstructs the data byte for byte
    let data: Vec<u8> = (0..5000u32).map(|i| (i % 251) as u8).collect();
    let host = host_with_witness(data.clone());
    assert_eq!(load_witness(&host, 0, Source::Input).unwrap(), data);
}

#[test]
fn truncation_reports_the_exact_total() {
    let data = vec![9u8; 40];
    let mut host = MemHost::empty();
    host.tx_hash = data;
    // a 32-byte read of a 40-byte item is a truncation with the exact size
    assert_eq!(load_tx_hash(&host), Err(SysError::LengthNotEnough(40)));
    // the raw syscall reports the same through the length side channel
    let mut buf = vec![0u8; 8];
    assert_eq!(
        syscalls::load_tx_hash(&host, &mut buf, 0),
        Err(SysError::LengthNotEnough(40))
    );
    assert_eq!(buf, vec![9u8; 8]);
    // reading from an offset yields the remainder
    let mut buf2 = vec![0u8; 64];
    assert_eq!(syscalls::load_tx_hash(&host, &mut buf2, 8), Ok(32));
}

#[test]
fn short_item_is_zero_padded() {
    let mut host = MemHost::empty();
    host.tx_hash = vec![7u8; 4];
    let hash = load_tx_hash(&host).unwrap();
    assert_eq!(hash.len(), 32);
    assert_eq!(&hash[..4], &[7u8; 4]);
    assert_eq!(&hash[4..], &[0u8; 28]);
}

#[test]
fn missing_index_is_out_of_bound() {
    let host = MemHost::empty();
    assert_eq!(
        load_witness(&host, 0, Source::Input),
        Err(SysError::IndexOutOfBound)
    );
    assert_eq!(
        load_cell_data(&host, 3, Source::Output),
        Err(SysError::IndexOutOfBound)
    );
}

#[test]
fn capacity_field_decodes_little_endian() {
    let mut host = MemHost::empty();
    let mut entry = HostEntry::blank();
    entry.capacity = 123_456_789u64.to_le_bytes().to_vec();
    host.outputs.push(entry);
    assert_eq!(
        load_cell_capacity(&host, 0, Source::Output),
        Ok(123_456_789)
    );
}

#[test]
fn absent_type_hash_is_none() {
    let mut host = MemHost::empty();
    host.outputs.push(HostEntry::blank());
    assert_eq!(load_cell_type_hash(&host, 0, Source::Output), Ok(None));
}

#[test]
fn find_cell_by_data_hash_scans_in_order() {
    let mut host = MemHost::empty();
    let mut first = HostEntry::blank();
    first.data_hash = vec![1u8; 32];
    let mut second = HostEntry::blank();
    second.data_hash = vec![2u8; 32];
    host.outputs.push(first);
    host.outputs.push(second);
    let target = vec![2u8; 32];
    assert_eq!(
        find_cell_by_data_hash(&host, &target, Source::Output),
        Ok(Some(1))
    );
    let absent = vec![3u8; 32];
    assert_eq!(
        find_cell_by_data_hash(&host, &absent, Source::Output),
        Ok(None)
    );
}

#[test]
fn look_for_dep_skips_missing_type_hashes() {
    let mut host = MemHost::empty();
    // first dep has no type script, second carries the wanted hash
    host.deps.push(HostEntry::blank());
    let mut dep = HostEntry::blank();
    dep.type_hash = Some(vec![5u8; 32]);
    host.deps.push(dep);
    let wanted = vec![5u8; 32];
    assert_eq!(
        look_for_dep_with_hash2(&host, &wanted, ScriptHashType::Type),
        Ok(1)
    );
    // no dep carries it by data hash: the scan runs off the end
    assert_eq!(
        look_for_dep_with_data_hash(&host, &wanted),
        Err(SysError::IndexOutOfBound)
    );
}

#[test]
fn vm_version_accepts_only_known_answers() {
    let host = MemHost::empty();
    assert_eq!(syscalls::vm_version(&host), Ok(2));
}

#[test]
fn raw_load_kind_dispatch() {
    let mut host = MemHost::empty();
    let mut entry = HostEntry::blank();
    entry.data = vec![1, 2, 3];
    entry.lock = vec![4, 5];
    host.inputs.push(entry);
    let mut buf = vec![0u8; 3];
    assert_eq!(
        syscalls::load(
            &host,
            &mut buf,
            0,
            LoadKind::CellData {
                index: 0,
                source: Source::Input
            }
        ),
        Ok(3)
    );
    assert_eq!(buf, vec![1, 2, 3]);
    let mut buf2 = vec![0u8; 8];
    assert_eq!(
        syscalls::load_cell_by_field(&host, &mut buf2, 0, 0, Source::Input, CellField::Lock),
        Ok(2)
    );
    assert_eq!(&buf2[..2], &[4, 5]);
}

#[test]
fn fixed_records_have_their_sizes() {
    let mut host = MemHost::empty();
    let mut entry = HostEntry::blank();
    entry.input = vec![6u8; 44];
    host.inputs.push(entry);
    let input = load_input(&host, 0, Source::Input).unwrap();
    assert_eq!(input.len(), 44);
    assert_eq!(input, vec![6u8; 44]);
}
