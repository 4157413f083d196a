//! Wire-level constants of the host interface: syscall numbers, source tags
//! and field tags. These values are the stable contract with the host VM and
//! must be reproduced exactly.

use vstd::prelude::*;

verus! {

pub const SYS_EXIT: u64 = 93;

pub const SYS_VM_VERSION: u64 = 2041;

pub const SYS_CURRENT_CYCLES: u64 = 2042;

pub const SYS_EXEC: u64 = 2043;

pub const SYS_LOAD_TRANSACTION: u64 = 2051;

pub const SYS_LOAD_SCRIPT: u64 = 2052;

pub const SYS_LOAD_TX_HASH: u64 = 2061;

pub const SYS_LOAD_SCRIPT_HASH: u64 = 2062;

pub const SYS_LOAD_CELL: u64 = 2071;

pub const SYS_LOAD_HEADER: u64 = 2072;

pub const SYS_LOAD_INPUT: u64 = 2073;

pub const SYS_LOAD_WITNESS: u64 = 2074;

pub const SYS_LOAD_CELL_BY_FIELD: u64 = 2081;

pub const SYS_LOAD_HEADER_BY_FIELD: u64 = 2082;

pub const SYS_LOAD_INPUT_BY_FIELD: u64 = 2083;

pub const SYS_LOAD_CELL_DATA_AS_CODE: u64 = 2091;

pub const SYS_LOAD_CELL_DATA: u64 = 2092;

pub const SYS_LOAD_BLOCK_EXTENSION: u64 = 2104;

pub const SYS_DEBUG: u64 = 2177;

pub const SYS_SPAWN: u64 = 2601;

pub const SYS_WAIT: u64 = 2602;

pub const SYS_PROCESS_ID: u64 = 2603;

pub const SYS_PIPE: u64 = 2604;

pub const SYS_WRITE: u64 = 2605;

pub const SYS_READ: u64 = 2606;

pub const SYS_INHERITED_FD: u64 = 2607;

pub const SYS_CLOSE: u64 = 2608;

pub const CKB_SUCCESS: u64 = 0;

/// How a script references its code: by data hash (of one of three
/// generations) or by type-script hash.
#[derive(Eq, PartialEq, Structural, Debug, Clone, Copy)]
pub enum ScriptHashType {
    Data,
    Type,
    Data1,
    Data2,
}

/// Which logical collection an indexed item belongs to.
#[derive(Eq, PartialEq, Structural, Debug, Clone, Copy)]
pub enum Source {
    Input,
    Output,
    CellDep,
    HeaderDep,
    GroupInput,
    GroupOutput,
}

impl Source {
    /// The wire value of this source tag.
    pub open spec fn spec_code(self) -> u64 {
        match self {
            Source::Input => 1,
            Source::Output => 2,
            Source::CellDep => 3,
            Source::HeaderDep => 4,
            Source::GroupInput => 0x0100000000000001,
            Source::GroupOutput => 0x0100000000000002,
        }
    }

    /// The wire value of this source tag.
    #[verifier::when_used_as_spec(spec_code)]
    pub fn code(self) -> (r: u64)
        ensures
            r == self.spec_code(),
    {
        match self {
            Source::Input => 1,
            Source::Output => 2,
            Source::CellDep => 3,
            Source::HeaderDep => 4,
            Source::GroupInput => 0x0100000000000001,
            Source::GroupOutput => 0x0100000000000002,
        }
    }
}

/// The fields of a cell that can be loaded one by one.
#[derive(Eq, PartialEq, Structural, Debug, Clone, Copy)]
pub enum CellField {
    Capacity,
    DataHash,
    Lock,
    LockHash,
    Type,
    TypeHash,
    OccupiedCapacity,
}

impl CellField {
    /// The wire value of this field tag.
    pub open spec fn spec_code(self) -> u64 {
        match self {
            CellField::Capacity => 0,
            CellField::DataHash => 1,
            CellField::Lock => 2,
            CellField::LockHash => 3,
            CellField::Type => 4,
            CellField::TypeHash => 5,
            CellField::OccupiedCapacity => 6,
        }
    }

    /// The wire value of this field tag.
    #[verifier::when_used_as_spec(spec_code)]
    pub fn code(self) -> (r: u64)
        ensures
            r == self.spec_code(),
    {
        match self {
            CellField::Capacity => 0,
            CellField::DataHash => 1,
            CellField::Lock => 2,
            CellField::LockHash => 3,
            CellField::Type => 4,
            CellField::TypeHash => 5,
            CellField::OccupiedCapacity => 6,
        }
    }
}

/// The fields of a header that can be loaded one by one.
#[derive(Eq, PartialEq, Structural, Debug, Clone, Copy)]
pub enum HeaderField {
    EpochNumber,
    EpochStartBlockNumber,
    EpochLength,
}

impl HeaderField {
    /// The wire value of this field tag.
    pub open spec fn spec_code(self) -> u64 {
        match self {
            HeaderField::EpochNumber => 0,
            HeaderField::EpochStartBlockNumber => 1,
            HeaderField::EpochLength => 2,
        }
    }

    /// The wire value of this field tag.
    #[verifier::when_used_as_spec(spec_code)]
    pub fn code(self) -> (r: u64)
        ensures
            r == self.spec_code(),
    {
        match self {
            HeaderField::EpochNumber => 0,
            HeaderField::EpochStartBlockNumber => 1,
            HeaderField::EpochLength => 2,
        }
    }
}

/// The fields of an input that can be loaded one by one.
#[derive(Eq, PartialEq, Structural, Debug, Clone, Copy)]
pub enum InputField {
    OutPoint,
    Since,
}

impl InputField {
    /// The wire value of this field tag.
    pub open spec fn spec_code(self) -> u64 {
        match self {
            InputField::OutPoint => 0,
            InputField::Since => 1,
        }
    }

    /// The wire value of this field tag.
    #[verifier::when_used_as_spec(spec_code)]
    pub fn code(self) -> (r: u64)
        ensures
            r == self.spec_code(),
    {
        match self {
            InputField::OutPoint => 0,
            InputField::Since => 1,
        }
    }
}

} // verus!
