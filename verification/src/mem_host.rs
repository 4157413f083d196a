//! An in-memory syscall backend.
//!
//! The host holds a fixed transaction context as plain byte buffers and
//! answers every load request from it, with exactly the partial-read
//! semantics of the wire contract. It stands in for the real host in tests
//! and simulations. It serves a single process: the inter-process calls
//! answer with the invalid-descriptor or wait-failure codes, as the root
//! process with no pipes would see.

use vstd::prelude::*;

use crate::ckb_constants::{CellField, HeaderField, InputField, Source};
use crate::syscalls::{load_avail, load_written, LoadKind, SyscallImpls};

verus! {

/// Everything the host holds for one index of one source.
pub struct HostEntry {
    /// The serialized cell.
    pub cell: Vec<u8>,
    /// The cell's data.
    pub data: Vec<u8>,
    /// The capacity field, packed little-endian.
    pub capacity: Vec<u8>,
    /// The occupied-capacity field, packed little-endian.
    pub occupied_capacity: Vec<u8>,
    /// The hash of the cell's data.
    pub data_hash: Vec<u8>,
    /// The serialized lock script.
    pub lock: Vec<u8>,
    /// The hash of the lock script.
    pub lock_hash: Vec<u8>,
    /// The serialized type script, absent for a cell without one.
    pub type_script: Option<Vec<u8>>,
    /// The hash of the type script, absent for a cell without one.
    pub type_hash: Option<Vec<u8>>,
    /// The serialized input.
    pub input: Vec<u8>,
    /// The input's since field, packed little-endian.
    pub since: Vec<u8>,
    /// The input's out point.
    pub out_point: Vec<u8>,
    /// The serialized header.
    pub header: Vec<u8>,
    /// The witness.
    pub witness: Vec<u8>,
    /// The block extension.
    pub block_extension: Vec<u8>,
}

impl HostEntry {
    /// An entry with every buffer empty and no type script.
    pub fn blank() -> (r: HostEntry)
        ensures
            r.cell@.len() == 0,
            r.data@.len() == 0,
            r.type_script is None,
            r.type_hash is None,
    {
        HostEntry {
            cell: Vec::new(),
            data: Vec::new(),
            capacity: Vec::new(),
            occupied_capacity: Vec::new(),
            data_hash: Vec::new(),
            lock: Vec::new(),
            lock_hash: Vec::new(),
            type_script: None,
            type_hash: None,
            input: Vec::new(),
            since: Vec::new(),
            out_point: Vec::new(),
            header: Vec::new(),
            witness: Vec::new(),
            block_extension: Vec::new(),
        }
    }
}

/// The in-memory host: one fixed transaction context.
pub struct MemHost {
    /// The transaction hash.
    pub tx_hash: Vec<u8>,
    /// The hash of the running script.
    pub script_hash: Vec<u8>,
    /// The running script.
    pub script: Vec<u8>,
    /// The whole serialized transaction.
    pub transaction: Vec<u8>,
    /// The entries of the input source.
    pub inputs: Vec<HostEntry>,
    /// The entries of the output source.
    pub outputs: Vec<HostEntry>,
    /// The entries of the dep source.
    pub deps: Vec<HostEntry>,
    /// The entries of the header-dep source.
    pub header_deps: Vec<HostEntry>,
    /// The entries of the group-input source.
    pub group_inputs: Vec<HostEntry>,
    /// The entries of the group-output source.
    pub group_outputs: Vec<HostEntry>,
}

impl MemHost {
    /// The entries of one source.
    pub open spec fn spec_entries(self, source: Source) -> Seq<HostEntry> {
        match source {
            Source::Input => self.inputs@,
            Source::Output => self.outputs@,
            Source::CellDep => self.deps@,
            Source::HeaderDep => self.header_deps@,
            Source::GroupInput => self.group_inputs@,
            Source::GroupOutput => self.group_outputs@,
        }
    }

    /// A host with no data at all.
    pub fn empty() -> (r: MemHost)
        ensures
            forall|source: Source| (#[trigger] r.spec_entries(source)).len() == 0,
            r.tx_hash@.len() == 0,
    {
        MemHost {
            tx_hash: Vec::new(),
            script_hash: Vec::new(),
            script: Vec::new(),
            transaction: Vec::new(),
            inputs: Vec::new(),
            outputs: Vec::new(),
            deps: Vec::new(),
            header_deps: Vec::new(),
            group_inputs: Vec::new(),
            group_outputs: Vec::new(),
        }
    }

    /// The entries of one source.
    fn entries(&self, source: Source) -> (r: &Vec<HostEntry>)
        ensures
            r@ == self.spec_entries(source),
    {
        match source {
            Source::Input => &self.inputs,
            Source::Output => &self.outputs,
            Source::CellDep => &self.deps,
            Source::HeaderDep => &self.header_deps,
            Source::GroupInput => &self.group_inputs,
            Source::GroupOutput => &self.group_outputs,
        }
    }

    /// What the host answers for one load request: the data, or the raw code
    /// 1 for an index past the source and 2 for an absent item.
    pub open spec fn spec_lookup(self, kind: LoadKind) -> Result<Seq<u8>, u64> {
        match kind {
            LoadKind::TxHash => Ok(self.tx_hash@),
            LoadKind::ScriptHash => Ok(self.script_hash@),
            LoadKind::Script => Ok(self.script@),
            LoadKind::Transaction => Ok(self.transaction@),
            LoadKind::Cell { index, source } => {
                if index < self.spec_entries(source).len() {
                    Ok(self.spec_entries(source)[index as int].cell@)
                } else {
                    Err(1u64)
                }
            },
            LoadKind::Input { index, source } => {
                if index < self.spec_entries(source).len() {
                    Ok(self.spec_entries(source)[index as int].input@)
                } else {
                    Err(1u64)
                }
            },
            LoadKind::Header { index, source } => {
                if index < self.spec_entries(source).len() {
                    Ok(self.spec_entries(source)[index as int].header@)
                } else {
                    Err(1u64)
                }
            },
            LoadKind::Witness { index, source } => {
                if index < self.spec_entries(source).len() {
                    Ok(self.spec_entries(source)[index as int].witness@)
                } else {
                    Err(1u64)
                }
            },
            LoadKind::CellData { index, source } => {
                if index < self.spec_entries(source).len() {
                    Ok(self.spec_entries(source)[index as int].data@)
                } else {
                    Err(1u64)
                }
            },
            LoadKind::BlockExtension { index, source } => {
                if index < self.spec_entries(source).len() {
                    Ok(self.spec_entries(source)[index as int].block_extension@)
                } else {
                    Err(1u64)
                }
            },
            LoadKind::CellByField { index, source, field } => {
                if index < self.spec_entries(source).len() {
                    let e = self.spec_entries(source)[index as int];
                    match field {
                        CellField::Capacity => Ok(e.capacity@),
                        CellField::DataHash => Ok(e.data_hash@),
                        CellField::Lock => Ok(e.lock@),
                        CellField::LockHash => Ok(e.lock_hash@),
                        CellField::Type => match e.type_script {
                            Some(v) => Ok(v@),
                            None => Err(2u64),
                        },
                        CellField::TypeHash => match e.type_hash {
                            Some(v) => Ok(v@),
                            None => Err(2u64),
                        },
                        CellField::OccupiedCapacity => Ok(e.occupied_capacity@),
                    }
                } else {
                    Err(1u64)
                }
            },
            LoadKind::HeaderByField { index, source, field } => {
                if index < self.spec_entries(source).len() {
                    Ok(self.spec_entries(source)[index as int].header@)
                } else {
                    Err(1u64)
                }
            },
            LoadKind::InputByField { index, source, field } => {
                if index < self.spec_entries(source).len() {
                    let e = self.spec_entries(source)[index as int];
                    match field {
                        InputField::OutPoint => Ok(e.out_point@),
                        InputField::Since => Ok(e.since@),
                    }
                } else {
                    Err(1u64)
                }
            },
        }
    }

    /// Answer one load request with a reference into the context.
    fn lookup(&self, kind: LoadKind) -> (r: Result<&Vec<u8>, u64>)
        ensures
            match self.spec_lookup(kind) {
                Ok(s) => r matches Ok(v) && v@ == s,
                Err(code) => r == Err::<&Vec<u8>, u64>(code),
            },
    {
        match kind {
            LoadKind::TxHash => Ok(&self.tx_hash),
            LoadKind::ScriptHash => Ok(&self.script_hash),
            LoadKind::Script => Ok(&self.script),
            LoadKind::Transaction => Ok(&self.transaction),
            LoadKind::Cell { index, source } => {
                let es = self.entries(source);
                if index < es.len() {
                    Ok(&es[index].cell)
                } else {
                    Err(1u64)
                }
            },
            LoadKind::Input { index, source } => {
                let es = self.entries(source);
                if index < es.len() {
                    Ok(&es[index].input)
                } else {
                    Err(1u64)
                }
            },
            LoadKind::Header { index, source } => {
                let es = self.entries(source);
                if index < es.len() {
                    Ok(&es[index].header)
                } else {
                    Err(1u64)
                }
            },
            LoadKind::Witness { index, source } => {
                let es = self.entries(source);
                if index < es.len() {
                    Ok(&es[index].witness)
                } else {
                    Err(1u64)
                }
            },
            LoadKind::CellData { index, source } => {
                let es = self.entries(source);
                if index < es.len() {
                    Ok(&es[index].data)
                } else {
                    Err(1u64)
                }
            },
            LoadKind::BlockExtension { index, source } => {
                let es = self.entries(source);
                if index < es.len() {
                    Ok(&es[index].block_extension)
                } else {
                    Err(1u64)
                }
            },
            LoadKind::CellByField { index, source, field } => {
                let es = self.entries(source);
                if index < es.len() {
                    let e = &es[index];
                    match field {
                        CellField::Capacity => Ok(&e.capacity),
                        CellField::DataHash => Ok(&e.data_hash),
                        CellField::Lock => Ok(&e.lock),
                        CellField::LockHash => Ok(&e.lock_hash),
                        CellField::Type => match &e.type_script {
                            Some(v) => Ok(v),
                            None => Err(2u64),
                        },
                        CellField::TypeHash => match &e.type_hash {
                            Some(v) => Ok(v),
                            None => Err(2u64),
                        },
                        CellField::OccupiedCapacity => Ok(&e.occupied_capacity),
                    }
                } else {
                    Err(1u64)
                }
            },
            LoadKind::HeaderByField { index, source, field } => {
                let es = self.entries(source);
                if index < es.len() {
                    Ok(&es[index].header)
                } else {
                    Err(1u64)
                }
            },
            LoadKind::InputByField { index, source, field } => {
                let es = self.entries(source);
                if index < es.len() {
                    let e = &es[index];
                    match field {
                        InputField::OutPoint => Ok(&e.out_point),
                        InputField::Since => Ok(&e.since),
                    }
                } else {
                    Err(1u64)
                }
            },
        }
    }
}

/// Every vector's contents fit in memory.
proof fn lemma_vec_len_bound<T>(v: &Vec<T>)
    ensures
        v@.len() <= usize::MAX,
{
    broadcast use vstd::std_specs::vec::axiom_spec_len;

    assert(vstd::std_specs::vec::spec_vec_len(v) == v@.len());
}

/// Copy `data[offset..]` into the front of `buf`, clamping the offset, and
/// answer how many bytes were available: exactly the host's load semantics.
fn host_copy(buf: &mut Vec<u8>, data: &Vec<u8>, offset: usize) -> (r: usize)
    ensures
        final(buf)@.len() == old(buf)@.len(),
        r == load_avail(data@, offset as nat),
        final(buf)@ == load_written(data@, old(buf)@, offset as nat),
{
    let off = if offset <= data.len() {
        offset
    } else {
        data.len()
    };
    let avail = data.len() - off;
    let n = if buf.len() <= avail {
        buf.len()
    } else {
        avail
    };
    let dlen = data.len();
    let mut i: usize = 0;
    while i < n
        invariant
            i <= n,
            n <= buf@.len(),
            dlen == data@.len(),
            off + n <= dlen,
            buf@.len() == old(buf)@.len(),
            forall|k: int| 0 <= k < i ==> buf@[k] == data@[off + k],
            forall|k: int| i <= k < buf@.len() ==> buf@[k] == old(buf)@[k],
        decreases n - i,
    {
        let b = &mut buf[i];
        *b = data[off + i];
        i = i + 1;
    }
    proof {
        assert(buf@ =~= load_written(data@, old(buf)@, offset as nat));
    }
    avail
}

impl SyscallImpls for MemHost {
    open spec fn source_data(&self, kind: LoadKind) -> Result<Seq<u8>, u64> {
        self.spec_lookup(kind)
    }

    open spec fn cell_count(&self, source: Source) -> nat {
        self.spec_entries(source).len()
    }

    open spec fn spec_process_id(&self) -> u64 {
        0
    }

    proof fn source_data_err_nonzero(&self, kind: LoadKind) {
        match kind {
            LoadKind::TxHash => lemma_vec_len_bound(&self.tx_hash),
            LoadKind::ScriptHash => lemma_vec_len_bound(&self.script_hash),
            LoadKind::Script => lemma_vec_len_bound(&self.script),
            LoadKind::Transaction => lemma_vec_len_bound(&self.transaction),
            LoadKind::Cell { index, source } => {
                if index < self.spec_entries(source).len() {
                    lemma_vec_len_bound(&self.spec_entries(source)[index as int].cell);
                }
            },
            LoadKind::Input { index, source } => {
                if index < self.spec_entries(source).len() {
                    lemma_vec_len_bound(&self.spec_entries(source)[index as int].input);
                }
            },
            LoadKind::Header { index, source } => {
                if index < self.spec_entries(source).len() {
                    lemma_vec_len_bound(&self.spec_entries(source)[index as int].header);
                }
            },
            LoadKind::Witness { index, source } => {
                if index < self.spec_entries(source).len() {
                    lemma_vec_len_bound(&self.spec_entries(source)[index as int].witness);
                }
            },
            LoadKind::CellData { index, source } => {
                if index < self.spec_entries(source).len() {
                    lemma_vec_len_bound(&self.spec_entries(source)[index as int].data);
                }
            },
            LoadKind::BlockExtension { index, source } => {
                if index < self.spec_entries(source).len() {
                    lemma_vec_len_bound(&self.spec_entries(source)[index as int].block_extension);
                }
            },
            LoadKind::CellByField { index, source, field } => {
                if index < self.spec_entries(source).len() {
                    let e = self.spec_entries(source)[index as int];
                    lemma_vec_len_bound(&e.capacity);
                    lemma_vec_len_bound(&e.data_hash);
                    lemma_vec_len_bound(&e.lock);
                    lemma_vec_len_bound(&e.lock_hash);
                    lemma_vec_len_bound(&e.occupied_capacity);
                    match e.type_script {
                        Some(v) => lemma_vec_len_bound(&v),
                        None => (),
                    }
                    match e.type_hash {
                        Some(v) => lemma_vec_len_bound(&v),
                        None => (),
                    }
                }
            },
            LoadKind::HeaderByField { index, source, field } => {
                if index < self.spec_entries(source).len() {
                    lemma_vec_len_bound(&self.spec_entries(source)[index as int].header);
                }
            },
            LoadKind::InputByField { index, source, field } => {
                if index < self.spec_entries(source).len() {
                    let e = self.spec_entries(source)[index as int];
                    lemma_vec_len_bound(&e.out_point);
                    lemma_vec_len_bound(&e.since);
                }
            },
        }
    }

    proof fn cell_scan_laws_hold(&self) {
        assert forall|source: Source| #[trigger] self.cell_count(source) <= usize::MAX by {
            match source {
                Source::Input => lemma_vec_len_bound(&self.inputs),
                Source::Output => lemma_vec_len_bound(&self.outputs),
                Source::CellDep => lemma_vec_len_bound(&self.deps),
                Source::HeaderDep => lemma_vec_len_bound(&self.header_deps),
                Source::GroupInput => lemma_vec_len_bound(&self.group_inputs),
                Source::GroupOutput => lemma_vec_len_bound(&self.group_outputs),
            }
        }
    }

    fn load(&self, buf: &mut Vec<u8>, offset: usize, kind: LoadKind) -> (r: (u64, usize)) {
        match self.lookup(kind) {
            Ok(data) => {
                let avail = host_copy(buf, data, offset);
                (0u64, avail)
            },
            Err(code) => (code, buf.len()),
        }
    }

    fn load_cell_code(
        &self,
        buf: &mut Vec<u8>,
        content_offset: usize,
        content_size: usize,
        index: usize,
        source: Source,
    ) -> (r: u64) {
        let es = self.entries(source);
        if index < es.len() {
            let data = &es[index].data;
            let _ = host_copy(buf, data, content_offset);
            0
        } else {
            1
        }
    }

    fn read(&mut self, fd: u64, buf: &mut Vec<u8>) -> (r: (u64, usize)) {
        (6u64, 0)
    }

    fn write(&mut self, fd: u64, buf: &Vec<u8>) -> (r: (u64, usize)) {
        (6u64, 0)
    }

    fn wait(&mut self, pid: u64) -> (r: (u64, i8)) {
        (5u64, 0)
    }

    fn pipe(&mut self) -> (r: (u64, u64, u64)) {
        (9u64, 0, 0)
    }

    fn close(&mut self, fd: u64) -> (r: u64) {
        6u64
    }

    fn spawn(
        &mut self,
        index: usize,
        source: Source,
        place: usize,
        bounds: usize,
        argv: &Vec<Vec<u8>>,
        inherited_fds: &Vec<u64>,
    ) -> (r: (u64, u64)) {
        (8u64, 0)
    }

    fn inherited_fds(&mut self, fds: &mut Vec<u64>) -> (r: (u64, usize)) {
        (0u64, 0)
    }

    fn process_id(&self) -> (r: u64) {
        0
    }

    fn current_cycles(&self) -> u64 {
        0
    }

    fn vm_version(&self) -> u64 {
        2
    }

    fn exec(
        &mut self,
        index: usize,
        source: Source,
        place: usize,
        bounds: usize,
        argv: &Vec<Vec<u8>>,
    ) -> (r: u64) {
        1
    }

    fn debug(&self, msg: &Vec<u8>) {
    }

    fn exit(&mut self, code: i8) {
    }
}

} // verus!
