//! The transactional in-memory table.
//!
//! [`InMemoryTableInner`] owns the table's state — the append-ordered chunk
//! list, the tombstone set and the column map — and carries the exact
//! functional contracts. [`InMemoryTable`] is a cheaply cloneable handle
//! wrapping that state in a reader/writer lock whose invariant pins the
//! column map for the table's lifetime. [`InMemoryTransaction`] mediates
//! access in a declared mode: readers run concurrently, writers exclude
//! one another, and every call acquires the lock for its own duration only.

use vstd::prelude::*;
use vstd::seq_lib::*;
use vstd::rwlock::{RwLock, RwLockPredicate};
use std::collections::HashMap;
use std::collections::HashSet;
use std::sync::Arc;
use crate::array::{DataChunk, DataChunkRef};
use crate::catalog::{ColumnCatalog, ColumnDesc, ColumnId, TableRefId};

verus! {

broadcast use vstd::std_specs::hash::group_hash_axioms;

/// A storage-level failure.
///
/// Acquiring the protecting section cannot itself fail here: the table's
/// lock is a verified primitive with no poisoned state, so no
/// acquisition-failure variant is needed.
#[derive(Clone, Copy, Debug, PartialEq, Eq, Structural)]
pub enum StorageError {
    /// A requested column identifier is absent from the table's map.
    InvalidColumn(ColumnId),
    /// A mutating operation was invoked on a read-only session.
    InvalidTransactionMode,
}

pub type StorageResult<T> = Result<T, StorageError>;

/// The chunks a list of shared references points at, in list order.
pub open spec fn chunk_seq(s: Seq<DataChunkRef>) -> Seq<DataChunk> {
    Seq::new(s.len(), |i: int| *s[i])
}

/// The column map a catalog builds: entries are added in order, a later
/// entry for the same identifier superseding an earlier one.
pub open spec fn catalog_map(cols: Seq<ColumnCatalog>) -> Map<ColumnId, ColumnDesc>
    decreases cols.len(),
{
    if cols.len() == 0 {
        Map::empty()
    } else {
        catalog_map(cols.drop_last()).insert(cols.last().spec_id(), cols.last().spec_desc())
    }
}

/// The descriptors for `ids` under the map `m`, in request order, or the
/// first unknown identifier; no partial list is ever produced.
pub open spec fn spec_column_descs(m: Map<ColumnId, ColumnDesc>, ids: Seq<ColumnId>) -> Result<
    Seq<ColumnDesc>,
    StorageError,
>
    decreases ids.len(),
{
    if ids.len() == 0 {
        Ok(Seq::empty())
    } else if !m.contains_key(ids[0]) {
        Err(StorageError::InvalidColumn(ids[0]))
    } else {
        match spec_column_descs(m, ids.drop_first()) {
            Ok(rest) => Ok(seq![m[ids[0]]] + rest),
            Err(e) => Err(e),
        }
    }
}

/// The mathematical state of one table: its chunk sequence and tombstones.
pub struct TableState {
    pub chunks: Seq<DataChunk>,
    pub deleted: Set<usize>,
}

/// One storage mutation.
pub enum StorageOp {
    Append(DataChunk),
    Delete(usize),
}

/// The state reached by applying one mutation.
pub open spec fn apply_op(t: TableState, op: StorageOp) -> TableState {
    match op {
        StorageOp::Append(c) => TableState { chunks: t.chunks.push(c), deleted: t.deleted },
        StorageOp::Delete(r) => TableState { chunks: t.chunks, deleted: t.deleted.insert(r) },
    }
}

/// The state reached by applying a sequence of mutations, first op first.
pub open spec fn apply_ops(t: TableState, ops: Seq<StorageOp>) -> TableState
    decreases ops.len(),
{
    if ops.len() == 0 {
        t
    } else {
        apply_ops(apply_op(t, ops[0]), ops.drop_first())
    }
}

/// The table's private state: the append-ordered chunk list, the tombstone
/// set and the column map, always mutated together under one exclusive
/// acquisition of the protecting lock.
pub struct InMemoryTableInner {
    chunks: Vec<DataChunkRef>,
    deleted_rows: HashSet<usize>,
    columns: HashMap<ColumnId, ColumnDesc>,
}

impl InMemoryTableInner {
    /// The chunks appended so far, in append order.
    pub closed spec fn spec_chunks(self) -> Seq<DataChunk> {
        chunk_seq(self.chunks@)
    }

    /// The tombstone set: identifiers of logically deleted rows.
    pub closed spec fn spec_deleted(self) -> Set<usize> {
        self.deleted_rows@
    }

    /// The column map, fixed at construction.
    pub closed spec fn spec_columns(self) -> Map<ColumnId, ColumnDesc> {
        self.columns@
    }

    /// This table's state, projected to the mathematical model.
    pub open spec fn state(self) -> TableState {
        TableState { chunks: self.spec_chunks(), deleted: self.spec_deleted() }
    }

    /// A fresh table: no chunks, no tombstones, the column map seeded from
    /// the given catalog entries.
    pub fn new(columns: &[ColumnCatalog]) -> (r: Self)
        ensures
            r.spec_chunks() == Seq::<DataChunk>::empty(),
            r.spec_deleted() == Set::<usize>::empty(),
            r.spec_columns() == catalog_map(columns@),
    {
        let mut map: HashMap<ColumnId, ColumnDesc> = HashMap::new();
        let n: usize = columns.len();
        let mut i: usize = 0;
        while i < n
            invariant
                i <= n,
                n == columns@.len(),
                map@ == catalog_map(columns@.take(i as int)),
            decreases n - i,
        {
            let col = &columns[i];
            map.insert(col.id(), col.desc().clone());
            proof {
                assert(columns@.take(i + 1).drop_last() =~= columns@.take(i as int));
                assert(columns@.take(i + 1).last() == columns@[i as int]);
            }
            i = i + 1;
        }
        proof {
            assert(columns@.take(n as int) =~= columns@);
        }
        let r = InMemoryTableInner { chunks: Vec::new(), deleted_rows: HashSet::new(), columns: map };
        proof {
            assert(r.spec_chunks() =~= Seq::<DataChunk>::empty());
        }
        r
    }

    /// Push `chunk` onto the end of the chunk sequence. Never fails, and
    /// never validates the chunk: shape conformance is the caller's task.
    pub fn append(&mut self, chunk: DataChunk) -> (r: StorageResult<()>)
        ensures
            r is Ok,
            final(self).spec_chunks() == old(self).spec_chunks().push(chunk),
            final(self).spec_deleted() == old(self).spec_deleted(),
            final(self).spec_columns() == old(self).spec_columns(),
            final(self).state() == apply_op(old(self).state(), StorageOp::Append(chunk)),
    {
        let ghost c = chunk;
        let chunk_ref = Arc::new(chunk);
        let ghost cr = chunk_ref;
        self.chunks.push(chunk_ref);
        proof {
            assert(*cr == c);
            assert(chunk_seq(self.chunks@) =~= chunk_seq(old(self).chunks@).push(c));
        }
        Ok(())
    }

    /// Insert `row_id` into the tombstone set. Idempotent: deleting an
    /// already-deleted row succeeds and leaves the set unchanged; deleting
    /// an identifier that no appended row carries is accepted as a no-op
    /// for future scans.
    pub fn delete(&mut self, row_id: usize) -> (r: StorageResult<()>)
        ensures
            r is Ok,
            final(self).spec_deleted() == old(self).spec_deleted().insert(row_id),
            final(self).spec_chunks() == old(self).spec_chunks(),
            final(self).spec_columns() == old(self).spec_columns(),
            final(self).state() == apply_op(old(self).state(), StorageOp::Delete(row_id)),
    {
        let _present = self.deleted_rows.insert(row_id);
        Ok(())
    }

    /// The full chunk sequence, shared by reference, in append order: a
    /// snapshot at the moment of the call.
    pub fn get_all_chunks(&self) -> (r: Vec<DataChunkRef>)
        ensures
            chunk_seq(r@) == self.spec_chunks(),
    {
        let n: usize = self.chunks.len();
        let mut out: Vec<DataChunkRef> = Vec::new();
        let mut i: usize = 0;
        while i < n
            invariant
                i <= n,
                n == self.chunks@.len(),
                out@.len() == i,
                forall|k: int| 0 <= k < i ==> out@[k] == self.chunks@[k],
            decreases n - i,
        {
            let c: DataChunkRef = self.chunks[i].clone();
            out.push(c);
            i = i + 1;
        }
        proof {
            assert(out@ =~= self.chunks@);
        }
        out
    }

    /// The full tombstone set as of the call.
    pub fn get_all_deleted_rows(&self) -> (r: HashSet<usize>)
        ensures
            r@ == self.spec_deleted(),
    {
        clone_row_set(&self.deleted_rows)
    }

    /// The descriptors for `ids`, in request order; fails with the first
    /// unknown identifier, returning no partial list.
    pub fn column_descs(&self, ids: &[ColumnId]) -> (r: StorageResult<Vec<ColumnDesc>>)
        ensures
            match r {
                Ok(v) => spec_column_descs(self.spec_columns(), ids@) == Ok::<
                    Seq<ColumnDesc>,
                    StorageError,
                >(v@),
                Err(e) => spec_column_descs(self.spec_columns(), ids@) == Err::<
                    Seq<ColumnDesc>,
                    StorageError,
                >(e),
            },
    {
        let n: usize = ids.len();
        let mut out: Vec<ColumnDesc> = Vec::new();
        let mut i: usize = 0;
        while i < n
            invariant
                i <= n,
                n == ids@.len(),
                out@.len() == i,
                forall|k: int| 0 <= k < i ==> self.spec_columns().contains_key(ids@[k]),
                forall|k: int|
                    0 <= k < i ==> #[trigger] out@[k] == self.spec_columns()[ids@[k]],
            decreases n - i,
        {
            let id: ColumnId = ids[i];
            match self.columns.get(&id) {
                Some(desc) => {
                    out.push(desc.clone());
                },
                None => {
                    proof {
                        lemma_column_descs_err(self.spec_columns(), ids@, i as int);
                    }
                    return Err(StorageError::InvalidColumn(id));
                },
            }
            i = i + 1;
        }
        proof {
            lemma_column_descs_ok(self.spec_columns(), ids@);
            let s = spec_column_descs(self.spec_columns(), ids@)->Ok_0;
            assert(out@ =~= s);
        }
        Ok(out)
    }
}

/// Relies on `HashSet::clone`: the clone contains exactly the keys of the
/// original set.
#[verifier::external_body]
fn clone_row_set(s: &HashSet<usize>) -> (r: HashSet<usize>)
    ensures
        r@ == s@,
{
    s.clone()
}

/// The lock invariant of a table: the column map, chosen at construction,
/// never changes, whatever sequence of appends and deletes runs.
pub struct TableInv {
    pub columns: Map<ColumnId, ColumnDesc>,
}

impl RwLockPredicate<InMemoryTableInner> for TableInv {
    open spec fn inv(self, v: InMemoryTableInner) -> bool {
        v.spec_columns() == self.columns
    }
}

pub type InMemoryTableInnerRef = Arc<RwLock<InMemoryTableInner, TableInv>>;

/// A table in the in-memory engine. This handle can be freely cloned: it
/// only carries the table's identity and a shared reference to the
/// lock-protected state.
pub struct InMemoryTable {
    table_ref_id: TableRefId,
    inner: InMemoryTableInnerRef,
}

impl Clone for InMemoryTable {
    fn clone(&self) -> (r: Self)
        ensures
            r == *self,
    {
        InMemoryTable { table_ref_id: self.table_ref_id, inner: self.inner.clone() }
    }
}

impl InMemoryTable {
    /// This table's stable identity.
    pub closed spec fn spec_table_id(self) -> TableRefId {
        self.table_ref_id
    }

    /// The column map fixed when the table was created.
    pub closed spec fn spec_columns(self) -> Map<ColumnId, ColumnDesc> {
        (*self.inner).pred().columns
    }

    /// True of every state the table's lock can hold.
    pub closed spec fn wf_state(self, v: InMemoryTableInner) -> bool {
        (*self.inner).inv(v)
    }

    /// Any state the lock holds carries this table's column map.
    pub proof fn lemma_wf_state_columns(self, v: InMemoryTableInner)
        requires
            self.wf_state(v),
        ensures
            v.spec_columns() == self.spec_columns(),
    {
    }

    /// A fresh table seeded from the given catalog, with an empty chunk
    /// sequence and an empty tombstone set.
    pub fn new(table_ref_id: TableRefId, columns: &[ColumnCatalog]) -> (r: Self)
        ensures
            r.spec_table_id() == table_ref_id,
            r.spec_columns() == catalog_map(columns@),
    {
        let inner = InMemoryTableInner::new(columns);
        let ghost cols = inner.spec_columns();
        let lock = RwLock::<InMemoryTableInner, TableInv>::new(
            inner,
            Ghost(TableInv { columns: cols }),
        );
        InMemoryTable { table_ref_id, inner: Arc::new(lock) }
    }

    pub fn table_id(&self) -> (r: TableRefId)
        ensures
            r == self.spec_table_id(),
    {
        self.table_ref_id
    }

    /// The descriptors for `ids` under a shared acquisition of the lock;
    /// fails with the first unknown identifier, returning no partial list.
    pub fn column_descs(&self, ids: &[ColumnId]) -> (r: StorageResult<Vec<ColumnDesc>>)
        ensures
            match r {
                Ok(v) => spec_column_descs(self.spec_columns(), ids@) == Ok::<
                    Seq<ColumnDesc>,
                    StorageError,
                >(v@),
                Err(e) => spec_column_descs(self.spec_columns(), ids@) == Err::<
                    Seq<ColumnDesc>,
                    StorageError,
                >(e),
            },
    {
        let handle = self.inner.acquire_read();
        let r = handle.borrow().column_descs(ids);
        handle.release_read();
        r
    }

    /// Start a read-mode session.
    pub fn read(&self) -> (tx: InMemoryTransaction)
        ensures
            tx.spec_table() == *self,
            tx.spec_mode() == AccessMode::Read,
    {
        InMemoryTransaction::start(self, AccessMode::Read)
    }

    /// Start a write-mode session.
    pub fn write(&self) -> (tx: InMemoryTransaction)
        ensures
            tx.spec_table() == *self,
            tx.spec_mode() == AccessMode::Write,
    {
        InMemoryTransaction::start(self, AccessMode::Write)
    }

    /// Start an update-mode session.
    pub fn update(&self) -> (tx: InMemoryTransaction)
        ensures
            tx.spec_table() == *self,
            tx.spec_mode() == AccessMode::Update,
    {
        InMemoryTransaction::start(self, AccessMode::Update)
    }
}

/// The access mode a session was started in.
#[derive(Clone, Copy, Debug, PartialEq, Eq, Structural)]
pub enum AccessMode {
    Read,
    Write,
    Update,
}

/// A session bound to one table. Mutating calls are legal for write and
/// update sessions only; enumeration is legal for all sessions. Each call
/// acquires the table's lock for its own duration, so each call is atomic,
/// but two calls of one session are not atomic as a pair. Dropping a
/// session releases its claim and never undoes applied mutations.
pub struct InMemoryTransaction {
    table: InMemoryTable,
    mode: AccessMode,
}

impl InMemoryTransaction {
    /// The table this session is bound to.
    pub closed spec fn spec_table(self) -> InMemoryTable {
        self.table
    }

    /// The mode this session was started in.
    pub closed spec fn spec_mode(self) -> AccessMode {
        self.mode
    }

    /// True when this session may append and delete.
    pub open spec fn can_write(self) -> bool {
        self.spec_mode() != AccessMode::Read
    }

    /// Start a session on `table` in `mode`.
    pub fn start(table: &InMemoryTable, mode: AccessMode) -> (tx: Self)
        ensures
            tx.spec_table() == *table,
            tx.spec_mode() == mode,
    {
        InMemoryTransaction { table: table.clone(), mode }
    }

    pub fn mode(&self) -> (r: AccessMode)
        ensures
            r == self.spec_mode(),
    {
        self.mode
    }

    /// Append `chunk` under an exclusive acquisition of the table's lock.
    /// Succeeds exactly when this session may write; a read session fails
    /// fast with no mutation applied.
    pub fn append(&self, chunk: DataChunk) -> (r: StorageResult<()>)
        ensures
            r is Ok <==> self.can_write(),
            r is Err ==> r->Err_0 == StorageError::InvalidTransactionMode,
    {
        match self.mode {
            AccessMode::Read => Err(StorageError::InvalidTransactionMode),
            _ => {
                let (mut inner, handle) = self.table.inner.acquire_write();
                let r = inner.append(chunk);
                handle.release_write(inner);
                r
            },
        }
    }

    /// Mark the row `row_id` deleted under an exclusive acquisition of the
    /// table's lock. Succeeds exactly when this session may write; a read
    /// session fails fast with no mutation applied.
    pub fn delete(&self, row_id: usize) -> (r: StorageResult<()>)
        ensures
            r is Ok <==> self.can_write(),
            r is Err ==> r->Err_0 == StorageError::InvalidTransactionMode,
    {
        match self.mode {
            AccessMode::Read => Err(StorageError::InvalidTransactionMode),
            _ => {
                let (mut inner, handle) = self.table.inner.acquire_write();
                let r = inner.delete(row_id);
                handle.release_write(inner);
                r
            },
        }
    }

    /// The chunk sequence of a state the table's lock held at the moment
    /// of the call: a snapshot, legal in every mode.
    pub fn get_all_chunks(&self) -> (r: Vec<DataChunkRef>)
        ensures
            exists|v: InMemoryTableInner|
                #[trigger] self.spec_table().wf_state(v) && chunk_seq(r@) == v.spec_chunks(),
    {
        let handle = self.table.inner.acquire_read();
        let r = handle.borrow().get_all_chunks();
        proof {
            assert(self.spec_table().wf_state(handle.view()));
        }
        handle.release_read();
        r
    }

    /// The tombstone set of a state the table's lock held at the moment
    /// of the call: a snapshot, legal in every mode.
    pub fn get_all_deleted_rows(&self) -> (r: HashSet<usize>)
        ensures
            exists|v: InMemoryTableInner|
                #[trigger] self.spec_table().wf_state(v) && r@ == v.spec_deleted(),
    {
        let handle = self.table.inner.acquire_read();
        let r = handle.borrow().get_all_deleted_rows();
        proof {
            assert(self.spec_table().wf_state(handle.view()));
        }
        handle.release_read();
        r
    }

    /// End the session. Mutations already applied have taken effect on the
    /// table and are not undone; ending only releases the session's claim.
    pub fn commit(self) -> (r: StorageResult<()>)
        ensures
            r is Ok,
    {
        Ok(())
    }
}

/// Law: a sequence of appends extends the chunk sequence by exactly the
/// appended chunks, in order, omitting and reordering none.
pub proof fn lemma_append_monotonic(t: TableState, chunks: Seq<DataChunk>)
    ensures
        apply_ops(t, chunks.map_values(|c: DataChunk| StorageOp::Append(c))).chunks == t.chunks
            + chunks,
    decreases chunks.len(),
{
    let ops = chunks.map_values(|c: DataChunk| StorageOp::Append(c));
    if chunks.len() == 0 {
        assert(t.chunks + chunks =~= t.chunks);
    } else {
        let t1 = apply_op(t, ops[0]);
        assert(ops.drop_first() =~= chunks.drop_first().map_values(
            |c: DataChunk| StorageOp::Append(c),
        ));
        lemma_append_monotonic(t1, chunks.drop_first());
        assert(t.chunks.push(chunks[0]) + chunks.drop_first() =~= t.chunks + chunks);
    }
}

/// Law: deleting a row identifier twice in sequence yields the same state
/// as deleting it once.
pub proof fn lemma_delete_idempotent(t: TableState, row_id: usize)
    ensures
        apply_op(apply_op(t, StorageOp::Delete(row_id)), StorageOp::Delete(row_id)) == apply_op(
            t,
            StorageOp::Delete(row_id),
        ),
{
    assert(t.deleted.insert(row_id).insert(row_id) =~= t.deleted.insert(row_id));
}

/// Law: whatever mutations later run, a chunk sequence once observed is a
/// prefix of every later one — no observed chunk ever disappears or moves.
pub proof fn lemma_snapshot_prefix(t: TableState, ops: Seq<StorageOp>)
    ensures
        t.chunks.is_prefix_of(apply_ops(t, ops).chunks),
    decreases ops.len(),
{
    if ops.len() == 0 {
        assert(t.chunks =~= apply_ops(t, ops).chunks.take(t.chunks.len() as int));
    } else {
        let t1 = apply_op(t, ops[0]);
        lemma_snapshot_prefix(t1, ops.drop_first());
        let fin = apply_ops(t, ops).chunks;
        assert(t.chunks =~= fin.take(t.chunks.len() as int));
    }
}

/// Law: two appends land whole, in one of the two call orders; in either
/// order the resulting sequence contains both chunks, fully and distinctly.
pub proof fn lemma_append_exclusive(t: TableState, c1: DataChunk, c2: DataChunk)
    ensures
        apply_ops(t, seq![StorageOp::Append(c1), StorageOp::Append(c2)]).chunks == t.chunks.push(
            c1,
        ).push(c2),
        apply_ops(t, seq![StorageOp::Append(c2), StorageOp::Append(c1)]).chunks == t.chunks.push(
            c2,
        ).push(c1),
        apply_ops(t, seq![StorageOp::Append(c1), StorageOp::Append(c2)]).chunks.contains(c1),
        apply_ops(t, seq![StorageOp::Append(c1), StorageOp::Append(c2)]).chunks.contains(c2),
{
    lemma_apply_two(t, StorageOp::Append(c1), StorageOp::Append(c2));
    lemma_apply_two(t, StorageOp::Append(c2), StorageOp::Append(c1));
    let p = apply_ops(t, seq![StorageOp::Append(c1), StorageOp::Append(c2)]).chunks;
    assert(p[t.chunks.len() as int] == c1);
    assert(p[t.chunks.len() as int + 1] == c2);
}

/// Applying two mutations in sequence is applying the first, then the
/// second.
proof fn lemma_apply_two(t: TableState, a: StorageOp, b: StorageOp)
    ensures
        apply_ops(t, seq![a, b]) == apply_op(apply_op(t, a), b),
{
    let ops = seq![a, b];
    let t1 = apply_op(t, a);
    assert(ops[0] == a);
    assert(ops.drop_first() =~= seq![b]);
    assert(apply_ops(t, ops) == apply_ops(t1, seq![b]));
    assert(seq![b][0] == b);
    assert(seq![b].drop_first() =~= Seq::<StorageOp>::empty());
    assert(apply_ops(t1, seq![b]) == apply_ops(apply_op(t1, b), seq![b].drop_first()));
}

/// When every requested identifier up to `i` is known but `ids[i]` is not,
/// the lookup fails naming exactly `ids[i]`.
proof fn lemma_column_descs_err(m: Map<ColumnId, ColumnDesc>, ids: Seq<ColumnId>, i: int)
    requires
        0 <= i < ids.len(),
        !m.contains_key(ids[i]),
        forall|k: int| 0 <= k < i ==> m.contains_key(ids[k]),
    ensures
        spec_column_descs(m, ids) == Err::<Seq<ColumnDesc>, StorageError>(
            StorageError::InvalidColumn(ids[i]),
        ),
    decreases i,
{
    if i > 0 {
        lemma_column_descs_err(m, ids.drop_first(), i - 1);
    }
}

/// When every requested identifier is known, the lookup succeeds and
/// returns each identifier's descriptor in request order.
proof fn lemma_column_descs_ok(m: Map<ColumnId, ColumnDesc>, ids: Seq<ColumnId>)
    requires
        forall|k: int| 0 <= k < ids.len() ==> m.contains_key(ids[k]),
    ensures
        spec_column_descs(m, ids) is Ok,
        spec_column_descs(m, ids)->Ok_0.len() == ids.len(),
        forall|k: int|
            0 <= k < ids.len() ==> #[trigger] spec_column_descs(m, ids)->Ok_0[k] == m[ids[k]],
    decreases ids.len(),
{
    if ids.len() > 0 {
        lemma_column_descs_ok(m, ids.drop_first());
    }
}

} // verus!
