use memstore::array::{DataChunk, DataChunkRef};
use memstore::catalog::{ColumnCatalog, ColumnDesc, TableRefId};
use memstore::storage::{AccessMode, InMemoryTable, InMemoryTableInner, StorageError};
use memstore::types::{DataType, DataValue};
use std::collections::HashSet;

fn id_name_catalog() -> Vec<ColumnCatalog> {
    vec![
        ColumnCatalog::new(0, ColumnDesc::new("id".to_string(), DataType::Int32, false)),
        ColumnCatalog::new(1, ColumnDesc::new("name".to_string(), DataType::String, false)),
    ]
}

fn chunk_a() -> DataChunk {
    DataChunk::new(vec![
        vec![DataValue::Int32(1), DataValue::Int32(2)],
        vec![DataValue::String("a".to_string()), DataValue::String("b".to_string())],
    ])
}

fn chunk_b() -> DataChunk {
    DataChunk::new(vec![
        vec![DataValue::Int32(3)],
        vec![DataValue::String("c".to_string())],
    ])
}

#[test]
fn append_keeps_order() {
    let mut inner = InMemoryTableInner::new(&id_name_catalog());
    assert!(inner.append(chunk_a()).is_ok());
    assert!(inner.append(chunk_b()).is_ok());
    let chunks = inner.get_all_chunks();
    assert_eq!(chunks.len(), 2);
    assert_eq!(*chunks[0], chunk_a());
    assert_eq!(*chunks[1], chunk_b());
}

#[test]
fn delete_is_idempotent() {
    let mut inner = InMemoryTableInner::new(&id_name_catalog());
    assert!(inner.delete(7).is_ok());
    let once = inner.get_all_deleted_rows();
    assert!(inner.delete(7).is_ok());
    let twice = inner.get_all_deleted_rows();
    assert_eq!(once, twice);
    let mut expected = HashSet::new();
    expected.insert(7usize);
    assert_eq!(twice, expected);
}

#[test]
fn snapshot_is_prefix_of_later_snapshot() {
    let mut inner = InMemoryTableInner::new(&id_name_catalog());
    assert!(inner.append(chunk_a()).is_ok());
    let early: Vec<DataChunkRef> = inner.get_all_chunks();
    assert!(inner.append(chunk_b()).is_ok());
    assert!(inner.delete(0).is_ok());
    let late: Vec<DataChunkRef> = inner.get_all_chunks();
    assert!(early.len() <= late.len());
    for (e, l) in early.iter().zip(late.iter()) {
        assert_eq!(**e, **l);
    }
}

#[test]
fn unknown_column_rejected_without_partial_result() {
    let inner = InMemoryTableInner::new(&id_name_catalog());
    let r = inner.column_descs(&[0, 99]);
    assert_eq!(r, Err(StorageError::InvalidColumn(99)));
    let ok = inner.column_descs(&[1, 0]).unwrap();
    assert_eq!(ok.len(), 2);
    assert_eq!(ok[0].name, "name");
    assert_eq!(ok[0].datatype, DataType::String);
    assert_eq!(ok[1].name, "id");
    assert_eq!(ok[1].datatype, DataType::Int32);
}

#[test]
fn table_handle_clones_share_state() {
    let table = InMemoryTable::new(TableRefId::new(0, 0, 1), &id_name_catalog());
    let other = table.clone();
    assert_eq!(table.table_id(), other.table_id());
    let writer = table.write();
    assert!(writer.append(chunk_a()).is_ok());
    let reader = other.read();
    assert_eq!(reader.get_all_chunks().len(), 1);
}

#[test]
fn read_session_cannot_mutate() {
    let table = InMemoryTable::new(TableRefId::new(0, 0, 2), &id_name_catalog());
    let reader = table.read();
    assert_eq!(reader.mode(), AccessMode::Read);
    assert_eq!(reader.append(chunk_a()), Err(StorageError::InvalidTransactionMode));
    assert_eq!(reader.delete(0), Err(StorageError::InvalidTransactionMode));
    assert_eq!(reader.get_all_chunks().len(), 0);
    assert!(reader.get_all_deleted_rows().is_empty());
}

#[test]
fn update_session_can_mutate() {
    let table = InMemoryTable::new(TableRefId::new(0, 0, 3), &id_name_catalog());
    let tx = table.update();
    assert_eq!(tx.mode(), AccessMode::Update);
    assert!(tx.append(chunk_a()).is_ok());
    assert!(tx.delete(1).is_ok());
    assert!(tx.commit().is_ok());
    let reader = table.read();
    assert_eq!(reader.get_all_chunks().len(), 1);
    assert!(reader.get_all_deleted_rows().contains(&1));
}

#[test]
fn concurrent_readers_interleave_freely() {
    let table = InMemoryTable::new(TableRefId::new(0, 0, 4), &id_name_catalog());
    let writer = table.write();
    assert!(writer.append(chunk_a()).is_ok());
    let readers: Vec<_> = (0..4).map(|_| table.read()).collect();
    // All sessions are open at once; their per-call acquisitions are all
    // shared, so every call completes regardless of the interleaving.
    for reader in &readers {
        assert_eq!(reader.get_all_chunks().len(), 1);
    }
    for reader in &readers {
        assert!(reader.get_all_deleted_rows().is_empty());
    }
}

#[test]
fn two_writers_appends_land_whole() {
    let table = InMemoryTable::new(TableRefId::new(0, 0, 5), &id_name_catalog());
    let w1 = table.write();
    let w2 = table.write();
    assert!(w1.append(chunk_a()).is_ok());
    assert!(w2.append(chunk_b()).is_ok());
    let chunks = table.read().get_all_chunks();
    assert_eq!(chunks.len(), 2);
    // Both chunks are present, fully and distinctly, in some total order.
    let both = (*chunks[0] == chunk_a() && *chunks[1] == chunk_b())
        || (*chunks[0] == chunk_b() && *chunks[1] == chunk_a());
    assert!(both);
}

#[test]
fn table_column_descs_under_shared_lock() {
    let table = InMemoryTable::new(TableRefId::new(0, 0, 6), &id_name_catalog());
    let descs = table.column_descs(&[0, 1]).unwrap();
    assert_eq!(descs[0].name, "id");
    assert_eq!(descs[1].name, "name");
    assert_eq!(table.column_descs(&[2]), Err(StorageError::InvalidColumn(2)));
}

#[test]
fn end_to_end_scan_combines_chunks_and_tombstones() {
    let table = InMemoryTable::new(TableRefId::new(0, 0, 7), &id_name_catalog());
    let tx = table.write();
    assert!(tx.append(chunk_a()).is_ok());
    assert!(tx.append(chunk_b()).is_ok());
    assert!(tx.delete(1).is_ok());
    assert!(tx.commit().is_ok());

    let reader = table.read();
    let chunks = reader.get_all_chunks();
    assert_eq!(chunks.len(), 2);
    assert_eq!(*chunks[0], chunk_a());
    assert_eq!(*chunks[1], chunk_b());
    let deleted = reader.get_all_deleted_rows();
    let mut expected = HashSet::new();
    expected.insert(1usize);
    assert_eq!(deleted, expected);

    // Liveness is computed by the consumer: a row is visible exactly when
    // its identifier is not in the tombstone set.
    let mut live: Vec<(DataValue, DataValue)> = Vec::new();
    let mut row_id = 0usize;
    for chunk in &chunks {
        for row in 0..chunk.cardinality() {
            if !deleted.contains(&row_id) {
                live.push((chunk.value_at(0, row), chunk.value_at(1, row)));
            }
            row_id += 1;
        }
    }
    assert_eq!(
        live,
        vec![
            (DataValue::Int32(1), DataValue::String("a".to_string())),
            (DataValue::Int32(3), DataValue::String("c".to_string())),
        ]
    );
}

#[test]
fn chunk_accessors() {
    let c = chunk_a();
    assert_eq!(c.cardinality(), 2);
    assert_eq!(c.column_count(), 2);
    assert_eq!(c.value_at(1, 1), DataValue::String("b".to_string()));
    let empty = DataChunk::new(vec![]);
    assert_eq!(empty.cardinality(), 0);
    assert_eq!(empty.column_count(), 0);
}

#[test]
fn later_catalog_entry_supersedes_earlier() {
    let cols = vec![
        ColumnCatalog::new(0, ColumnDesc::new("old".to_string(), DataType::Bool, false)),
        ColumnCatalog::new(0, ColumnDesc::new("new".to_string(), DataType::Int32, true)),
    ];
    let inner = InMemoryTableInner::new(&cols);
    let descs = inner.column_descs(&[0]).unwrap();
    assert_eq!(descs[0].name, "new");
    assert_eq!(descs[0].datatype, DataType::Int32);
    assert!(descs[0].is_nullable);
}
