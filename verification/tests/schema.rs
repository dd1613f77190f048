use attic::binary_cache::build_trace_key;
use attic::build_trace::BuildTraceEntry;
use attic::schema::{lookup_conditions, upsert_source_condition, KeyValue, OBJECT_TABLE};
use attic::schema::{upsert_conflict_columns, upsert_insert_columns, upsert_update_columns, BuildTraceColumn, ColumnKind, Migration, BUILD_TRACE_TABLE};
use attic::upload::{MAX_DRV_PATH_LEN, MAX_OUTPUT_NAME_LEN, MAX_OUT_PATH_LEN};
use attic::store_path::STORE_PATH_HASH_LEN;

#[test]
fn migration_is_named_after_its_date() {
    assert_eq!(Migration.name(), "m20260817_000001_add_build_trace_table");
    assert_eq!(BUILD_TRACE_TABLE, "build_trace");
}

fn width(c: BuildTraceColumn) -> Option<u32> {
    Migration.columns().into_iter().find(|s| s.column == c).and_then(|s| match s.kind {
        ColumnKind::Text { max_len } => max_len,
        _ => None,
    })
}

#[test]
fn column_widths_match_upload_limits() {
    assert_eq!(width(BuildTraceColumn::DrvPath), Some(MAX_DRV_PATH_LEN as u32));
    assert_eq!(width(BuildTraceColumn::OutputName), Some(MAX_OUTPUT_NAME_LEN as u32));
    assert_eq!(width(BuildTraceColumn::OutPath), Some(MAX_OUT_PATH_LEN as u32));
    assert_eq!(width(BuildTraceColumn::OutPathHash), Some(STORE_PATH_HASH_LEN as u32));
}

#[test]
fn columns_are_created_in_order() {
    let cols = Migration.columns();
    assert_eq!(cols.len(), 9);
    assert_eq!(cols[0].column, BuildTraceColumn::Id);
    assert!(cols[0].primary_key && cols[0].not_null);
    assert_eq!(cols[8].column, BuildTraceColumn::CreatedBy);
    assert!(!cols[8].not_null);
    assert_eq!(cols[7].kind, ColumnKind::TimestampWithTimeZone);
    assert_eq!(cols[6].kind, ColumnKind::Text { max_len: None });
}

#[test]
fn lookup_index_is_unique_over_the_key() {
    let idx = Migration.lookup_index();
    assert_eq!(idx.name, "idx-build-trace-lookup");
    assert!(idx.unique);
    assert_eq!(idx.columns, vec![BuildTraceColumn::CacheId, BuildTraceColumn::DrvPath, BuildTraceColumn::OutputName]);
    assert_eq!(upsert_conflict_columns(), idx.columns);
}

#[test]
fn foreign_key_cascades_from_cache() {
    let fk = Migration.foreign_key();
    assert_eq!(fk.name, "fk_build_trace_cache");
    assert_eq!(fk.from_column, BuildTraceColumn::CacheId);
    assert_eq!((fk.to_table.as_str(), fk.to_column.as_str()), ("cache", "id"));
    assert!(fk.on_delete_cascade);
}

#[test]
fn upsert_keeps_creation_time() {
    let insert = upsert_insert_columns();
    let update = upsert_update_columns();
    assert_eq!(insert.len(), 8);
    assert!(insert.contains(&BuildTraceColumn::CreatedAt));
    assert!(!update.contains(&BuildTraceColumn::CreatedAt));
    assert!(update.iter().all(|c| insert.contains(c)));
    assert_eq!(update, vec![BuildTraceColumn::OutPath, BuildTraceColumn::OutPathHash, BuildTraceColumn::Signatures, BuildTraceColumn::CreatedBy]);
}

#[test]
fn upsert_selects_from_the_object_of_its_hash() {
    let hash = "0c6kzph7l0dcbyfqmb2aajkkbig6smq8";
    let entry = BuildTraceEntry { out_path: format!("{hash}-hello"), signatures: vec![] };
    let pending = attic::upload::begin_upload("x.drv".to_string(), "out.doi", entry).unwrap().check(9, None).unwrap();
    let c = upsert_source_condition(&pending.row);
    assert_eq!(c.table, OBJECT_TABLE);
    assert_eq!(OBJECT_TABLE, "object");
    assert_eq!((c.cache_id_column.as_str(), c.cache_id), ("cache_id", 9));
    assert_eq!((c.hash_column.as_str(), c.store_path_hash.as_str()), ("store_path_hash", hash));
}

#[test]
fn lookup_conditions_follow_the_lookup_index() {
    let key = build_trace_key("x.drv".to_string(), "dev.doi").unwrap();
    let c = lookup_conditions(4, key);
    let columns: Vec<BuildTraceColumn> = c.iter().map(|(col, _)| *col).collect();
    assert_eq!(columns, Migration.lookup_index().columns);
    assert!(matches!(c[0].1, KeyValue::Integer(4)));
    assert!(matches!(&c[1].1, KeyValue::Text(t) if t == "x.drv"));
    assert!(matches!(&c[2].1, KeyValue::Text(t) if t == "dev"));
}
