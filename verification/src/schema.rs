//! The `build_trace` table: its columns, the migration that creates it, and
//! the upsert that build trace uploads run against it.

use vstd::prelude::*;
use crate::store_path::STORE_PATH_HASH_LEN;
use crate::text::utf8_len;
use crate::binary_cache::BuildTraceKey;
use crate::upload::{BuildTraceRow, upload_check, hash_of_out_path, lemma_accepted_upload_hash, MAX_DRV_PATH_LEN, MAX_OUTPUT_NAME_LEN, MAX_OUT_PATH_LEN};

verus! {

/// Name of the table of build trace entries.
pub const BUILD_TRACE_TABLE: &'static str = "build_trace";

/// A column of the `build_trace` table.
#[derive(Debug, Clone, Copy, PartialEq, Eq, Structural)]
pub enum BuildTraceColumn {
    /// Unique numeric ID of the entry.
    Id,
    /// ID of the cache the entry belongs to.
    CacheId,
    /// Base name of the producing derivation, such as `<hash>-hello.drv`. Nix
    /// looks the output up by the resolved derivation.
    DrvPath,
    /// Name of the derivation output, such as `out` or `dev`.
    OutputName,
    /// Base name of the realized store path.
    OutPath,
    /// The hash part of `out_path`, stored beside it so that joins against
    /// the object table need no backend-specific substring expression.
    OutPathHash,
    /// Signatures over the entry, as JSON.
    Signatures,
    /// Time the entry was created.
    CreatedAt,
    /// The uploader of the entry: the `sub` claim of the client's token.
    CreatedBy,
}

/// The type of a column.
#[derive(Debug, Clone, Copy, PartialEq, Eq, Structural)]
pub enum ColumnKind {
    BigInteger,
    /// Text, at most `max_len` bytes long where that is given.
    Text { max_len: Option<u32> },
    TimestampWithTimeZone,
}

/// One column of the table as the migration creates it.
#[derive(Debug, Clone, Copy, PartialEq, Eq, Structural)]
pub struct ColumnSpec {
    pub column: BuildTraceColumn,
    pub kind: ColumnKind,
    pub not_null: bool,
    /// The column is the auto-incremented primary key.
    pub primary_key: bool,
}

/// The foreign key from the table to the cache an entry belongs to.
#[derive(Debug)]
pub struct ForeignKeySpec {
    pub name: String,
    pub from_column: BuildTraceColumn,
    pub to_table: String,
    pub to_column: String,
    /// Deleting the cache deletes its entries.
    pub on_delete_cascade: bool,
}

/// An index over columns of the table.
#[derive(Debug)]
pub struct IndexSpec {
    pub name: String,
    pub columns: Vec<BuildTraceColumn>,
    pub unique: bool,
}

/// The columns of the table, in order.
pub open spec fn table_columns() -> Seq<ColumnSpec> {
    seq![
        ColumnSpec { column: BuildTraceColumn::Id, kind: ColumnKind::BigInteger, not_null: true, primary_key: true },
        ColumnSpec { column: BuildTraceColumn::CacheId, kind: ColumnKind::BigInteger, not_null: true, primary_key: false },
        ColumnSpec { column: BuildTraceColumn::DrvPath, kind: ColumnKind::Text { max_len: Some(255) }, not_null: true, primary_key: false },
        ColumnSpec { column: BuildTraceColumn::OutputName, kind: ColumnKind::Text { max_len: Some(128) }, not_null: true, primary_key: false },
        ColumnSpec { column: BuildTraceColumn::OutPath, kind: ColumnKind::Text { max_len: Some(255) }, not_null: true, primary_key: false },
        ColumnSpec { column: BuildTraceColumn::OutPathHash, kind: ColumnKind::Text { max_len: Some(32) }, not_null: true, primary_key: false },
        ColumnSpec { column: BuildTraceColumn::Signatures, kind: ColumnKind::Text { max_len: None }, not_null: true, primary_key: false },
        ColumnSpec { column: BuildTraceColumn::CreatedAt, kind: ColumnKind::TimestampWithTimeZone, not_null: true, primary_key: false },
        ColumnSpec { column: BuildTraceColumn::CreatedBy, kind: ColumnKind::Text { max_len: None }, not_null: false, primary_key: false },
    ]
}

/// The columns of a sequence of column specifications.
pub open spec fn column_names(specs: Seq<ColumnSpec>) -> Seq<BuildTraceColumn> {
    specs.map_values(|s: ColumnSpec| s.column)
}

/// The width of `column` in bytes, where the table bounds it.
pub open spec fn column_width(column: BuildTraceColumn) -> Option<nat> {
    match column {
        BuildTraceColumn::DrvPath => Some(255),
        BuildTraceColumn::OutputName => Some(128),
        BuildTraceColumn::OutPath => Some(255),
        BuildTraceColumn::OutPathHash => Some(32),
        _ => None,
    }
}

/// The columns of the unique lookup index, by which an entry is found: a
/// derivation output resolves to exactly one store path per cache.
pub open spec fn lookup_index_columns() -> Seq<BuildTraceColumn> {
    seq![BuildTraceColumn::CacheId, BuildTraceColumn::DrvPath, BuildTraceColumn::OutputName]
}

/// The columns an upload inserts, in the order of the values it selects.
pub open spec fn insert_columns() -> Seq<BuildTraceColumn> {
    seq![
        BuildTraceColumn::CacheId,
        BuildTraceColumn::DrvPath,
        BuildTraceColumn::OutputName,
        BuildTraceColumn::OutPath,
        BuildTraceColumn::OutPathHash,
        BuildTraceColumn::Signatures,
        BuildTraceColumn::CreatedAt,
        BuildTraceColumn::CreatedBy,
    ]
}

/// The columns whose values identify the row that an upload replaces.
pub open spec fn conflict_columns() -> Seq<BuildTraceColumn> {
    seq![BuildTraceColumn::CacheId, BuildTraceColumn::DrvPath, BuildTraceColumn::OutputName]
}

/// The columns an upload overwrites in the row it replaces. `created_at`
/// stays out, so the row keeps the creation time that age-based cleanup
/// reads.
pub open spec fn update_columns() -> Seq<BuildTraceColumn> {
    seq![
        BuildTraceColumn::OutPath,
        BuildTraceColumn::OutPathHash,
        BuildTraceColumn::Signatures,
        BuildTraceColumn::CreatedBy,
    ]
}

/// The migration that creates the table.
#[derive(Debug, Clone, Copy)]
pub struct Migration;

impl Migration {
    /// The name under which the migration is recorded.
    pub fn name(&self) -> (name: &'static str)
        ensures
            name@ == "m20260817_000001_add_build_trace_table"@,
    {
        "m20260817_000001_add_build_trace_table"
    }

    /// The columns the migration creates, in order.
    pub fn columns(&self) -> (columns: Vec<ColumnSpec>)
        ensures
            columns@ == table_columns(),
    {
        let mut c: Vec<ColumnSpec> = Vec::new();
        c.push(ColumnSpec { column: BuildTraceColumn::Id, kind: ColumnKind::BigInteger, not_null: true, primary_key: true });
        c.push(ColumnSpec { column: BuildTraceColumn::CacheId, kind: ColumnKind::BigInteger, not_null: true, primary_key: false });
        // Bounded because PostgreSQL caps a btree index tuple at 2704 bytes.
        c.push(ColumnSpec { column: BuildTraceColumn::DrvPath, kind: ColumnKind::Text { max_len: Some(255) }, not_null: true, primary_key: false });
        c.push(ColumnSpec { column: BuildTraceColumn::OutputName, kind: ColumnKind::Text { max_len: Some(128) }, not_null: true, primary_key: false });
        c.push(ColumnSpec { column: BuildTraceColumn::OutPath, kind: ColumnKind::Text { max_len: Some(255) }, not_null: true, primary_key: false });
        c.push(ColumnSpec { column: BuildTraceColumn::OutPathHash, kind: ColumnKind::Text { max_len: Some(32) }, not_null: true, primary_key: false });
        c.push(ColumnSpec { column: BuildTraceColumn::Signatures, kind: ColumnKind::Text { max_len: None }, not_null: true, primary_key: false });
        c.push(ColumnSpec { column: BuildTraceColumn::CreatedAt, kind: ColumnKind::TimestampWithTimeZone, not_null: true, primary_key: false });
        c.push(ColumnSpec { column: BuildTraceColumn::CreatedBy, kind: ColumnKind::Text { max_len: None }, not_null: false, primary_key: false });
        assert(c@ =~= table_columns());
        c
    }

    /// The foreign key to the cache table, named `fk_build_trace_cache`:
    /// deleting a cache deletes its entries.
    pub fn foreign_key(&self) -> (fk: ForeignKeySpec)
        ensures
            fk.name@ == "fk_build_trace_cache"@,
            fk.from_column == BuildTraceColumn::CacheId,
            fk.to_table@ == "cache"@,
            fk.to_column@ == "id"@,
            fk.on_delete_cascade,
    {
        ForeignKeySpec {
            name: "fk_build_trace_cache".to_owned(),
            from_column: BuildTraceColumn::CacheId,
            to_table: "cache".to_owned(),
            to_column: "id".to_owned(),
            on_delete_cascade: true,
        }
    }

    /// The unique lookup index, named `idx-build-trace-lookup`.
    pub fn lookup_index(&self) -> (index: IndexSpec)
        ensures
            index.name@ == "idx-build-trace-lookup"@,
            index.columns@ == lookup_index_columns(),
            index.unique,
    {
        let mut columns: Vec<BuildTraceColumn> = Vec::new();
        columns.push(BuildTraceColumn::CacheId);
        columns.push(BuildTraceColumn::DrvPath);
        columns.push(BuildTraceColumn::OutputName);
        assert(columns@ =~= lookup_index_columns());
        IndexSpec { name: "idx-build-trace-lookup".to_owned(), columns, unique: true }
    }
}

/// The columns an upload inserts, in the order of its values.
pub fn upsert_insert_columns() -> (columns: Vec<BuildTraceColumn>)
    ensures
        columns@ == insert_columns(),
{
    let mut c: Vec<BuildTraceColumn> = Vec::new();
    c.push(BuildTraceColumn::CacheId);
    c.push(BuildTraceColumn::DrvPath);
    c.push(BuildTraceColumn::OutputName);
    c.push(BuildTraceColumn::OutPath);
    c.push(BuildTraceColumn::OutPathHash);
    c.push(BuildTraceColumn::Signatures);
    c.push(BuildTraceColumn::CreatedAt);
    c.push(BuildTraceColumn::CreatedBy);
    assert(c@ =~= insert_columns());
    c
}

/// The columns that identify the row an upload replaces.
pub fn upsert_conflict_columns() -> (columns: Vec<BuildTraceColumn>)
    ensures
        columns@ == conflict_columns(),
{
    let mut c: Vec<BuildTraceColumn> = Vec::new();
    c.push(BuildTraceColumn::CacheId);
    c.push(BuildTraceColumn::DrvPath);
    c.push(BuildTraceColumn::OutputName);
    assert(c@ =~= conflict_columns());
    c
}

/// The columns an upload overwrites in the row it replaces.
pub fn upsert_update_columns() -> (columns: Vec<BuildTraceColumn>)
    ensures
        columns@ == update_columns(),
{
    let mut c: Vec<BuildTraceColumn> = Vec::new();
    c.push(BuildTraceColumn::OutPath);
    c.push(BuildTraceColumn::OutPathHash);
    c.push(BuildTraceColumn::Signatures);
    c.push(BuildTraceColumn::CreatedBy);
    assert(c@ =~= update_columns());
    c
}

/// Name of the table of the cache's objects, one per store path a cache holds.
pub const OBJECT_TABLE: &'static str = "object";

/// The objects an upsert selects its values from: those of the table
/// `table` whose column `cache_id_column` is `cache_id` and whose column
/// `hash_column` is `store_path_hash`.
#[derive(Debug)]
pub struct ObjectCondition {
    pub table: String,
    pub cache_id_column: String,
    pub cache_id: i64,
    pub hash_column: String,
    pub store_path_hash: String,
}

/// The objects the upsert of `row` selects its values from: the cache's
/// object for the row's store path hash. The upsert writes one row per such
/// object, so a garbage collection that reaps the object between its lookup
/// and the write leaves nothing to write, which repeats the lookup's check at
/// the moment of the write.
pub fn upsert_source_condition(row: &BuildTraceRow) -> (c: ObjectCondition)
    ensures
        c.table@ == OBJECT_TABLE@,
        c.cache_id_column@ == "cache_id"@,
        c.cache_id == row.cache_id,
        c.hash_column@ == "store_path_hash"@,
        c.store_path_hash@ == row.out_path_hash@,
{
    ObjectCondition {
        table: OBJECT_TABLE.to_owned(),
        cache_id_column: "cache_id".to_owned(),
        cache_id: row.cache_id,
        hash_column: "store_path_hash".to_owned(),
        store_path_hash: row.out_path_hash.as_str().to_owned(),
    }
}

/// A value a lookup compares a column with.
#[derive(Debug)]
pub enum KeyValue {
    Integer(i64),
    Text(String),
}

/// The conditions that find the entry of `key` in the cache `cache_id`: each
/// column of the unique lookup index, in order, with the value it must hold.
pub fn lookup_conditions(cache_id: i64, key: BuildTraceKey) -> (c: Vec<(BuildTraceColumn, KeyValue)>)
    ensures
        c@.len() == lookup_index_columns().len(),
        forall|i: int| 0 <= i < c@.len() ==> (#[trigger] c@[i]).0 == lookup_index_columns()[i],
        c@[0].1 == KeyValue::Integer(cache_id),
        c@[1].1 == KeyValue::Text(key.drv_path),
        c@[2].1 == KeyValue::Text(key.output_name),
{
    let mut c: Vec<(BuildTraceColumn, KeyValue)> = Vec::new();
    c.push((BuildTraceColumn::CacheId, KeyValue::Integer(cache_id)));
    c.push((BuildTraceColumn::DrvPath, KeyValue::Text(key.drv_path)));
    c.push((BuildTraceColumn::OutputName, KeyValue::Text(key.output_name)));
    c
}

/// Every field of an accepted upload fits its column: the length limits of
/// the upload are the widths of the columns, and the stored hash is exactly
/// as wide as its column.
pub proof fn lemma_accepted_upload_fits_columns(drv_path: Seq<char>, output_name: Seq<char>, out_path: Seq<char>)
    requires
        upload_check(drv_path, output_name, out_path) is Ok,
    ensures
        utf8_len(drv_path) <= column_width(BuildTraceColumn::DrvPath).unwrap(),
        utf8_len(output_name) <= column_width(BuildTraceColumn::OutputName).unwrap(),
        utf8_len(out_path) <= column_width(BuildTraceColumn::OutPath).unwrap(),
        hash_of_out_path(out_path).len() == column_width(BuildTraceColumn::OutPathHash).unwrap(),
        column_width(BuildTraceColumn::DrvPath) == Some(MAX_DRV_PATH_LEN as nat),
        column_width(BuildTraceColumn::OutputName) == Some(MAX_OUTPUT_NAME_LEN as nat),
        column_width(BuildTraceColumn::OutPath) == Some(MAX_OUT_PATH_LEN as nat),
{
    lemma_accepted_upload_hash(drv_path, output_name, out_path);
}

/// The widths `column_width` states are those the migration creates.
pub proof fn lemma_column_widths_are_migrated()
    ensures
        forall|i: int|
            0 <= i < table_columns().len() ==> match (#[trigger] table_columns()[i]).kind {
                ColumnKind::Text { max_len: Some(w) } => column_width(table_columns()[i].column)
                    == Some(w as nat),
                _ => column_width(table_columns()[i].column) is None,
            },
{
}

/// An upload replaces the row found by the unique lookup index, so a
/// derivation output keeps one entry per cache.
pub proof fn lemma_upsert_targets_lookup_index()
    ensures
        conflict_columns() == lookup_index_columns(),
{
}

/// An upload inserts every column but the auto-incremented ID, in table
/// order, and overwrites in a replaced row only columns it inserts, never
/// its key nor its creation time.
pub proof fn lemma_upsert_columns()
    ensures
        insert_columns() == column_names(table_columns()).drop_first(),
        table_columns()[0].column == BuildTraceColumn::Id && table_columns()[0].primary_key,
        forall|i: int|
            0 <= i < update_columns().len() ==> insert_columns().contains(
                #[trigger] update_columns()[i],
            ),
        !update_columns().contains(BuildTraceColumn::CreatedAt),
        forall|i: int|
            0 <= i < conflict_columns().len() ==> !update_columns().contains(
                #[trigger] conflict_columns()[i],
            ),
{
    assert(column_names(table_columns()).drop_first() =~= insert_columns());
    assert forall|i: int| 0 <= i < update_columns().len() implies insert_columns().contains(
        #[trigger] update_columns()[i],
    ) by {
        if i < 3 {
            assert(insert_columns()[i + 3] == update_columns()[i]);
        } else {
            assert(insert_columns()[7] == update_columns()[i]);
        }
    }
    assert forall|j: int| 0 <= j < update_columns().len() implies update_columns()[j]
        != BuildTraceColumn::CreatedAt by {}
    assert forall|i: int| 0 <= i < conflict_columns().len() implies !update_columns().contains(
        #[trigger] conflict_columns()[i],
    ) by {
        assert forall|j: int| 0 <= j < update_columns().len() implies update_columns()[j]
            != conflict_columns()[i] by {}
    }
}

} // verus!
