//! The values an upload writes, and a model of the `build_trace` table: what
//! its upsert does to the table and what a read finds in it.
//!
//! The upsert is `INSERT .. SELECT .. FROM object WHERE .. ON CONFLICT
//! (conflict columns) DO UPDATE SET (update columns)`: it writes one row per
//! object of the cache with the row's store path hash, adds the row where its
//! key is new, and else overwrites the update columns of the row with that key.

use vstd::prelude::*;
use crate::binary_cache::{records_path, serve_outcome, StoredBuildTrace};
use crate::build_trace::BuildTraceSignature;
use crate::error::ApiError;
use crate::schema::{update_columns, insert_columns, table_columns, BuildTraceColumn, ColumnKind, ColumnSpec};
use crate::store_path::is_valid_hash;
use crate::upload::{BuildTraceRow, Timestamp, Upsert};

verus! {

/// A value the upsert writes into a column.
#[derive(Debug)]
pub enum CellValue {
    Integer(i64),
    Text(String),
    OptionalText(Option<String>),
    Signatures(Vec<BuildTraceSignature>),
    Time(Timestamp),
}

/// The content of a cell of the table.
pub enum Cell {
    Integer(i64),
    Text(Seq<char>),
    OptionalText(Option<Seq<char>>),
    Signatures(Seq<BuildTraceSignature>),
    Time(Timestamp),
}

/// What a written value puts into its cell.
pub open spec fn cell_of(v: CellValue) -> Cell {
    match v {
        CellValue::Integer(i) => Cell::Integer(i),
        CellValue::Text(t) => Cell::Text(t@),
        CellValue::OptionalText(Some(t)) => Cell::OptionalText(Some(t@)),
        CellValue::OptionalText(None) => Cell::OptionalText(None),
        CellValue::Signatures(s) => Cell::Signatures(s@),
        CellValue::Time(t) => Cell::Time(t),
    }
}

/// The cells of the row that an upsert of `row` created at `created_at`
/// writes.
pub open spec fn upsert_cells(row: BuildTraceRow, created_at: Timestamp) -> Map<BuildTraceColumn, Cell> {
    map![
        BuildTraceColumn::CacheId => Cell::Integer(row.cache_id),
        BuildTraceColumn::DrvPath => Cell::Text(row.drv_path@),
        BuildTraceColumn::OutputName => Cell::Text(row.output_name@),
        BuildTraceColumn::OutPath => Cell::Text(row.out_path@),
        BuildTraceColumn::OutPathHash => Cell::Text(row.out_path_hash@),
        BuildTraceColumn::Signatures => Cell::Signatures(row.signatures@),
        BuildTraceColumn::CreatedAt => Cell::Time(created_at),
        BuildTraceColumn::CreatedBy => Cell::OptionalText(
            match row.created_by {
                Some(t) => Some(t@),
                None => None,
            },
        ),
    ]
}

impl Upsert {
    /// The values the upsert selects, one per column of `insert_columns()`,
    /// in that order.
    pub fn into_values(self) -> (v: Vec<(BuildTraceColumn, CellValue)>)
        ensures
            v@.len() == insert_columns().len(),
            v@[0] == (BuildTraceColumn::CacheId, CellValue::Integer(self.row.cache_id)),
            v@[1].0 == BuildTraceColumn::DrvPath && cell_of(v@[1].1) == Cell::Text(self.row.drv_path@),
            v@[2].0 == BuildTraceColumn::OutputName && cell_of(v@[2].1) == Cell::Text(self.row.output_name@),
            v@[3].0 == BuildTraceColumn::OutPath && cell_of(v@[3].1) == Cell::Text(self.row.out_path@),
            v@[4].0 == BuildTraceColumn::OutPathHash && cell_of(v@[4].1) == Cell::Text(self.row.out_path_hash@),
            v@[5].0 == BuildTraceColumn::Signatures && cell_of(v@[5].1) == Cell::Signatures(self.row.signatures@),
            v@[6] == (BuildTraceColumn::CreatedAt, CellValue::Time(self.created_at)),
            v@[7] == (BuildTraceColumn::CreatedBy, CellValue::OptionalText(self.row.created_by)),
            forall|i: int|
                0 <= i < v@.len() ==> (#[trigger] v@[i]).0 == insert_columns()[i] && cell_of(v@[i].1)
                    == upsert_cells(self.row, self.created_at)[insert_columns()[i]],
    {
        let ghost cells = upsert_cells(self.row, self.created_at);
        let row = self.row;
        let hash = row.out_path_hash.into_string();
        let mut v: Vec<(BuildTraceColumn, CellValue)> = Vec::new();
        v.push((BuildTraceColumn::CacheId, CellValue::Integer(row.cache_id)));
        v.push((BuildTraceColumn::DrvPath, CellValue::Text(row.drv_path)));
        v.push((BuildTraceColumn::OutputName, CellValue::Text(row.output_name)));
        v.push((BuildTraceColumn::OutPath, CellValue::Text(row.out_path)));
        v.push((BuildTraceColumn::OutPathHash, CellValue::Text(hash)));
        v.push((BuildTraceColumn::Signatures, CellValue::Signatures(row.signatures)));
        v.push((BuildTraceColumn::CreatedAt, CellValue::Time(self.created_at)));
        v.push((BuildTraceColumn::CreatedBy, CellValue::OptionalText(row.created_by)));
        assert forall|i: int|
            0 <= i < v@.len() implies (#[trigger] v@[i]).0 == insert_columns()[i] && cell_of(v@[i].1)
            == cells[insert_columns()[i]] by {
            if i == 7 {
                match v@[7].1 {
                    CellValue::OptionalText(Some(t)) => {},
                    _ => {},
                }
            }
        }
        v
    }
}

/// The row an upsert writes holds the upload as it was accepted: the cache,
/// the key, the store path, its hash, the signatures and the uploader of the
/// row, and the time `created_at` at which the upload was accepted.
pub proof fn lemma_upsert_cells_hold_row(row: BuildTraceRow, created_at: Timestamp)
    ensures
        upsert_cells(row, created_at)[BuildTraceColumn::CacheId] == Cell::Integer(row.cache_id),
        upsert_cells(row, created_at)[BuildTraceColumn::DrvPath] == Cell::Text(row.drv_path@),
        upsert_cells(row, created_at)[BuildTraceColumn::OutputName] == Cell::Text(row.output_name@),
        upsert_cells(row, created_at)[BuildTraceColumn::OutPath] == Cell::Text(row.out_path@),
        upsert_cells(row, created_at)[BuildTraceColumn::OutPathHash] == Cell::Text(row.out_path_hash@),
        upsert_cells(row, created_at)[BuildTraceColumn::Signatures] == Cell::Signatures(row.signatures@),
        upsert_cells(row, created_at)[BuildTraceColumn::CreatedAt] == Cell::Time(created_at),
        row.created_by is None ==> upsert_cells(row, created_at)[BuildTraceColumn::CreatedBy] == Cell::OptionalText(None),
        row.created_by matches Some(u) ==> upsert_cells(row, created_at)[BuildTraceColumn::CreatedBy] == Cell::OptionalText(Some(u@)),
        !upsert_cells(row, created_at).dom().contains(BuildTraceColumn::Id),
{
}

/// A cell can be stored in a column created as `spec`: an integer in a
/// `BIGINT` column, a text (signatures kept as JSON text) in a text column,
/// a time in a timestamp column, and a missing value only where the column
/// may be null.
pub open spec fn cell_fits(spec: ColumnSpec, cell: Cell) -> bool {
    &&& match (spec.kind, cell) {
        (ColumnKind::BigInteger, Cell::Integer(_)) => true,
        (ColumnKind::Text { .. }, Cell::Text(_)) => true,
        (ColumnKind::Text { .. }, Cell::OptionalText(_)) => true,
        (ColumnKind::Text { max_len: None }, Cell::Signatures(_)) => true,
        (ColumnKind::TimestampWithTimeZone, Cell::Time(_)) => true,
        _ => false,
    }
    &&& spec.not_null ==> cell != Cell::OptionalText(None)
}

/// Each column the migration creates has the type of the value an upsert
/// writes into it, the ID being the integer the database picks: the cache ID
/// goes to a `BIGINT` column, as `cache.id` that it references is one.
pub proof fn lemma_upsert_cells_fit_columns(row: BuildTraceRow, created_at: Timestamp, id: i64)
    ensures
        forall|i: int|
            0 <= i < table_columns().len() ==> cell_fits(
                #[trigger] table_columns()[i],
                upsert_cells(row, created_at).insert(BuildTraceColumn::Id, Cell::Integer(id))[table_columns()[i].column],
            ),
{
    let cells = upsert_cells(row, created_at).insert(BuildTraceColumn::Id, Cell::Integer(id));
    assert forall|i: int| 0 <= i < table_columns().len() implies cell_fits(
        #[trigger] table_columns()[i],
        cells[table_columns()[i].column],
    ) by {
        if i == 8 {
            match row.created_by {
                Some(u) => {},
                None => {},
            }
        }
    }
}

/// A key of the table: the cache, the derivation and the output name.
pub type TableKey = (i64, Seq<char>, Seq<char>);

/// A row of the table: the cell of each of its columns.
pub type TableRow = Map<BuildTraceColumn, Cell>;

/// The table: its rows by key. The unique lookup index makes the key
/// identify one row.
pub type Table = Map<TableKey, TableRow>;

/// The text in a cell, or the empty text where the cell holds none.
pub open spec fn text_in(c: Cell) -> Seq<char> {
    match c {
        Cell::Text(t) => t,
        _ => Seq::empty(),
    }
}

/// The integer in a cell, or 0 where the cell holds none.
pub open spec fn integer_in(c: Cell) -> i64 {
    match c {
        Cell::Integer(i) => i,
        _ => 0,
    }
}

/// The key of a row.
pub open spec fn key_of(row: TableRow) -> TableKey {
    (
        integer_in(row[BuildTraceColumn::CacheId]),
        text_in(row[BuildTraceColumn::DrvPath]),
        text_in(row[BuildTraceColumn::OutputName]),
    )
}

/// A row holds a cell for every column the upsert writes.
pub open spec fn row_complete(row: TableRow) -> bool {
    forall|i: int| 0 <= i < insert_columns().len() ==> row.dom().contains(#[trigger] insert_columns()[i])
}

/// Every row of the table is complete and stored under its own key.
pub open spec fn table_well_formed(table: Table) -> bool {
    forall|k: TableKey| #[trigger] table.dom().contains(k) ==> row_complete(table[k]) && key_of(table[k]) == k
}

/// The row `old` after the upsert writes `new` under its key: the update
/// columns take the new values, every other column keeps its old one.
pub open spec fn replaced_row(old: TableRow, new: TableRow) -> TableRow {
    Map::new(
        |c: BuildTraceColumn| old.dom().contains(c),
        |c: BuildTraceColumn|
            if update_columns().contains(c) {
                new[c]
            } else {
                old[c]
            },
    )
}

/// The objects of all caches, by cache and store path hash: the base name of
/// the store path each records (`None` where it has none).
pub type Objects = Map<(i64, Seq<char>), Option<Seq<char>>>;

/// What the upsert of the cells `cells` does to `table` while the caches hold
/// `objects`, and how many rows it writes. A row added by it gets the ID
/// `fresh_id`, which the database picks.
pub open spec fn upsert_effect(table: Table, objects: Objects, cells: TableRow, fresh_id: i64) -> (Table, nat) {
    let key = key_of(cells);
    if !objects.dom().contains((key.0, text_in(cells[BuildTraceColumn::OutPathHash]))) {
        (table, 0)
    } else if table.dom().contains(key) {
        (table.insert(key, replaced_row(table[key], cells)), 1)
    } else {
        (table.insert(key, cells.insert(BuildTraceColumn::Id, Cell::Integer(fresh_id))), 1)
    }
}

/// What a read of the key `(cache_id, drv_path, output_name)` answers on
/// `table` while the caches hold `objects`: the store path and signatures of
/// the entry, or why there is none.
pub open spec fn read_outcome(table: Table, objects: Objects, cache_id: i64, drv_path: Seq<char>, output_name: Seq<char>) -> Result<(Seq<char>, Seq<BuildTraceSignature>), ApiError> {
    let key = (cache_id, drv_path, output_name);
    if !table.dom().contains(key) {
        Err(ApiError::NoSuchObject)
    } else {
        let row = table[key];
        let out_path = text_in(row[BuildTraceColumn::OutPath]);
        let hash = text_in(row[BuildTraceColumn::OutPathHash]);
        if !is_valid_hash(hash) {
            Err(ApiError::NoSuchObject)
        } else if !objects.dom().contains((cache_id, hash)) {
            Err(ApiError::NoSuchObject)
        } else if !records_path(objects[(cache_id, hash)], out_path) {
            Err(ApiError::NoSuchObject)
        } else {
            match row[BuildTraceColumn::Signatures] {
                Cell::Signatures(s) => Ok((out_path, s)),
                _ => Ok((out_path, Seq::empty())),
            }
        }
    }
}

/// The upsert changes no row but the one with its key, and changes nothing
/// where the cache holds no object with its hash (as when a garbage
/// collection reaped it).
pub proof fn lemma_upsert_changes_only_its_key(table: Table, objects: Objects, cells: TableRow, fresh_id: i64)
    ensures
        ({
            let after = upsert_effect(table, objects, cells, fresh_id).0;
            &&& forall|k: TableKey|
                k != key_of(cells) ==> (after.dom().contains(k) <==> table.dom().contains(k))
                    && (table.dom().contains(k) ==> after[k] == table[k])
            &&& !objects.dom().contains(
                (key_of(cells).0, text_in(cells[BuildTraceColumn::OutPathHash])),
            ) ==> after == table
        }),
{
}

/// Upserting the same cells twice leaves the table as the first upsert left
/// it: the same row, with the same ID and creation time.
pub proof fn lemma_upsert_idempotent(table: Table, objects: Objects, cells: TableRow, id1: i64, id2: i64)
    requires
        row_complete(cells),
    ensures
        ({
            let (once, n1) = upsert_effect(table, objects, cells, id1);
            let (twice, n2) = upsert_effect(once, objects, cells, id2);
            twice == once && n2 == n1
        }),
{
    let key = key_of(cells);
    let (once, n1) = upsert_effect(table, objects, cells, id1);
    if objects.dom().contains((key.0, text_in(cells[BuildTraceColumn::OutPathHash]))) {
        assert(once.dom().contains(key));
        let row = once[key];
        assert(key_of(cells) == key);
        crate::schema::lemma_upsert_columns();
        assert(replaced_row(row, cells) =~= row) by {
            assert forall|c: BuildTraceColumn|
                row.dom().contains(c) && update_columns().contains(c) implies cells[c] == row[c] by {
                assert(c != BuildTraceColumn::Id);
                let j = choose|j: int| 0 <= j < update_columns().len() && update_columns()[j] == c;
                assert(update_columns()[j] == c);
                assert(insert_columns().contains(c));
                let i = choose|i: int| 0 <= i < insert_columns().len() && insert_columns()[i] == c;
                assert(cells.dom().contains(insert_columns()[i]));
            }
        }
        assert(once.insert(key, replaced_row(row, cells)) =~= once);
    }
}

/// Last write wins: after two upserts under the same key, the row holds the
/// store path, hash, signatures and uploader of the second, and keeps the ID
/// and creation time it had after the first.
pub proof fn lemma_last_write_wins(table: Table, objects: Objects, first: TableRow, second: TableRow, id1: i64, id2: i64)
    requires
        key_of(first) == key_of(second),
        objects.dom().contains((key_of(first).0, text_in(first[BuildTraceColumn::OutPathHash]))),
        objects.dom().contains((key_of(second).0, text_in(second[BuildTraceColumn::OutPathHash]))),
    ensures
        ({
            let once = upsert_effect(table, objects, first, id1).0;
            let twice = upsert_effect(once, objects, second, id2).0;
            let key = key_of(second);
            &&& twice.dom().contains(key)
            &&& forall|c: BuildTraceColumn|
                #![trigger twice[key][c]]
                update_columns().contains(c) && once[key].dom().contains(c) ==> twice[key][c] == second[c]
            &&& forall|c: BuildTraceColumn|
                #![trigger twice[key][c]]
                !update_columns().contains(c) && once[key].dom().contains(c) ==> twice[key][c] == once[key][c]
        }),
{
}

/// A read after writes answers from the last write: where the cache records
/// the written store path under the written hash, the read serves the
/// written store path and signatures.
pub proof fn lemma_read_after_upsert(table: Table, objects: Objects, row: BuildTraceRow, created_at: Timestamp, fresh_id: i64)
    requires
        table_well_formed(table),
        is_valid_hash(row.out_path_hash@),
        objects.dom().contains((row.cache_id, row.out_path_hash@)),
        records_path(objects[(row.cache_id, row.out_path_hash@)], row.out_path@),
    ensures
        read_outcome(
            upsert_effect(table, objects, upsert_cells(row, created_at), fresh_id).0,
            objects,
            row.cache_id,
            row.drv_path@,
            row.output_name@,
        ) == Ok::<(Seq<char>, Seq<BuildTraceSignature>), ApiError>((row.out_path@, row.signatures@)),
{
    let cells = upsert_cells(row, created_at);
    assert(key_of(cells) == (row.cache_id, row.drv_path@, row.output_name@));
    let after = upsert_effect(table, objects, cells, fresh_id).0;
    let key = key_of(cells);
    if table.dom().contains(key) {
        let old = table[key];
        assert(row_complete(old));
        assert(old.dom().contains(insert_columns()[3]));
        assert(old.dom().contains(insert_columns()[4]));
        assert(old.dom().contains(insert_columns()[5]));
        let r = replaced_row(table[key], cells);
        assert(update_columns().contains(BuildTraceColumn::OutPath));
        assert(update_columns().contains(BuildTraceColumn::OutPathHash));
        assert(update_columns().contains(BuildTraceColumn::Signatures));
        assert(update_columns()[0] == BuildTraceColumn::OutPath);
        assert(update_columns()[1] == BuildTraceColumn::OutPathHash);
        assert(update_columns()[2] == BuildTraceColumn::Signatures);
    }
}

/// The upsert keeps the table well formed.
pub proof fn lemma_upsert_keeps_well_formed(table: Table, objects: Objects, cells: TableRow, fresh_id: i64)
    requires
        table_well_formed(table),
        row_complete(cells),
    ensures
        table_well_formed(upsert_effect(table, objects, cells, fresh_id).0),
{
    let key = key_of(cells);
    let after = upsert_effect(table, objects, cells, fresh_id).0;
    assert forall|k: TableKey| #[trigger] after.dom().contains(k) implies row_complete(after[k]) && key_of(after[k]) == k by {
        if k == key && objects.dom().contains((key.0, text_in(cells[BuildTraceColumn::OutPathHash]))) {
            if table.dom().contains(key) {
                let old = table[key];
                assert(row_complete(old));
                let r = replaced_row(old, cells);
                assert forall|i: int| 0 <= i < insert_columns().len() implies r.dom().contains(#[trigger] insert_columns()[i]) by {
                    assert(old.dom().contains(insert_columns()[i]));
                }
                assert(old.dom().contains(insert_columns()[0]));
                assert(old.dom().contains(insert_columns()[1]));
                assert(old.dom().contains(insert_columns()[2]));
                assert(!update_columns().contains(BuildTraceColumn::CacheId));
                assert(!update_columns().contains(BuildTraceColumn::DrvPath));
                assert(!update_columns().contains(BuildTraceColumn::OutputName));
            } else {
                let r = cells.insert(BuildTraceColumn::Id, Cell::Integer(fresh_id));
                assert forall|i: int| 0 <= i < insert_columns().len() implies r.dom().contains(#[trigger] insert_columns()[i]) by {
                    assert(cells.dom().contains(insert_columns()[i]));
                }
            }
        }
    }
}

/// A read that finds the stored entry of a row answers as the table model
/// says: `serve_outcome` on the stored entry and the object recorded for its
/// hash is `read_outcome`, where the cache holds that object.
pub proof fn lemma_served_is_read_outcome(table: Table, objects: Objects, cache_id: i64, drv_path: Seq<char>, output_name: Seq<char>, stored: Option<StoredBuildTrace>)
    requires
        table_well_formed(table),
        stored is None <==> !table.dom().contains((cache_id, drv_path, output_name)),
        stored matches Some(s) ==> {
            let row = table[(cache_id, drv_path, output_name)];
            &&& s.out_path@ == text_in(row[BuildTraceColumn::OutPath])
            &&& s.out_path_hash@ == text_in(row[BuildTraceColumn::OutPathHash])
            &&& row[BuildTraceColumn::Signatures] == Cell::Signatures(s.signatures@)
            &&& is_valid_hash(s.out_path_hash@) ==> objects.dom().contains((cache_id, s.out_path_hash@))
        },
    ensures
        ({
            let recorded = match stored {
                Some(s) => objects[(cache_id, s.out_path_hash@)],
                None => None,
            };
            match (serve_outcome(stored, recorded), read_outcome(table, objects, cache_id, drv_path, output_name)) {
                (Ok(e), Ok((p, sigs))) => e.out_path@ == p && e.signatures@ == sigs,
                (Err(a), Err(b)) => a == b,
                _ => false,
            }
        }),
{
}

/// Caches are isolated: a read of cache `cache_id` answers the same on two
/// states of the database that agree on that cache's rows and objects,
/// whatever they hold for other caches.
pub proof fn lemma_reads_isolated(t1: Table, o1: Objects, t2: Table, o2: Objects, cache_id: i64, drv_path: Seq<char>, output_name: Seq<char>)
    requires
        forall|k: TableKey|
            k.0 == cache_id ==> (#[trigger] t1.dom().contains(k) <==> t2.dom().contains(k)) && (
            t1.dom().contains(k) ==> t1[k] == t2[k]),
        forall|h: Seq<char>|
            (#[trigger] o1.dom().contains((cache_id, h)) <==> o2.dom().contains((cache_id, h))) && (
            o1.dom().contains((cache_id, h)) ==> o1[(cache_id, h)] == o2[(cache_id, h)]),
    ensures
        read_outcome(t1, o1, cache_id, drv_path, output_name) == read_outcome(
            t2,
            o2,
            cache_id,
            drv_path,
            output_name,
        ),
{
    let key = (cache_id, drv_path, output_name);
    assert(t1.dom().contains(key) <==> t2.dom().contains(key));
    if t1.dom().contains(key) {
        let hash = text_in(t1[key][BuildTraceColumn::OutPathHash]);
        assert(o1.dom().contains((cache_id, hash)) <==> o2.dom().contains((cache_id, hash)));
    }
}

/// An upsert into one cache leaves every read of every other cache as it was.
pub proof fn lemma_upsert_isolated(table: Table, objects: Objects, cells: TableRow, fresh_id: i64, cache_id: i64, drv_path: Seq<char>, output_name: Seq<char>)
    requires
        key_of(cells).0 != cache_id,
    ensures
        read_outcome(upsert_effect(table, objects, cells, fresh_id).0, objects, cache_id, drv_path, output_name)
            == read_outcome(table, objects, cache_id, drv_path, output_name),
{
    lemma_upsert_changes_only_its_key(table, objects, cells, fresh_id);
    let after = upsert_effect(table, objects, cells, fresh_id).0;
    lemma_reads_isolated(after, objects, table, objects, cache_id, drv_path, output_name);
}

} // verus!
