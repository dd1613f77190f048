use attic::binary_cache::{NarDelivery, StoredBuildTrace};
use attic::build_trace::{BuildTraceEntry, BuildTraceSignature};
use attic::error::ApiError;
use attic::flow::{
    start_file, start_read, start_write, step_file, step_read, step_write, CacheFile, FileAction, FileEvent,
    FileState, ReadAction, ReadEvent, ReadState, WriteAction, WriteEvent, WriteState,
};
use attic::router::Permission;
use attic::schema::{BuildTraceColumn, KeyValue};
use attic::table::CellValue;

const HASH: &str = "0c6kzph7l0dcbyfqmb2aajkkbig6smq8";
const DRV: &str = "1b9p07z77phvv2hf6gm9f28syp39f1ag-hello-2.12.1.drv";

fn out_path() -> String {
    format!("{HASH}-hello-2.12.1")
}

fn sig() -> BuildTraceSignature {
    BuildTraceSignature { key_name: "k-1".to_string(), sig: "c2ln".to_string() }
}

#[test]
fn read_runs_authorize_lookup_object_answer() {
    let (state, action) = start_read(DRV.to_string(), "out.doi");
    assert!(matches!(action, ReadAction::Authorize(Permission::Pull)));
    let (state, action) = step_read(state, ReadEvent::Authorized { cache_id: 5 });
    match &action {
        ReadAction::FindEntry { cache_id, conditions } => {
            assert_eq!(*cache_id, 5);
            let cols: Vec<BuildTraceColumn> = conditions.iter().map(|(c, _)| *c).collect();
            assert_eq!(cols, vec![BuildTraceColumn::CacheId, BuildTraceColumn::DrvPath, BuildTraceColumn::OutputName]);
            assert!(matches!(conditions[0].1, KeyValue::Integer(5)));
            assert!(matches!(&conditions[2].1, KeyValue::Text(t) if t == "out"));
        }
        other => panic!("{other:?}"),
    }
    let stored = StoredBuildTrace { out_path: out_path(), out_path_hash: HASH.to_string(), signatures: vec![sig()] };
    let (state, action) = step_read(state, ReadEvent::EntryFound(Some(stored)));
    assert!(matches!(&action, ReadAction::FindObject { cache_id: 5, hash } if hash == HASH));
    let (state, action) = step_read(state, ReadEvent::ObjectFound(Some(out_path())));
    assert!(matches!(state, ReadState::Done { cache_id: Some(5) }));
    match action {
        ReadAction::Respond(Ok(e)) => {
            assert_eq!(e.out_path, out_path());
            assert_eq!(e.signatures, vec![sig()]);
        }
        other => panic!("{other:?}"),
    }
}

#[test]
fn read_without_suffix_answers_before_authorizing() {
    let (state, action) = start_read(DRV.to_string(), "out");
    assert!(matches!(state, ReadState::Done { cache_id: None }));
    assert!(matches!(action, ReadAction::Respond(Err(ApiError::NotFound))));
}

#[test]
fn read_of_missing_entry_or_changed_object_is_no_such_object() {
    let (state, _) = start_read(DRV.to_string(), "out.doi");
    let (state, _) = step_read(state, ReadEvent::Authorized { cache_id: 1 });
    let (_, action) = step_read(state, ReadEvent::EntryFound(None));
    assert!(matches!(action, ReadAction::Respond(Err(ApiError::NoSuchObject))));

    let (state, _) = start_read(DRV.to_string(), "out.doi");
    let (state, _) = step_read(state, ReadEvent::Authorized { cache_id: 1 });
    let stored = StoredBuildTrace { out_path: out_path(), out_path_hash: HASH.to_string(), signatures: vec![] };
    let (state, _) = step_read(state, ReadEvent::EntryFound(Some(stored)));
    let (_, action) = step_read(state, ReadEvent::ObjectFound(Some(format!("{HASH}-other"))));
    assert!(matches!(action, ReadAction::Respond(Err(ApiError::NoSuchObject))));
}

#[test]
fn write_runs_authorize_object_upsert_answer() {
    let entry = BuildTraceEntry { out_path: out_path(), signatures: vec![sig()] };
    let (state, action) = start_write(DRV.to_string(), "out.doi", entry);
    assert!(matches!(action, WriteAction::Authorize(Permission::Push)));
    let (state, action) = step_write(state, WriteEvent::Authorized { cache_id: 3, username: Some("bob".to_string()) });
    assert!(matches!(&action, WriteAction::FindObject { cache_id: 3, hash } if hash == HASH));
    let (state, action) = step_write(state, WriteEvent::ObjectFound(Some(out_path())));
    assert!(matches!(state, WriteState::Writing { cache_id: 3 }));
    let upsert = match action {
        WriteAction::Upsert(u) => u,
        other => panic!("{other:?}"),
    };
    assert_eq!(upsert.row.cache_id, 3);
    assert_eq!(upsert.row.created_by.as_deref(), Some("bob"));
    let values = upsert.into_values();
    let cols: Vec<BuildTraceColumn> = values.iter().map(|(c, _)| *c).collect();
    assert_eq!(cols, attic::schema::upsert_insert_columns());
    assert!(matches!(values[0].1, CellValue::Integer(3)));
    assert!(matches!(&values[1].1, CellValue::Text(t) if t == DRV));
    assert!(matches!(&values[2].1, CellValue::Text(t) if t == "out"));
    assert!(matches!(&values[3].1, CellValue::Text(t) if *t == out_path()));
    assert!(matches!(&values[4].1, CellValue::Text(t) if t == HASH));
    assert!(matches!(&values[5].1, CellValue::Signatures(s) if *s == vec![sig()]));
    assert!(matches!(&values[6].1, CellValue::Time(t) if t.secs > 0 && t.subsec_nanos < 1_000_000_000));
    assert!(matches!(&values[7].1, CellValue::OptionalText(Some(u)) if u == "bob"));

    let (state, action) = step_write(WriteState::Writing { cache_id: 3 }, WriteEvent::Written { rows_affected: 1 });
    assert!(matches!(state, WriteState::Done { cache_id: Some(3) }));
    assert!(matches!(action, WriteAction::Respond(Ok(()))));
    let _ = state;
}

#[test]
fn write_errors_follow_the_order_of_checks() {
    let entry = BuildTraceEntry { out_path: out_path(), signatures: vec![] };
    let (_, action) = start_write(DRV.to_string(), "out", entry);
    assert!(matches!(action, WriteAction::Respond(Err(ApiError::NotFound))));

    let entry = BuildTraceEntry { out_path: "bad".to_string(), signatures: vec![] };
    let (state, _) = start_write(DRV.to_string(), "out.doi", entry);
    let (state, action) = step_write(state, WriteEvent::Authorized { cache_id: 1, username: None });
    assert!(matches!(state, WriteState::Done { cache_id: Some(1) }));
    assert!(matches!(action, WriteAction::Respond(Err(ApiError::InvalidOutPath))));

    let entry = BuildTraceEntry { out_path: out_path(), signatures: vec![] };
    let (state, _) = start_write(DRV.to_string(), "out.doi", entry);
    let (state, _) = step_write(state, WriteEvent::Authorized { cache_id: 1, username: None });
    let (_, action) = step_write(state, WriteEvent::ObjectFound(None));
    assert!(matches!(action, WriteAction::Respond(Err(ApiError::OutPathMismatch))));

    let (_, action) = step_write(WriteState::Writing { cache_id: 1 }, WriteEvent::Written { rows_affected: 0 });
    assert!(matches!(action, WriteAction::Respond(Err(ApiError::NoSuchObject))));
}

#[test]
fn narinfo_is_looked_up_then_authorized_then_served() {
    let (state, action) = start_file(CacheFile::NarInfo, &format!("{HASH}.narinfo"));
    assert!(matches!(&action, FileAction::FindObject { hash } if hash == HASH));
    let (state, action) = step_file(CacheFile::NarInfo, state, FileEvent::ObjectFound { signature: None, chunk_present: vec![true] });
    assert!(matches!(action, FileAction::Authorize(Permission::Pull)));
    let (state, action) = step_file(CacheFile::NarInfo, state, FileEvent::Authorized { cache_id: 2 });
    assert!(matches!(state, FileState::Done { cache_id: Some(2) }));
    assert!(matches!(action, FileAction::ServeNarInfo { sign: true }));

    let (state, _) = start_file(CacheFile::NarInfo, &format!("{HASH}.narinfo"));
    let (state, _) = step_file(CacheFile::NarInfo, state, FileEvent::ObjectFound { signature: Some("k:s".to_string()), chunk_present: vec![] });
    let (_, action) = step_file(CacheFile::NarInfo, state, FileEvent::Authorized { cache_id: 2 });
    assert!(matches!(action, FileAction::ServeNarInfo { sign: false }));
}

#[test]
fn malformed_file_path_fails_first() {
    let (state, action) = start_file(CacheFile::Nar, &format!("{HASH}.narinfo"));
    assert!(matches!(state, FileState::Done { cache_id: None }));
    assert!(matches!(action, FileAction::Fail(ApiError::NotFound)));
    let (_, action) = start_file(CacheFile::NarInfo, "abc.narinfo");
    assert!(matches!(action, FileAction::Fail(ApiError::InvalidStorePathHash)));
}

#[test]
fn nar_is_bumped_only_after_the_chunk_check() {
    let (state, _) = start_file(CacheFile::Nar, &format!("{HASH}.nar"));
    let (state, _) = step_file(CacheFile::Nar, state, FileEvent::ObjectFound { signature: None, chunk_present: vec![true, false] });
    let (_, action) = step_file(CacheFile::Nar, state, FileEvent::Authorized { cache_id: 4 });
    assert!(matches!(action, FileAction::Fail(ApiError::IncompleteNar)));

    let (state, _) = start_file(CacheFile::Nar, &format!("{HASH}.nar"));
    let (state, _) = step_file(CacheFile::Nar, state, FileEvent::ObjectFound { signature: None, chunk_present: vec![true, true] });
    let (state, action) = step_file(CacheFile::Nar, state, FileEvent::Authorized { cache_id: 4 });
    assert!(matches!(&action, FileAction::BumpAccess { cache_id: 4, hash } if hash == HASH));
    let (_, action) = step_file(CacheFile::Nar, state, FileEvent::Bumped);
    assert!(matches!(action, FileAction::SendNar(NarDelivery::Reassemble { prefetch: 2 })));
}
