use attic::binary_cache::{build_trace_key, lookup_object_for, recorded_path_matches, StoredBuildTrace};
use attic::build_trace::{BuildTraceEntry, BuildTraceSignature, BUILD_TRACE_PREFIX, BUILD_TRACE_SUFFIX};
use attic::error::ApiError;
use attic::upload::{begin_upload, upsert_outcome, MAX_DRV_PATH_LEN, MAX_OUTPUT_NAME_LEN, MAX_OUT_PATH_LEN};

const HASH: &str = "0c6kzph7l0dcbyfqmb2aajkkbig6smq8";
const DRV: &str = "1b9p07z77phvv2hf6gm9f28syp39f1ag-hello-2.12.1.drv";

fn now_micros() -> i64 {
    std::time::SystemTime::now().duration_since(std::time::UNIX_EPOCH).unwrap().as_micros() as i64
}

fn out_path() -> String {
    format!("{HASH}-hello-2.12.1")
}

fn signature() -> BuildTraceSignature {
    BuildTraceSignature { key_name: "cache.example.org-1".to_string(), sig: "c2lnbmF0dXJl".to_string() }
}

fn entry() -> BuildTraceEntry {
    BuildTraceEntry { out_path: out_path(), signatures: vec![signature()] }
}

#[test]
fn constants_are_the_nix_layout() {
    assert_eq!(BUILD_TRACE_PREFIX, "build-trace-v2");
    assert_eq!(BUILD_TRACE_SUFFIX, ".doi");
}

#[test]
fn signatures_compare_by_both_fields() {
    assert_eq!(signature(), signature());
    let mut other = signature();
    other.sig = "b3RoZXI=".to_string();
    assert_ne!(signature(), other);
    let mut other = signature();
    other.key_name = "other-1".to_string();
    assert_ne!(signature(), other);
}

#[test]
fn key_strips_the_suffix() {
    let key = build_trace_key(DRV.to_string(), "out.doi").unwrap();
    assert_eq!(key.drv_path, DRV);
    assert_eq!(key.output_name, "out");
    let key = build_trace_key(DRV.to_string(), "dev.doi.doi").unwrap();
    assert_eq!(key.output_name, "dev.doi");
    let key = build_trace_key(DRV.to_string(), ".doi").unwrap();
    assert_eq!(key.output_name, "");
}

#[test]
fn key_without_suffix_is_not_found() {
    for output in ["out", "out.do", "out.doi/", "doi", ""] {
        assert_eq!(build_trace_key(DRV.to_string(), output).unwrap_err(), ApiError::NotFound);
    }
}

#[test]
fn key_keeps_non_ascii_names() {
    let key = build_trace_key("é.drv".to_string(), "ünïcode.doi").unwrap();
    assert_eq!(key.output_name, "ünïcode");
}

#[test]
fn upload_is_accepted_and_writes_its_row() {
    let upload = begin_upload(DRV.to_string(), "out.doi", entry()).unwrap();
    let pending = upload.check(7, Some("alice".to_string())).unwrap();
    assert_eq!(pending.row.out_path_hash.as_str(), HASH);
    let before = now_micros();
    let upsert = pending.object_found(Some(out_path())).unwrap();
    let created_micros = upsert.created_at.secs as i128 * 1_000_000 + (upsert.created_at.subsec_nanos / 1_000) as i128;
    assert!(created_micros >= before as i128);
    assert!(upsert.created_at.subsec_nanos < 1_000_000_000);
    let row = upsert.row;
    assert_eq!(row.cache_id, 7);
    assert_eq!(row.drv_path, DRV);
    assert_eq!(row.output_name, "out");
    assert_eq!(row.out_path, out_path());
    assert_eq!(row.out_path_hash.as_str(), HASH);
    assert_eq!(row.signatures, vec![signature()]);
    assert_eq!(row.created_by.as_deref(), Some("alice"));
    assert_eq!(upsert_outcome(1), Ok(()));
}

#[test]
fn upload_without_suffix_is_not_found() {
    assert_eq!(begin_upload(DRV.to_string(), "out", entry()).unwrap_err(), ApiError::NotFound);
}

#[test]
fn upload_longer_than_its_columns_is_refused() {
    let long_drv = "d".repeat(MAX_DRV_PATH_LEN + 1);
    let upload = begin_upload(long_drv, "out.doi", entry()).unwrap();
    assert_eq!(upload.check(1, None).unwrap_err(), ApiError::EntryTooLong);

    let long_output = format!("{}.doi", "o".repeat(MAX_OUTPUT_NAME_LEN + 1));
    let upload = begin_upload(DRV.to_string(), &long_output, entry()).unwrap();
    assert_eq!(upload.check(1, None).unwrap_err(), ApiError::EntryTooLong);

    let long_out = BuildTraceEntry { out_path: format!("{HASH}-{}", "n".repeat(MAX_OUT_PATH_LEN)), signatures: vec![] };
    let upload = begin_upload(DRV.to_string(), "out.doi", long_out).unwrap();
    assert_eq!(upload.check(1, None).unwrap_err(), ApiError::EntryTooLong);
}

#[test]
fn limits_count_bytes_not_characters() {
    // 128 characters of two bytes each: 256 bytes, over the output name limit.
    let output = format!("{}.doi", "é".repeat(MAX_OUTPUT_NAME_LEN));
    let upload = begin_upload(DRV.to_string(), &output, entry()).unwrap();
    assert_eq!(upload.check(1, None).unwrap_err(), ApiError::EntryTooLong);
    // Exactly at the limit is accepted.
    let output = format!("{}.doi", "o".repeat(MAX_OUTPUT_NAME_LEN));
    let upload = begin_upload(DRV.to_string(), &output, entry()).unwrap();
    assert!(upload.check(1, None).is_ok());
}

#[test]
fn too_long_comes_before_malformed() {
    let bad = BuildTraceEntry { out_path: "x".repeat(MAX_OUT_PATH_LEN + 1), signatures: vec![] };
    let upload = begin_upload(DRV.to_string(), "out.doi", bad).unwrap();
    assert_eq!(upload.check(1, None).unwrap_err(), ApiError::EntryTooLong);
}

#[test]
fn upload_of_malformed_out_path_is_refused() {
    for out in ["hello", "/nix/store/0c6kzph7l0dcbyfqmb2aajkkbig6smq8-hello", HASH] {
        let e = BuildTraceEntry { out_path: out.to_string(), signatures: vec![] };
        let upload = begin_upload(DRV.to_string(), "out.doi", e).unwrap();
        assert_eq!(upload.check(1, None).unwrap_err(), ApiError::InvalidOutPath);
    }
}

#[test]
fn upload_of_path_the_cache_does_not_record_is_refused() {
    let pending = begin_upload(DRV.to_string(), "out.doi", entry()).unwrap().check(1, None).unwrap();
    assert_eq!(
        pending.object_found(Some(format!("{HASH}-hello-2.12.0"))).unwrap_err(),
        ApiError::OutPathMismatch
    );
    let pending = begin_upload(DRV.to_string(), "out.doi", entry()).unwrap().check(1, None).unwrap();
    assert_eq!(pending.object_found(None).unwrap_err(), ApiError::OutPathMismatch);
}

#[test]
fn upsert_that_wrote_nothing_answers_no_such_object() {
    assert_eq!(upsert_outcome(0), Err(ApiError::NoSuchObject));
    assert_eq!(upsert_outcome(2), Ok(()));
}

#[test]
fn read_serves_entry_while_object_matches() {
    let stored = StoredBuildTrace { out_path: out_path(), out_path_hash: HASH.to_string(), signatures: vec![signature()] };
    let pending = lookup_object_for(Some(stored)).unwrap();
    assert_eq!(pending.out_path_hash.as_str(), HASH);
    let served = pending.serve(Some(out_path())).unwrap();
    assert_eq!(served.out_path, out_path());
    assert_eq!(served.signatures, vec![signature()]);
}

#[test]
fn read_of_missing_entry_is_no_such_object() {
    assert_eq!(lookup_object_for(None).unwrap_err(), ApiError::NoSuchObject);
}

#[test]
fn read_of_entry_with_malformed_hash_is_no_such_object() {
    let stored = StoredBuildTrace { out_path: out_path(), out_path_hash: "not-a-hash".to_string(), signatures: vec![] };
    assert_eq!(lookup_object_for(Some(stored)).unwrap_err(), ApiError::NoSuchObject);
}

#[test]
fn read_of_entry_whose_object_changed_is_no_such_object() {
    let stored = StoredBuildTrace { out_path: out_path(), out_path_hash: HASH.to_string(), signatures: vec![] };
    let pending = lookup_object_for(Some(stored)).unwrap();
    assert_eq!(pending.serve(Some(format!("{HASH}-other"))).unwrap_err(), ApiError::NoSuchObject);
    let stored = StoredBuildTrace { out_path: out_path(), out_path_hash: HASH.to_string(), signatures: vec![] };
    let pending = lookup_object_for(Some(stored)).unwrap();
    assert_eq!(pending.serve(None).unwrap_err(), ApiError::NoSuchObject);
}

#[test]
fn read_after_write_returns_the_uploaded_entry() {
    let row = begin_upload(DRV.to_string(), "out.doi", entry())
        .unwrap()
        .check(3, None)
        .unwrap()
        .object_found(Some(out_path()))
        .unwrap()
        .row;
    let key = build_trace_key(DRV.to_string(), "out.doi").unwrap();
    assert_eq!((key.drv_path.as_str(), key.output_name.as_str()), (row.drv_path.as_str(), row.output_name.as_str()));
    let stored = StoredBuildTrace {
        out_path: row.out_path.clone(),
        out_path_hash: row.out_path_hash.as_str().to_string(),
        signatures: row.signatures.clone(),
    };
    let served = lookup_object_for(Some(stored)).unwrap().serve(Some(out_path())).unwrap();
    assert_eq!(served.out_path, entry().out_path);
    assert_eq!(served.signatures, entry().signatures);
}

#[test]
fn recorded_path_must_match_exactly() {
    assert!(recorded_path_matches(&Some(out_path()), &out_path()));
    assert!(!recorded_path_matches(&Some(format!("{}x", out_path())), &out_path()));
    assert!(!recorded_path_matches(&None, &out_path()));
}
