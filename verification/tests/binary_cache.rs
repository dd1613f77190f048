use attic::binary_cache::{parse_nar_path, parse_narinfo_path, plan_nar_delivery, NarDelivery, NixCacheInfo, NAR_PREFETCH_CHUNKS};
use attic::error::ApiError;

const HASH: &str = "0c6kzph7l0dcbyfqmb2aajkkbig6smq8";

#[test]
fn narinfo_path_names_its_hash() {
    let h = parse_narinfo_path(&format!("{HASH}.narinfo")).unwrap();
    assert_eq!(h.as_str(), HASH);
}

#[test]
fn narinfo_path_with_other_extension_is_not_found() {
    for path in [format!("{HASH}.ls"), format!("{HASH}.nar"), format!("{HASH}.narinfo.x"), HASH.to_string()] {
        assert_eq!(parse_narinfo_path(&path).unwrap_err(), ApiError::NotFound, "{path}");
    }
}

#[test]
fn narinfo_path_with_bad_hash_is_refused() {
    assert_eq!(parse_narinfo_path("abc.narinfo").unwrap_err(), ApiError::InvalidStorePathHash);
    assert_eq!(parse_narinfo_path(".narinfo").unwrap_err(), ApiError::InvalidStorePathHash);
}

#[test]
fn nar_path_names_its_hash() {
    assert_eq!(parse_nar_path(&format!("{HASH}.nar")).unwrap().as_str(), HASH);
    assert_eq!(parse_nar_path(&format!("{HASH}.narinfo")).unwrap_err(), ApiError::NotFound);
    assert_eq!(parse_nar_path(&format!("{HASH}.nar.xz")).unwrap_err(), ApiError::NotFound);
}

#[test]
fn nar_with_missing_chunk_is_incomplete() {
    assert_eq!(plan_nar_delivery(&vec![true, false, true]), Err(ApiError::IncompleteNar));
    assert_eq!(plan_nar_delivery(&vec![false]), Err(ApiError::IncompleteNar));
}

#[test]
fn nar_of_one_chunk_is_sent_as_it_is() {
    assert_eq!(plan_nar_delivery(&vec![true]), Ok(NarDelivery::SingleChunk));
}

#[test]
fn nar_of_several_chunks_is_reassembled() {
    assert_eq!(NAR_PREFETCH_CHUNKS, 2);
    assert_eq!(plan_nar_delivery(&vec![true, true]), Ok(NarDelivery::Reassemble { prefetch: 2 }));
    assert_eq!(plan_nar_delivery(&vec![]), Ok(NarDelivery::Reassemble { prefetch: 2 }));
}

#[test]
fn cache_info_supports_mass_queries() {
    let info = NixCacheInfo::for_cache("/nix/store".to_string(), 40);
    assert!(info.want_mass_query);
    assert_eq!(info.store_dir, "/nix/store");
    assert_eq!(info.priority, 40);
}

#[test]
fn cache_info_manifest_holds_the_documented_lines() {
    let info = NixCacheInfo::for_cache("/nix/store".to_string(), 40);
    let body = info.to_manifest();
    assert_eq!(body, "WantMassQuery: 1\nStoreDir: /nix/store\nPriority: 40\n");
    let mut lines: Vec<&str> = body.lines().collect();
    lines.sort();
    assert_eq!(lines, vec!["Priority: 40", "StoreDir: /nix/store", "WantMassQuery: 1"]);
}

#[test]
fn cache_info_manifest_writes_any_priority() {
    let mut info = NixCacheInfo::for_cache("/gnu/store".to_string(), -7);
    assert_eq!(info.to_manifest(), "WantMassQuery: 1\nStoreDir: /gnu/store\nPriority: -7\n");
    info.priority = i32::MIN;
    info.want_mass_query = false;
    assert_eq!(info.to_manifest(), "WantMassQuery: 0\nStoreDir: /gnu/store\nPriority: -2147483648\n");
    info.priority = 0;
    assert!(info.to_manifest().ends_with("Priority: 0\n"));
    info.priority = i32::MAX;
    assert!(info.to_manifest().ends_with("Priority: 2147483647\n"));
}

#[test]
fn narinfo_is_signed_only_where_unsigned() {
    assert!(attic::binary_cache::narinfo_needs_signature(&None));
    assert!(!attic::binary_cache::narinfo_needs_signature(&Some("cache-1:c2ln".to_string())));
}
