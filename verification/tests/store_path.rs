use attic::store_path::{is_store_path_base_name, is_store_path_hash, StorePath, StorePathError, StorePathHash};

const HASH: &str = "0c6kzph7l0dcbyfqmb2aajkkbig6smq8";

#[test]
fn hash_of_nix32_characters_is_accepted() {
    assert!(is_store_path_hash(HASH));
    let h = StorePathHash::new(HASH.to_string()).unwrap();
    assert_eq!(h.as_str(), HASH);
    assert_eq!(h.into_string(), HASH);
}

#[test]
fn hash_of_wrong_length_is_refused() {
    assert!(!is_store_path_hash(&HASH[..31]));
    assert!(!is_store_path_hash(&format!("{HASH}0")));
    assert!(!is_store_path_hash(""));
    assert_eq!(StorePathHash::new(HASH[..31].to_string()).unwrap_err(), StorePathError::InvalidHash);
}

#[test]
fn hash_outside_nix32_alphabet_is_refused() {
    for bad in ['e', 'o', 't', 'u', 'A', '-', '.'] {
        let s: String = std::iter::once(bad).chain(HASH.chars().skip(1)).collect();
        assert!(!is_store_path_hash(&s), "{s}");
    }
    let non_ascii: String = std::iter::once('é').chain(HASH.chars().skip(2)).collect();
    assert!(!is_store_path_hash(&non_ascii));
}

#[test]
fn base_name_is_hash_dash_name() {
    let base = format!("{HASH}-hello-2.12.1");
    assert!(is_store_path_base_name(&base));
    let p = StorePath::from_base_name(&base).unwrap();
    assert_eq!(p.base_name(), base);
    assert_eq!(p.to_hash().as_str(), HASH);
}

#[test]
fn base_name_allows_the_name_characters() {
    let base = format!("{HASH}-AZaz09+-._?=");
    assert!(is_store_path_base_name(&base));
}

#[test]
fn malformed_base_names_are_refused() {
    for bad in [
        HASH.to_string(),
        format!("{HASH}-"),
        format!("{HASH}_hello"),
        format!("{HASH}-hello world"),
        format!("{HASH}-hello/x"),
        format!("{HASH}-héllo"),
        format!("e{}-hello", &HASH[1..]),
        format!("{}-hello", &HASH[1..]),
    ] {
        assert!(!is_store_path_base_name(&bad), "{bad}");
        assert_eq!(StorePath::from_base_name(&bad).unwrap_err(), StorePathError::InvalidBaseName);
    }
}
