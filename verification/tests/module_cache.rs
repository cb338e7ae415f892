use wasmer_wasi::module_cache::{
    webc_cache_after_fetch, webc_cache_lookup, webc_cache_update, WebcCacheUpdate, WebcFetched,
    WebcLookup,
};
use wasmer_wasi::module_cache::{
    compiled_module_file_name, compiled_module_key, decode_compiled_module,
    encode_compiled_module, resolve_cache_dir, wapm_package_name, webc_cache_entry_is_fresh,
    DEFAULT_CACHE_TIME, DEFAULT_COMPILED_PATH, DEFAULT_WEBC_PATH,
};

#[test]
fn cache_time_is_thirty_seconds() {
    assert_eq!(DEFAULT_CACHE_TIME, 30 * 1_000_000_000);
}

#[test]
fn fresh_within_cache_time() {
    assert!(webc_cache_entry_is_fresh(100, 100));
    assert!(webc_cache_entry_is_fresh(DEFAULT_CACHE_TIME + 5, 5));
    assert!(!webc_cache_entry_is_fresh(DEFAULT_CACHE_TIME + 6, 5));
}

#[test]
fn wapm_name_before_colon() {
    assert_eq!(wapm_package_name("sharrattj/bash:latest"), "sharrattj/bash");
    assert_eq!(wapm_package_name("a:b:c"), "a");
    assert_eq!(wapm_package_name(":x"), "");
}

#[test]
fn wapm_name_without_colon() {
    assert_eq!(wapm_package_name("python"), "python");
    assert_eq!(wapm_package_name(""), "");
}

#[test]
fn module_key_and_file_name() {
    let key = compiled_module_key("abc123", "cranelift");
    assert_eq!(key, "abc123-cranelift");
    assert_eq!(compiled_module_file_name(&key), "abc123-cranelift.bin");
}

#[test]
fn cache_dir_without_tilde_is_kept() {
    assert_eq!(resolve_cache_dir(Some("/tmp/cache".to_string()), DEFAULT_COMPILED_PATH), "/tmp/cache");
    assert_eq!(resolve_cache_dir(Some("~other/cache".to_string()), DEFAULT_WEBC_PATH), "~other/cache");
}

#[test]
fn default_cache_dir_is_expanded() {
    let dir = resolve_cache_dir(None, DEFAULT_COMPILED_PATH);
    assert!(dir.ends_with("/.wasmer/compiled"));
    assert!(!dir.starts_with('~'));
    let webc = resolve_cache_dir(None, DEFAULT_WEBC_PATH);
    assert!(webc.ends_with("/.wasmer/webc"));
}

#[test]
fn compressed_module_round_trip() {
    let data: Vec<u8> = b"ABABABABABABABABABAB wasm module bytes".to_vec();
    let encoded = encode_compiled_module(&data).unwrap();
    assert_ne!(encoded, data);
    let decoded = decode_compiled_module(&encoded).unwrap();
    assert_eq!(decoded, data);
}

#[test]
fn garbage_does_not_decode() {
    assert_eq!(decode_compiled_module(&[0xff, 0xff, 0xff, 0xff]), None);
}

#[test]
fn fetched_same_package_refreshes() {
    let h = "hash1".to_string();
    let v = "1.0.0".to_string();
    assert_eq!(webc_cache_update(Some((&h, &v)), &h, &v), WebcCacheUpdate::RefreshExisting);
    let h2 = "hash2".to_string();
    let v2 = "1.0.1".to_string();
    assert_eq!(webc_cache_update(Some((&h, &v)), &h2, &v), WebcCacheUpdate::Insert);
    assert_eq!(webc_cache_update(Some((&h, &v)), &h, &v2), WebcCacheUpdate::Insert);
    assert_eq!(webc_cache_update(None, &h, &v), WebcCacheUpdate::Insert);
}

#[test]
fn lookup_uses_fresh_cache() {
    assert_eq!(webc_cache_lookup("python:3.11", Some(10), 20), WebcLookup::UseCached);
}

#[test]
fn lookup_fetches_when_stale_or_missing() {
    assert_eq!(
        webc_cache_lookup("python:3.11", Some(0), DEFAULT_CACHE_TIME + 1),
        WebcLookup::Fetch("python")
    );
    assert_eq!(webc_cache_lookup("sharrattj/bash", None, 5), WebcLookup::Fetch("sharrattj/bash"));
}

#[test]
fn after_fetch_decisions() {
    let h = "h".to_string();
    let v = "1".to_string();
    let v2 = "2".to_string();
    assert_eq!(webc_cache_after_fetch(None, Some((&h, &v))), WebcFetched::NotFound);
    assert_eq!(webc_cache_after_fetch(Some((&h, &v)), Some((&h, &v))), WebcFetched::RefreshExisting);
    assert_eq!(webc_cache_after_fetch(Some((&h, &v2)), Some((&h, &v))), WebcFetched::Insert);
    assert_eq!(webc_cache_after_fetch(Some((&h, &v)), None), WebcFetched::Insert);
}

#[test]
fn encoding_always_succeeds() {
    assert!(encode_compiled_module(&[]).is_some());
    let all: Vec<u8> = (0..=255u8).collect();
    let enc = encode_compiled_module(&all).unwrap();
    assert_eq!(decode_compiled_module(&enc).unwrap(), all);
}
