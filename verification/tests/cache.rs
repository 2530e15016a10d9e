use module_cache::checksum::Checksum;
use module_cache::directory::CacheDirectory;
use module_cache::errors::VmError;
use module_cache::file_system_cache::{
    estimate_module_size, FileSystemCache, LoadOutcome, Module, NewFileSystemCacheError,
    PathStatus, RemoveOutcome, StoreOutcome,
};

fn writable_cache(base: &str, version: u32) -> FileSystemCache {
    FileSystemCache::new(
        String::from(base),
        version,
        PathStatus::Directory { readonly: false },
    )
    .unwrap()
}

fn err_message(e: VmError) -> String {
    String::from(e.message())
}

#[test]
fn checksum_generate_is_deterministic() {
    let a = Checksum::generate(b"some wasm program");
    let b = Checksum::generate(b"some wasm program");
    assert_eq!(a, b);
    assert_eq!(a.to_hex(), b.to_hex());
}

#[test]
fn checksum_hex_has_expected_values() {
    // Well-known SHA-256 digests, rendered as lowercase hex.
    assert_eq!(
        Checksum::generate(b"").to_hex(),
        "e3b0c44298fc1c149afbf4c8996fb92427ae41e4649b934ca495991b7852b855"
    );
    assert_eq!(
        Checksum::generate(b"abc").to_hex(),
        "ba7816bf8f01cfea414140de5dae2223b00361a396177a9cb410ff61f20015ad"
    );
    assert_eq!(Checksum::generate(b"abc").to_hex().len(), 64);
}

#[test]
fn latest_modules_path_renders_version_tag() {
    assert_eq!(
        writable_cache("base", 0).latest_modules_path(),
        "base/v4-wasmer0"
    );
    assert_eq!(
        writable_cache("base", 1).latest_modules_path(),
        "base/v4-wasmer1"
    );
    assert_eq!(
        writable_cache("/tmp/cache", 10).latest_modules_path(),
        "/tmp/cache/v4-wasmer10"
    );
    assert_eq!(
        writable_cache("b", 4294967295).latest_modules_path(),
        "b/v4-wasmer4294967295"
    );
}

#[test]
fn file_system_cache_store_uses_expected_path() {
    let cache = writable_cache("/some/base", 1);
    let checksum = Checksum::generate(b"some wasm program");
    let expected = format!("/some/base/v4-wasmer1/{}", checksum.to_hex());
    assert_eq!(cache.module_file_path(&checksum), expected);
}

#[test]
fn version_tags_partition_paths() {
    let c1 = writable_cache("/some/base", 1);
    let c2 = writable_cache("/some/base", 2);
    let checksum = Checksum::generate(b"same program");
    assert_ne!(c1.latest_modules_path(), c2.latest_modules_path());
    assert_ne!(c1.module_file_path(&checksum), c2.module_file_path(&checksum));
}

#[test]
fn new_validates_path_status() {
    // Scenario: the base path is an existing regular file, not a directory.
    let r = FileSystemCache::new(String::from("/some/file"), 1, PathStatus::NotADirectory);
    assert_eq!(r.unwrap_err(), NewFileSystemCacheError::ExistsButNoDirectory);

    let r = FileSystemCache::new(String::from("p"), 1, PathStatus::MetadataUnavailable);
    assert_eq!(r.unwrap_err(), NewFileSystemCacheError::CouldntGetMetadata);

    let r = FileSystemCache::new(
        String::from("p"),
        1,
        PathStatus::Directory { readonly: true },
    );
    assert_eq!(r.unwrap_err(), NewFileSystemCacheError::ReadonlyPath);

    let r = FileSystemCache::new(String::from("p"), 1, PathStatus::CreateFailed);
    assert_eq!(r.unwrap_err(), NewFileSystemCacheError::CouldntCreatePath);

    assert!(FileSystemCache::new(String::from("p"), 1, PathStatus::Created).is_ok());
    assert!(
        FileSystemCache::new(String::from("p"), 1, PathStatus::Directory { readonly: false })
            .is_ok()
    );
}

#[test]
fn new_error_messages_are_fixed() {
    assert_eq!(
        NewFileSystemCacheError::CouldntGetMetadata.message(),
        "Could not get metadata of cache path"
    );
    assert_eq!(
        NewFileSystemCacheError::ReadonlyPath.message(),
        "The supplied path is readonly"
    );
    assert_eq!(
        NewFileSystemCacheError::ExistsButNoDirectory.message(),
        "The supplied path already exists but is no directory"
    );
    assert_eq!(
        NewFileSystemCacheError::CouldntCreatePath.message(),
        "Could not create cache path"
    );
}

#[test]
fn load_maps_outcomes_deterministically() {
    let cache = writable_cache("base", 1);
    let checksum = Checksum::generate(b"program");

    let missing = cache.load(&checksum, LoadOutcome::Missing).unwrap();
    assert!(missing.is_none());

    let module = Module::from_bytes(vec![1, 2, 3, 4, 5]);
    let loaded = cache
        .load(&checksum, LoadOutcome::Loaded { module })
        .unwrap()
        .unwrap();
    assert_eq!(loaded.0.as_bytes(), &vec![1u8, 2, 3, 4, 5]);
    assert_eq!(loaded.1, 5);

    let e = cache.load(&checksum, LoadOutcome::Unreadable).unwrap_err();
    assert_eq!(err_message(e), "Error opening module file");

    let e = cache.load(&checksum, LoadOutcome::Undecodable).unwrap_err();
    assert_eq!(err_message(e), "Error deserializing module");
}

#[test]
fn store_and_remove_map_outcomes_deterministically() {
    let mut cache = writable_cache("base", 1);
    let checksum = Checksum::generate(b"program");
    let module = Module::from_bytes(vec![9; 17]);

    let size = cache
        .store(&checksum, &module, StoreOutcome::Written)
        .unwrap();
    assert_eq!(size, 17);

    let e = cache
        .store(&checksum, &module, StoreOutcome::DirectoryUnavailable)
        .unwrap_err();
    assert_eq!(err_message(e), "Error creating modules directory");

    let e = cache
        .store(&checksum, &module, StoreOutcome::WriteFailed)
        .unwrap_err();
    assert_eq!(err_message(e), "Error writing module to disk");

    assert!(!cache.remove(&checksum, RemoveOutcome::Missing).unwrap());
    assert!(cache.remove(&checksum, RemoveOutcome::Removed).unwrap());
    let e = cache
        .remove(&checksum, RemoveOutcome::RemoveFailed)
        .unwrap_err();
    assert_eq!(err_message(e), "Error deleting module from disk");
}

#[test]
fn estimate_module_size_reports_file_length() {
    assert_eq!(estimate_module_size(Some(0)).unwrap(), 0);
    assert_eq!(estimate_module_size(Some(123456)).unwrap(), 123456);
    let e = estimate_module_size(None).unwrap_err();
    assert_eq!(err_message(e), "Error getting file metadata");
}

#[test]
fn file_system_cache_run() {
    // Scenario: a fresh versioned directory; a load misses, a store succeeds,
    // a later load finds the stored artifact with its size.
    let mut dir = CacheDirectory::new();
    let checksum = Checksum::generate(b"(module add_one)");
    let filename = checksum.to_hex();
    let serialized: Vec<u8> = vec![0, 97, 115, 109, 42, 43];

    assert!(dir.load_entry(&filename).is_none());

    let size = dir.store_entry(filename.clone(), serialized.clone());
    assert_eq!(size, serialized.len());

    let (bytes, loaded_size) = dir.load_entry(&filename).unwrap();
    assert_eq!(bytes, &serialized);
    assert_eq!(loaded_size, serialized.len());
}

#[test]
fn file_system_cache_overwrites_entry() {
    // Scenario: two stores under the same key; the last write wins.
    let mut dir = CacheDirectory::new();
    let filename = Checksum::generate(b"program").to_hex();

    dir.store_entry(filename.clone(), vec![1, 1, 1]);
    dir.store_entry(filename.clone(), vec![2, 2, 2, 2]);

    let (bytes, size) = dir.load_entry(&filename).unwrap();
    assert_eq!(bytes, &vec![2u8, 2, 2, 2]);
    assert_eq!(size, 4);
}

#[test]
fn file_system_cache_remove_works() {
    // Scenario: store, remove (it existed), miss, remove again (nothing).
    let mut dir = CacheDirectory::new();
    let filename = Checksum::generate(b"program").to_hex();

    dir.store_entry(filename.clone(), vec![7, 7]);
    assert!(dir.load_entry(&filename).is_some());

    let existed = dir.remove_entry(&filename);
    assert!(existed);

    assert!(dir.load_entry(&filename).is_none());

    let existed = dir.remove_entry(&filename);
    assert!(!existed);
}

#[test]
fn remove_of_absent_entry_changes_nothing() {
    let mut dir = CacheDirectory::new();
    let kept = Checksum::generate(b"kept").to_hex();
    let absent = Checksum::generate(b"absent").to_hex();

    dir.store_entry(kept.clone(), vec![5, 5, 5]);
    assert!(!dir.remove_entry(&absent));

    let (bytes, size) = dir.load_entry(&kept).unwrap();
    assert_eq!(bytes, &vec![5u8, 5, 5]);
    assert_eq!(size, 3);
}

#[test]
fn entries_of_distinct_names_do_not_interfere() {
    let mut dir = CacheDirectory::new();
    let f1 = Checksum::generate(b"one").to_hex();
    let f2 = Checksum::generate(b"two").to_hex();

    dir.store_entry(f1.clone(), vec![1]);
    dir.store_entry(f2.clone(), vec![2, 2]);

    assert_eq!(dir.load_entry(&f1).unwrap().0, &vec![1u8]);
    assert_eq!(dir.load_entry(&f2).unwrap().0, &vec![2u8, 2]);

    dir.remove_entry(&f1);
    assert!(dir.load_entry(&f1).is_none());
    assert_eq!(dir.load_entry(&f2).unwrap().0, &vec![2u8, 2]);
}
