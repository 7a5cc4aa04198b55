use preserve_backend::backend::Backend;
use preserve_backend::error::Error;
use preserve_backend::keystore::{BlockId, EncryptedArchive, EncryptedArchiveName, EncryptedBlock};
use preserve_backend::memory::MemoryBackend;

fn block_id(s: &str) -> BlockId {
    BlockId::from_string(String::from(s))
}

fn archive_name(s: &str) -> EncryptedArchiveName {
    EncryptedArchiveName::from_str(s).unwrap()
}

#[test]
fn block_round_trip() {
    let mut backend = MemoryBackend::new();
    let id = block_id("00f3a9");
    let data = EncryptedBlock(vec![9, 8, 7, 6, 5]);
    backend.store_block(&id, &data).unwrap();
    let fetched = backend.fetch_block(&id).unwrap();
    assert_eq!(fetched.0, vec![9, 8, 7, 6, 5]);
}

#[test]
fn block_restore_same_content_is_idempotent() {
    let mut backend = MemoryBackend::new();
    let id = block_id("11");
    let data = EncryptedBlock(vec![1, 2, 3]);
    backend.store_block(&id, &data).unwrap();
    backend.store_block(&id, &data).unwrap();
    assert_eq!(backend.fetch_block(&id).unwrap().0, vec![1, 2, 3]);
}

#[test]
fn archive_overwrite_last_write_wins() {
    let mut backend = MemoryBackend::new();
    let name = archive_name("ab01");
    let first = EncryptedArchive(vec![1, 1, 1]);
    let second = EncryptedArchive(vec![2, 2, 2]);
    backend.store_archive(&name, &first).unwrap();
    backend.store_archive(&name, &second).unwrap();
    assert_eq!(backend.fetch_archive(&name).unwrap().0, vec![2, 2, 2]);
}

#[test]
fn existence_semantics() {
    let mut backend = MemoryBackend::new();
    let id = block_id("c0ffee");
    assert_eq!(backend.block_exists(&id).unwrap(), false);
    backend.store_block(&id, &EncryptedBlock(vec![0])).unwrap();
    assert_eq!(backend.block_exists(&id).unwrap(), true);
}

#[test]
fn listing_completeness() {
    let mut backend = MemoryBackend::new();
    let names = ["0a", "1b", "2c"];
    for n in names {
        backend
            .store_archive(&archive_name(n), &EncryptedArchive(vec![7]))
            .unwrap();
    }
    let mut listed: Vec<String> = backend
        .list_archives()
        .unwrap()
        .iter()
        .map(|n| n.to_string())
        .collect();
    listed.sort();
    assert_eq!(listed, vec!["0a".to_string(), "1b".to_string(), "2c".to_string()]);
}

#[test]
fn listing_overwrite_is_in_place() {
    let mut backend = MemoryBackend::new();
    let name = archive_name("ff");
    backend.store_archive(&name, &EncryptedArchive(vec![1])).unwrap();
    backend.store_archive(&name, &EncryptedArchive(vec![2])).unwrap();
    let listed = backend.list_archives().unwrap();
    assert_eq!(listed.len(), 1);
    assert_eq!(listed[0].to_string(), "ff");
}

#[test]
fn listing_fails_on_one_corrupt_key() {
    let mut backend = MemoryBackend::new();
    backend
        .store_archive(&archive_name("0a"), &EncryptedArchive(vec![1]))
        .unwrap();
    backend
        .store_archive(&archive_name("1b"), &EncryptedArchive(vec![2]))
        .unwrap();
    backend.store_raw_meta(String::from("NOT-A-NAME"), vec![3]);
    assert!(matches!(
        backend.list_archives(),
        Err(Error::InvalidArchiveName)
    ));
}

#[test]
fn fetch_missing_block_is_not_found() {
    let mut backend = MemoryBackend::new();
    let id = block_id("0123456789abcdef");
    assert!(matches!(backend.fetch_block(&id), Err(Error::NotFound)));
}

#[test]
fn fetch_missing_archive_is_not_found() {
    let mut backend = MemoryBackend::new();
    let name = archive_name("abcdef");
    assert!(matches!(backend.fetch_archive(&name), Err(Error::NotFound)));
}

#[test]
fn concrete_scenario() {
    let mut backend = MemoryBackend::new();
    let b1 = block_id("b1");
    let b2 = block_id("b2");
    backend
        .store_block(&b1, &EncryptedBlock(vec![0x01, 0x02, 0x03]))
        .unwrap();
    assert_eq!(backend.block_exists(&b1).unwrap(), true);
    assert_eq!(backend.fetch_block(&b1).unwrap().0, vec![0x01, 0x02, 0x03]);
    assert!(matches!(backend.fetch_block(&b2), Err(Error::NotFound)));
}
