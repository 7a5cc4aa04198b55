use preserve_backend::bucket::{
    archive_key, block_exists_outcome, block_key, fetch_outcome, list_outcome, store_outcome,
};
use preserve_backend::backend::parse_archive_keys;
use preserve_backend::error::Error;
use preserve_backend::keystore::{check_name, BlockId, EncryptedArchiveName};

#[test]
fn block_key_is_the_id_string() {
    let id = BlockId::from_string(String::from("deadbeef"));
    assert_eq!(block_key(&id), "deadbeef");
}

#[test]
fn archive_key_lives_under_the_metadata_prefix() {
    let name = EncryptedArchiveName::from_str("0a1b").unwrap();
    assert_eq!(archive_key(&name), "metadata/0a1b");
}

#[test]
fn exists_maps_only_success_to_present() {
    assert_eq!(block_exists_outcome(200), Ok(true));
    assert_eq!(block_exists_outcome(404), Ok(false));
    assert_eq!(block_exists_outcome(500), Ok(false));
    assert_eq!(block_exists_outcome(403), Ok(false));
}

#[test]
fn fetch_maps_statuses_onto_the_taxonomy() {
    assert_eq!(fetch_outcome(200, vec![1, 2, 3]), Ok(vec![1, 2, 3]));
    assert_eq!(fetch_outcome(404, vec![]), Err(Error::NotFound));
    assert_eq!(fetch_outcome(503, vec![]), Err(Error::RemoteError));
}

#[test]
fn store_rejects_every_non_success_status() {
    assert_eq!(store_outcome(200), Ok(()));
    assert_eq!(store_outcome(403), Err(Error::RemoteError));
    assert_eq!(store_outcome(500), Err(Error::RemoteError));
}

#[test]
fn listing_strips_the_prefix_from_each_key() {
    let keys = vec![
        String::from("metadata/0a1b"),
        String::from("metadata/ffee"),
    ];
    let names = list_outcome(200, &keys).unwrap();
    let listed: Vec<String> = names.iter().map(|n| n.to_string()).collect();
    assert_eq!(listed, vec!["0a1b".to_string(), "ffee".to_string()]);
}

#[test]
fn listing_fails_on_a_remote_error_status() {
    let keys = vec![String::from("metadata/0a1b")];
    assert!(matches!(list_outcome(500, &keys), Err(Error::RemoteError)));
}

#[test]
fn listing_fails_on_a_key_outside_the_prefix() {
    let keys = vec![String::from("metadata/0a1b"), String::from("0a1b")];
    assert!(matches!(
        list_outcome(200, &keys),
        Err(Error::InvalidArchiveName)
    ));
}

#[test]
fn listing_fails_on_a_corrupt_name_under_the_prefix() {
    let keys = vec![
        String::from("metadata/0a1b"),
        String::from("metadata/NOPE"),
    ];
    assert!(matches!(
        list_outcome(200, &keys),
        Err(Error::InvalidArchiveName)
    ));
}

#[test]
fn listing_fails_on_an_empty_name_under_the_prefix() {
    let keys = vec![String::from("metadata/")];
    assert!(matches!(
        list_outcome(200, &keys),
        Err(Error::InvalidArchiveName)
    ));
}

#[test]
fn name_encoding_round_trips() {
    let name = EncryptedArchiveName::from_str("00ff37").unwrap();
    assert_eq!(name.to_string(), "00ff37");
    let again = EncryptedArchiveName::from_str(&name.to_string()).unwrap();
    assert_eq!(again.to_string(), "00ff37");
}

#[test]
fn name_parsing_rejects_bad_encodings() {
    assert!(matches!(
        EncryptedArchiveName::from_str(""),
        Err(Error::InvalidArchiveName)
    ));
    assert!(matches!(
        EncryptedArchiveName::from_str("ABC"),
        Err(Error::InvalidArchiveName)
    ));
    assert!(matches!(
        EncryptedArchiveName::from_str("0a 1b"),
        Err(Error::InvalidArchiveName)
    ));
    assert!(!check_name("g0"));
    assert!(check_name("0123456789abcdef"));
}

#[test]
fn cluster_listing_parses_bare_keys() {
    let keys = vec![String::from("0a"), String::from("1b")];
    let names = parse_archive_keys(&keys).unwrap();
    let listed: Vec<String> = names.iter().map(|n| n.to_string()).collect();
    assert_eq!(listed, vec!["0a".to_string(), "1b".to_string()]);

    let bad = vec![String::from("0a"), String::from("")];
    assert!(matches!(
        parse_archive_keys(&bad),
        Err(Error::InvalidArchiveName)
    ));
}
