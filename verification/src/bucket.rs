use vstd::prelude::*;
use vstd::string::*;

use crate::error::Error;
use crate::keystore::{is_valid_name, BlockId, EncryptedArchiveName};

verus! {

/// Status a bucket request answers with on success.
pub const STATUS_OK: u16 = 200;

/// Status a bucket request answers with for an absent key.
pub const STATUS_NOT_FOUND: u16 = 404;

/// The key prefix that separates the metadata namespace from the data
/// namespace inside one bucket.
pub open spec fn metadata_prefix() -> Seq<char> {
    "metadata/"@
}

/// The bucket key of a block: the literal string form of its id.
pub fn block_key(id: &BlockId) -> (r: String)
    ensures
        r@ == id@,
{
    id.to_string()
}

/// The bucket key of an archive: its name encoding under the metadata
/// prefix.
pub fn archive_key(name: &EncryptedArchiveName) -> (r: String)
    ensures
        r@ == metadata_prefix() + name@,
{
    let n = name.to_string();
    let key = String::from_str("metadata/").concat(n.as_str());
    key
}

/// Decision for `block_exists` from the status of a read request: 200
/// means present; 404 and every other status are both reported as absent,
/// never as a failure.
pub fn block_exists_outcome(status: u16) -> (r: Result<bool, Error>)
    ensures
        r == Ok::<bool, Error>(status == STATUS_OK),
{
    if status == STATUS_OK {
        Ok(true)
    } else {
        Ok(false)
    }
}

/// Decision for a full read from its status and returned bytes: 200 yields
/// the payload, 404 is `NotFound`, every other status is `RemoteError`.
pub fn fetch_outcome(status: u16, body: Vec<u8>) -> (r: Result<Vec<u8>, Error>)
    ensures
        status == STATUS_OK ==> r == Ok::<Vec<u8>, Error>(body),
        status == STATUS_NOT_FOUND ==> r == Err::<Vec<u8>, Error>(Error::NotFound),
        status != STATUS_OK && status != STATUS_NOT_FOUND ==> r == Err::<Vec<u8>, Error>(
            Error::RemoteError,
        ),
{
    if status == STATUS_OK {
        Ok(body)
    } else if status == STATUS_NOT_FOUND {
        Err(Error::NotFound)
    } else {
        Err(Error::RemoteError)
    }
}

/// Decision for a full write from its status: anything but 200 surfaces as
/// a write error, never a silent success.
pub fn store_outcome(status: u16) -> (r: Result<(), Error>)
    ensures
        status == STATUS_OK ==> r is Ok,
        status != STATUS_OK ==> r == Err::<(), Error>(Error::RemoteError),
{
    if status == STATUS_OK {
        Ok(())
    } else {
        Err(Error::RemoteError)
    }
}

/// Whether a bucket key lies in the metadata namespace and carries a valid
/// archive-name encoding after the prefix.
pub open spec fn is_archive_key(k: Seq<char>) -> bool {
    &&& k.len() > metadata_prefix().len()
    &&& k.subrange(0, metadata_prefix().len() as int) == metadata_prefix()
    &&& is_valid_name(k.skip(metadata_prefix().len() as int))
}

/// Parses one key of a prefixed listing back into the archive name it was
/// written under.
fn parse_archive_key(k: &str) -> (r: Result<EncryptedArchiveName, Error>)
    ensures
        r is Ok <==> is_archive_key(k@),
        r matches Ok(n) ==> metadata_prefix() + n@ == k@,
        r is Err ==> r == Err::<EncryptedArchiveName, Error>(Error::InvalidArchiveName),
{
    proof {
        reveal_strlit("metadata/");
    }
    let len = k.unicode_len();
    if len <= 9 {
        return Err(Error::InvalidArchiveName);
    }
    let head = k.substring_char(0, 9);
    let head_string = String::from_str(head);
    let prefix_string = String::from_str("metadata/");
    if !(head_string == prefix_string) {
        return Err(Error::InvalidArchiveName);
    }
    let tail = k.substring_char(9, len);
    match EncryptedArchiveName::from_str(tail) {
        Ok(name) => {
            proof {
                assert(metadata_prefix() + k@.skip(9) =~= k@);
            }
            Ok(name)
        },
        Err(e) => Err(e),
    }
}

/// Interprets the answer of a prefixed listing request against the
/// metadata namespace: a non-200 status is an enumeration error; on 200
/// each key is parsed under the all-or-nothing policy, so one key without
/// a valid archive form fails the whole listing with `InvalidArchiveName`.
pub fn list_outcome(status: u16, keys: &Vec<String>) -> (r: Result<Vec<EncryptedArchiveName>, Error>)
    ensures
        status != STATUS_OK ==> r == Err::<Vec<EncryptedArchiveName>, Error>(Error::RemoteError),
        status == STATUS_OK ==> {
            &&& r is Ok <==> (forall|i: int|
                0 <= i < keys@.len() ==> is_archive_key(#[trigger] keys@[i]@))
            &&& (r matches Ok(v) ==> v@.len() == keys@.len() && (forall|i: int|
                0 <= i < v@.len() ==> metadata_prefix() + #[trigger] v@[i]@ == keys@[i]@))
            &&& (r is Err ==> r == Err::<Vec<EncryptedArchiveName>, Error>(
                Error::InvalidArchiveName,
            ))
        },
{
    if status != STATUS_OK {
        return Err(Error::RemoteError);
    }
    let mut names: Vec<EncryptedArchiveName> = Vec::new();
    let n = keys.len();
    for idx in 0..n
        invariant
            status == STATUS_OK,
            n == keys@.len(),
            names@.len() == idx,
            forall|i: int| 0 <= i < idx ==> is_archive_key(#[trigger] keys@[i]@),
            forall|i: int| 0 <= i < idx ==> metadata_prefix() + #[trigger] names@[i]@ == keys@[i]@,
    {
        match parse_archive_key(keys[idx].as_str()) {
            Ok(name) => names.push(name),
            Err(_) => {
                return Err(Error::InvalidArchiveName);
            },
        }
    }
    Ok(names)
}

} // verus!
