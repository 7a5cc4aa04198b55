use vstd::prelude::*;

use crate::error::Error;
use crate::keystore::{is_valid_name, BlockId, EncryptedArchive, EncryptedArchiveName, EncryptedBlock};

verus! {

/// The model of one namespace of a backing store: the payload currently
/// stored under each object key.
pub type Namespace = Map<Seq<char>, Seq<u8>>;

/// The namespace after a full write of `data` under `key`: any object
/// already at that key is replaced.
pub open spec fn ns_store(ns: Namespace, key: Seq<char>, data: Seq<u8>) -> Namespace {
    ns.insert(key, data)
}

/// What a full read of `key` yields: the stored payload, or nothing when
/// the key is absent.
pub open spec fn ns_fetch(ns: Namespace, key: Seq<char>) -> Option<Seq<u8>> {
    if ns.contains_key(key) {
        Some(ns[key])
    } else {
        None
    }
}

/// Whether an object is present under `key`.
pub open spec fn ns_exists(ns: Namespace, key: Seq<char>) -> bool {
    ns.contains_key(key)
}

/// The set of keys an enumeration of the namespace walks.
pub open spec fn ns_keys(ns: Namespace) -> Set<Seq<char>> {
    ns.dom()
}

/// The capability contract every backend implements: two namespaces, one
/// for content-addressed blocks and one for named archives, driven through
/// six operations with identical externally observable semantics.
///
/// A failed operation reports its specific kind; no operation retries.
pub trait Backend {
    /// The data namespace: blocks, keyed by the string form of their id.
    spec fn data_ns(&self) -> Namespace;

    /// The metadata namespace: archives, keyed by their name encoding.
    spec fn meta_ns(&self) -> Namespace;

    /// Best-effort presence check for a block. A concurrent writer may
    /// invalidate the answer right after it is returned; an unrecoverable
    /// connection fault is the only failure.
    fn block_exists(&mut self, id: &BlockId) -> (r: Result<bool, Error>)
        ensures
            final(self).data_ns() == old(self).data_ns(),
            final(self).meta_ns() == old(self).meta_ns(),
            r matches Ok(b) ==> b == ns_exists(old(self).data_ns(), id@),
            r is Err ==> r == Err::<bool, Error>(Error::ConnectionError),
    ;

    /// Writes the full payload under `id` in the data namespace, replacing
    /// any existing object at that key.
    fn store_block(&mut self, id: &BlockId, data: &EncryptedBlock) -> (r: Result<(), Error>)
        ensures
            final(self).meta_ns() == old(self).meta_ns(),
            r is Ok ==> final(self).data_ns() == ns_store(old(self).data_ns(), id@, data@),
    ;

    /// Reads the full payload stored under `id` in the data namespace.
    /// Fails with `NotFound` exactly when the id is absent.
    fn fetch_block(&mut self, id: &BlockId) -> (r: Result<EncryptedBlock, Error>)
        ensures
            final(self).data_ns() == old(self).data_ns(),
            final(self).meta_ns() == old(self).meta_ns(),
            r matches Ok(b) ==> ns_fetch(old(self).data_ns(), id@) == Some(b@),
            r == Err::<EncryptedBlock, Error>(Error::NotFound) ==> ns_fetch(
                old(self).data_ns(),
                id@,
            ) is None,
    ;

    /// Reads the full payload stored under `name` in the metadata
    /// namespace. Fails with `NotFound` exactly when the name is absent.
    fn fetch_archive(&mut self, name: &EncryptedArchiveName) -> (r: Result<
        EncryptedArchive,
        Error,
    >)
        ensures
            final(self).data_ns() == old(self).data_ns(),
            final(self).meta_ns() == old(self).meta_ns(),
            r matches Ok(a) ==> ns_fetch(old(self).meta_ns(), name@) == Some(a@),
            r == Err::<EncryptedArchive, Error>(Error::NotFound) ==> ns_fetch(
                old(self).meta_ns(),
                name@,
            ) is None,
    ;

    /// Writes the full payload under `name` in the metadata namespace;
    /// a later store under the same name overwrites in place.
    fn store_archive(&mut self, name: &EncryptedArchiveName, data: &EncryptedArchive) -> (r:
        Result<(), Error>)
        ensures
            final(self).data_ns() == old(self).data_ns(),
            r is Ok ==> final(self).meta_ns() == ns_store(old(self).meta_ns(), name@, data@),
    ;

    /// Enumerates every key of the metadata namespace and parses each back
    /// into an archive name. All-or-nothing: one key that is not a valid
    /// name encoding fails the whole enumeration with `InvalidArchiveName`.
    fn list_archives(&mut self) -> (r: Result<Vec<EncryptedArchiveName>, Error>)
        ensures
            final(self).data_ns() == old(self).data_ns(),
            final(self).meta_ns() == old(self).meta_ns(),
            r matches Ok(v) ==> (forall|i: int|
                0 <= i < v@.len() ==> ns_keys(old(self).meta_ns()).contains(#[trigger] v@[i]@)),
            r matches Ok(v) ==> (forall|k: Seq<char>|
                ns_keys(old(self).meta_ns()).contains(k) ==> exists|i: int|
                    0 <= i < v@.len() && #[trigger] v@[i]@ == k),
            r == Err::<Vec<EncryptedArchiveName>, Error>(Error::InvalidArchiveName)
                ==> exists|k: Seq<char>|
                ns_keys(old(self).meta_ns()).contains(k) && !is_valid_name(k),
    ;
}

/// The all-or-nothing listing policy shared by every backend: parse each
/// enumerated key as an archive name; on the first key that does not
/// parse, discard everything and fail with `InvalidArchiveName`.
pub fn parse_archive_keys(keys: &Vec<String>) -> (r: Result<Vec<EncryptedArchiveName>, Error>)
    ensures
        r is Ok <==> (forall|i: int| 0 <= i < keys@.len() ==> is_valid_name(#[trigger] keys@[i]@)),
        r matches Ok(v) ==> v@.len() == keys@.len() && (forall|i: int|
            0 <= i < v@.len() ==> #[trigger] v@[i]@ == keys@[i]@),
        r is Err ==> r == Err::<Vec<EncryptedArchiveName>, Error>(Error::InvalidArchiveName),
{
    let mut names: Vec<EncryptedArchiveName> = Vec::new();
    let n = keys.len();
    for idx in 0..n
        invariant
            n == keys@.len(),
            names@.len() == idx,
            forall|i: int| 0 <= i < idx ==> is_valid_name(#[trigger] keys@[i]@),
            forall|i: int| 0 <= i < idx ==> #[trigger] names@[i]@ == keys@[i]@,
    {
        match EncryptedArchiveName::from_str(keys[idx].as_str()) {
            Ok(name) => names.push(name),
            Err(_) => {
                return Err(Error::InvalidArchiveName);
            },
        }
    }
    Ok(names)
}

} // verus!
