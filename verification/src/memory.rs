use vstd::prelude::*;

use crate::backend::{ns_exists, ns_fetch, ns_keys, ns_store, parse_archive_keys, Backend, Namespace};
use crate::error::Error;
use crate::keystore::{is_valid_name, BlockId, EncryptedArchive, EncryptedArchiveName, EncryptedBlock};
use crate::kvstore::{clone_bytes, KvStore};

verus! {

/// A backend that keeps both namespaces in process memory. It is the
/// reference implementation of the capability contract: the two remote
/// adapters are held to the same externally observable semantics.
pub struct MemoryBackend {
    data: KvStore,
    meta: KvStore,
}

impl MemoryBackend {
    /// A backend with two empty namespaces.
    pub fn new() -> (b: MemoryBackend)
        ensures
            b.data_ns() == Map::<Seq<char>, Seq<u8>>::empty(),
            b.meta_ns() == Map::<Seq<char>, Seq<u8>>::empty(),
    {
        MemoryBackend { data: KvStore::new(), meta: KvStore::new() }
    }

    /// Writes an object directly under a raw key of the metadata
    /// namespace, the way a foreign writer sharing the store could: the
    /// key need not be a valid archive-name encoding.
    pub fn store_raw_meta(&mut self, key: String, data: Vec<u8>)
        ensures
            final(self).data_ns() == old(self).data_ns(),
            final(self).meta_ns() == ns_store(old(self).meta_ns(), key@, data@),
    {
        self.meta.put(key, data);
    }
}

impl Backend for MemoryBackend {
    closed spec fn data_ns(&self) -> Namespace {
        self.data@
    }

    closed spec fn meta_ns(&self) -> Namespace {
        self.meta@
    }

    fn block_exists(&mut self, id: &BlockId) -> (r: Result<bool, Error>)
        ensures
            r is Ok,
    {
        Ok(self.data.contains(&id.to_string()))
    }

    fn store_block(&mut self, id: &BlockId, data: &EncryptedBlock) -> (r: Result<(), Error>)
        ensures
            r is Ok,
    {
        self.data.put(id.to_string(), clone_bytes(&data.0));
        Ok(())
    }

    fn fetch_block(&mut self, id: &BlockId) -> (r: Result<EncryptedBlock, Error>)
        ensures
            r is Ok <==> ns_exists(old(self).data_ns(), id@),
            r is Err ==> r == Err::<EncryptedBlock, Error>(Error::NotFound),
    {
        match self.data.get(&id.to_string()) {
            Some(payload) => Ok(EncryptedBlock(payload)),
            None => Err(Error::NotFound),
        }
    }

    fn fetch_archive(&mut self, name: &EncryptedArchiveName) -> (r: Result<
        EncryptedArchive,
        Error,
    >)
        ensures
            r is Ok <==> ns_exists(old(self).meta_ns(), name@),
            r is Err ==> r == Err::<EncryptedArchive, Error>(Error::NotFound),
    {
        match self.meta.get(&name.to_string()) {
            Some(payload) => Ok(EncryptedArchive(payload)),
            None => Err(Error::NotFound),
        }
    }

    fn store_archive(&mut self, name: &EncryptedArchiveName, data: &EncryptedArchive) -> (r:
        Result<(), Error>)
        ensures
            r is Ok,
    {
        self.meta.put(name.to_string(), clone_bytes(&data.0));
        Ok(())
    }

    fn list_archives(&mut self) -> (r: Result<Vec<EncryptedArchiveName>, Error>)
        ensures
            r is Ok <==> (forall|k: Seq<char>|
                ns_keys(old(self).meta_ns()).contains(k) ==> is_valid_name(k)),
            r is Err ==> r == Err::<Vec<EncryptedArchiveName>, Error>(Error::InvalidArchiveName),
    {
        let keys = self.meta.keys();
        let r = parse_archive_keys(&keys);
        proof {
            match &r {
                Ok(v) => {
                    assert forall|k: Seq<char>|
                        ns_keys(self.meta_ns()).contains(k) implies is_valid_name(k) by {
                        let i = choose|i: int| 0 <= i < keys@.len() && #[trigger] keys@[i]@ == k;
                        assert(is_valid_name(keys@[i]@));
                    }
                    assert forall|k: Seq<char>|
                        ns_keys(self.meta_ns()).contains(k) implies exists|i: int|
                        0 <= i < v@.len() && #[trigger] v@[i]@ == k by {
                        let i = choose|i: int| 0 <= i < keys@.len() && #[trigger] keys@[i]@ == k;
                        assert(v@[i]@ == k);
                    }
                },
                Err(_) => {
                    let i = choose|i: int|
                        0 <= i < keys@.len() && !is_valid_name(#[trigger] keys@[i]@);
                    assert(ns_keys(self.meta_ns()).contains(keys@[i]@));
                },
            }
        }
        r
    }
}

} // verus!
