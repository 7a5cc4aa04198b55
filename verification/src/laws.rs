use vstd::prelude::*;

use crate::backend::{ns_exists, ns_fetch, ns_keys, ns_store, Namespace};

verus! {

/// Law: a stored block is fetched back byte-identical. A full write of
/// `data` under `key` followed by a full read of `key` yields `data`, in
/// any starting state of the namespace.
pub proof fn lemma_block_round_trip(ns: Namespace, key: Seq<char>, data: Seq<u8>)
    ensures
        ns_fetch(ns_store(ns, key, data), key) == Some(data),
{
}

/// Law: archive overwrite is last-write-wins. Two stores under one name
/// followed by a fetch of that name yield the second payload.
pub proof fn lemma_archive_overwrite(
    ns: Namespace,
    key: Seq<char>,
    first: Seq<u8>,
    second: Seq<u8>,
)
    ensures
        ns_fetch(ns_store(ns_store(ns, key, first), key, second), key) == Some(second),
{
}

/// Law: existence tracks storage. An id absent from the namespace reads as
/// not present, and it reads as present right after a store of it.
pub proof fn lemma_exists_semantics(ns: Namespace, key: Seq<char>, data: Seq<u8>)
    ensures
        !ns.contains_key(key) ==> !ns_exists(ns, key),
        ns_exists(ns_store(ns, key, data), key),
{
}

/// Law: each store adds exactly its own key to the enumeration; an
/// overwrite adds nothing new.
pub proof fn lemma_listing_after_store(ns: Namespace, key: Seq<char>, data: Seq<u8>)
    ensures
        ns_keys(ns_store(ns, key, data)) == ns_keys(ns).insert(key),
{
    assert(ns_keys(ns_store(ns, key, data)) =~= ns_keys(ns).insert(key));
}

/// Law: listing is complete. After storing archives under three names into
/// an empty metadata namespace, and nothing else, the enumeration walks
/// exactly those three keys, whatever order they were stored in.
pub proof fn lemma_listing_completeness(
    n1: Seq<char>,
    n2: Seq<char>,
    n3: Seq<char>,
    d1: Seq<u8>,
    d2: Seq<u8>,
    d3: Seq<u8>,
)
    ensures
        ns_keys(
            ns_store(ns_store(ns_store(Map::empty(), n1, d1), n2, d2), n3, d3),
        ) == set![n1, n2, n3],
{
    assert(ns_keys(ns_store(ns_store(ns_store(Map::empty(), n1, d1), n2, d2), n3, d3))
        =~= set![n1, n2, n3]);
}

/// Law: a fetch of an id never stored yields no payload, so the backends
/// answer `NotFound` rather than returning empty data silently.
pub proof fn lemma_fetch_missing(ns: Namespace, key: Seq<char>)
    ensures
        !ns.contains_key(key) ==> ns_fetch(ns, key) is None,
{
}

} // verus!
