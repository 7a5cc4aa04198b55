use vstd::prelude::*;
use vstd::string::*;

use crate::error::Error;

verus! {

/// A character that may appear in the canonical encoding of an archive
/// name: a lowercase hexadecimal digit.
pub open spec fn is_name_char(c: char) -> bool {
    ('0' <= c && c <= '9') || ('a' <= c && c <= 'f')
}

/// A valid archive-name encoding: a nonempty string of name characters.
/// Object keys in the metadata namespace must round-trip through this form.
pub open spec fn is_valid_name(s: Seq<char>) -> bool {
    s.len() > 0 && (forall|i: int| 0 <= i < s.len() ==> is_name_char(#[trigger] s[i]))
}

/// Whether `s` is a valid archive-name encoding.
pub fn check_name(s: &str) -> (r: bool)
    ensures
        r == is_valid_name(s@),
{
    let len = s.unicode_len();
    if len == 0 {
        return false;
    }
    for i in 0..len
        invariant
            len == s@.len(),
            forall|j: int| 0 <= j < i ==> is_name_char(#[trigger] s@[j]),
    {
        let c = s.get_char(i);
        if !(('0' <= c && c <= '9') || ('a' <= c && c <= 'f')) {
            return false;
        }
    }
    true
}

/// Identity of one content-addressed block: an opaque string derived
/// upstream from the block's content, stable across processes.
pub struct BlockId {
    id: String,
}

impl View for BlockId {
    type V = Seq<char>;

    closed spec fn view(&self) -> Seq<char> {
        self.id@
    }
}

impl BlockId {
    /// Adopts the string form produced upstream.
    pub fn from_string(id: String) -> (r: BlockId)
        ensures
            r@ == id@,
    {
        BlockId { id }
    }

    /// The string form under which the block is keyed in the data namespace.
    pub fn to_string(&self) -> (r: String)
        ensures
            r@ == self@,
    {
        self.id.clone()
    }
}

/// Identity of one archive manifest. Every value of this type carries a
/// valid name encoding, so it round-trips through its string form.
pub struct EncryptedArchiveName {
    name: String,
}

impl View for EncryptedArchiveName {
    type V = Seq<char>;

    closed spec fn view(&self) -> Seq<char> {
        self.name@
    }
}

impl EncryptedArchiveName {
    #[verifier::type_invariant]
    spec fn inv(&self) -> bool {
        is_valid_name(self.name@)
    }

    /// Parses an object key back into an archive name; rejects any key
    /// that is not a valid name encoding.
    pub fn from_str(s: &str) -> (r: Result<EncryptedArchiveName, Error>)
        ensures
            r is Ok <==> is_valid_name(s@),
            r matches Ok(n) ==> n@ == s@,
            r is Err ==> r == Err::<EncryptedArchiveName, Error>(Error::InvalidArchiveName),
    {
        if check_name(s) {
            Ok(EncryptedArchiveName { name: s.to_owned() })
        } else {
            Err(Error::InvalidArchiveName)
        }
    }

    /// The string form under which the archive is keyed in the metadata
    /// namespace.
    pub fn to_string(&self) -> (r: String)
        ensures
            r@ == self@,
    {
        self.name.clone()
    }
}

/// Ciphertext of one backup chunk, opaque at this layer; immutable once
/// stored under its id.
pub struct EncryptedBlock(pub Vec<u8>);

impl View for EncryptedBlock {
    type V = Seq<u8>;

    open spec fn view(&self) -> Seq<u8> {
        self.0@
    }
}

/// Ciphertext of one archive manifest, opaque at this layer; a later store
/// under the same name overwrites it.
pub struct EncryptedArchive(pub Vec<u8>);

impl View for EncryptedArchive {
    type V = Seq<u8>;

    open spec fn view(&self) -> Seq<u8> {
        self.0@
    }
}

} // verus!
