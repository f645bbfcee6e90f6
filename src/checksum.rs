//! The content checksum and the entry built from it.
use vstd::prelude::*;

use crate::index::{dep_of, Entry, ENTRY_FORMAT};
use crate::publish::{self, Metadata};

verus! {

/// The lower-case hex SHA-256 digest of the bytes, as `sha256::digest` gives it.
pub uninterp spec fn sha256_hex(content: Seq<u8>) -> Seq<char>;

/// Relies on `sha256::digest` for a byte vector: the lower-case hex encoding
/// of the SHA-256 digest of the bytes, a function of the bytes alone.
#[verifier::external_body]
fn sha256_digest(content: &Vec<u8>) -> (r: String)
    ensures
        r@ == sha256_hex(content@),
{
    sha256::digest(content)
}

/// Builds the published entry for uploaded metadata and content: the
/// metadata's fields, the content's checksum, not yanked, format version 2.
pub fn prepare_entry(meta: Metadata, content: &Vec<u8>) -> (r: Entry)
    ensures
        r.name == meta.name,
        r.vers == meta.vers,
        r.deps@ == meta.deps@.map_values(|d: publish::Dep| dep_of(d)),
        r.cksum@ == sha256_hex(content@),
        r.features == meta.features,
        r.yanked == false,
        r.links == meta.links,
        r.v == ENTRY_FORMAT,
        r.features2 is None,
        r.rust_version == meta.rust_version,
{
    let cksum = sha256_digest(content);
    Entry::from_publish(meta, cksum)
}

/// The checksum depends on the content bytes alone: equal content gives an
/// equal checksum.
pub proof fn checksum_depends_on_content_only(a: Seq<u8>, b: Seq<u8>)
    requires
        a == b,
    ensures
        sha256_hex(a) == sha256_hex(b),
{
}

} // verus!
