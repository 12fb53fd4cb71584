use crate::text::{
    byte_len, byte_length, decimal, decimal_string, join, join_strings, starts_with,
};
use vstd::prelude::*;
use vstd::string::*;

verus! {

/// Byte length of a tagged hash whose digest is written in base 32, the canonical form.
pub const CANONICAL_HASH_LEN: usize = 59;

/// Byte length of a tagged hash whose digest is written in base 16.
pub const BASE16_HASH_LEN: usize = 71;

/// The algorithm tag, separator included, that every hash the fingerprint accepts begins with.
pub open spec fn hash_tag() -> Seq<char> {
    "sha256:"@
}

/// Whether every one of `refs` lies under the store root.
pub open spec fn all_in_store(root: Seq<char>, refs: Seq<Seq<char>>) -> bool {
    forall|i: int| 0 <= i < refs.len() ==> root.is_prefix_of(#[trigger] refs[i])
}

/// Whether `nar_hash` is a base 16 hash that has to be brought into canonical form before a
/// fingerprint of `store_path` can be made.
pub open spec fn needs_conversion(root: Seq<char>, store_path: Seq<char>, nar_hash: Seq<char>) -> bool {
    &&& root.is_prefix_of(store_path)
    &&& hash_tag().is_prefix_of(nar_hash)
    &&& byte_len(nar_hash) == BASE16_HASH_LEN
}

/// The digest of a tagged hash: what follows the tag.
pub open spec fn digest_of(nar_hash: Seq<char>) -> Seq<char> {
    nar_hash.skip(hash_tag().len() as int)
}

/// A digest with the algorithm tag put in front.
pub open spec fn tagged(digest: Seq<char>) -> Seq<char> {
    hash_tag() + digest
}

/// The text that is signed for a store path: version, path, canonical hash, size and references.
/// There is none when the path or a reference lies outside the store, or the hash is not a
/// canonical `sha256` hash.
pub open spec fn fingerprint_of(
    root: Seq<char>,
    store_path: Seq<char>,
    nar_hash: Seq<char>,
    nar_size: nat,
    refs: Seq<Seq<char>>,
) -> Option<Seq<char>> {
    if root.is_prefix_of(store_path) && hash_tag().is_prefix_of(nar_hash) && byte_len(nar_hash)
        == CANONICAL_HASH_LEN && all_in_store(root, refs) {
        Some(
            "1;"@ + store_path + ";"@ + nar_hash + ";"@ + decimal(nar_size) + ";"@ + join(
                refs,
                ","@,
            ),
        )
    } else {
        None
    }
}

/// The digest that the store has to convert to base 32 before `store_path` can be fingerprinted,
/// if there is one. There is none when the hash is already canonical and when no fingerprint can
/// come of it anyway.
pub fn digest_to_convert(root: &str, store_path: &str, nar_hash: &str) -> (digest: Option<String>)
    ensures
        digest.deep_view() == if needs_conversion(root@, store_path@, nar_hash@) {
            Some(digest_of(nar_hash@))
        } else {
            None::<Seq<char>>
        },
{
    if !starts_with(store_path, root) || !starts_with(nar_hash, "sha256:") || byte_length(nar_hash)
        != BASE16_HASH_LEN {
        return None;
    }
    proof {
        reveal_strlit("sha256:");
    }
    let n = nar_hash.unicode_len();
    let digest = nar_hash.substring_char(7, n);
    assert(digest@ =~= digest_of(nar_hash@));
    Some(String::from_str(digest))
}

/// Puts the algorithm tag in front of a digest that the store converted.
pub fn tag_digest(digest: &str) -> (hash: String)
    ensures
        hash@ == tagged(digest@),
{
    String::from_str("sha256:").concat(digest)
}

fn refs_in_store(root: &str, refs: &Vec<String>) -> (b: bool)
    ensures
        b == all_in_store(root@, refs.deep_view()),
{
    let mut i: usize = 0;
    while i < refs.len()
        invariant
            i <= refs.len(),
            forall|j: int| 0 <= j < i ==> root@.is_prefix_of(#[trigger] refs.deep_view()[j]),
        decreases refs.len() - i,
    {
        if !starts_with(refs[i].as_str(), root) {
            assert(!root@.is_prefix_of(refs.deep_view()[i as int]));
            return false;
        }
        i += 1;
    }
    true
}

/// Builds the fingerprint of `store_path` from its canonical hash, its size and its references.
///
/// The result depends on the arguments alone. It is `None`, and nothing is signed, when
/// `store_path` or one of `refs` does not begin with `root`, when `nar_hash` does not begin with
/// the `sha256:` tag, and when `nar_hash` is not 59 bytes long.
pub fn fingerprint_path(
    root: &str,
    store_path: &str,
    nar_hash: &str,
    nar_size: u64,
    refs: &Vec<String>,
) -> (fingerprint: Option<String>)
    ensures
        fingerprint.deep_view() == fingerprint_of(
            root@,
            store_path@,
            nar_hash@,
            nar_size as nat,
            refs.deep_view(),
        ),
        !root@.is_prefix_of(store_path@) ==> fingerprint is None,
        !hash_tag().is_prefix_of(nar_hash@) ==> fingerprint is None,
        byte_len(nar_hash@) != CANONICAL_HASH_LEN ==> fingerprint is None,
        !all_in_store(root@, refs.deep_view()) ==> fingerprint is None,
{
    if !starts_with(store_path, root) || !starts_with(nar_hash, "sha256:") {
        return None;
    }
    if byte_length(nar_hash) != CANONICAL_HASH_LEN {
        return None;
    }
    if !refs_in_store(root, refs) {
        return None;
    }
    let mut s = String::from_str("1;");
    s.append(store_path);
    s.append(";");
    s.append(nar_hash);
    s.append(";");
    s.append(decimal_string(nar_size).as_str());
    s.append(";");
    s.append(join_strings(refs, ",").as_str());
    Some(s)
}

} // verus!
