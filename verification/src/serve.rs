//! What the API server computes for its cached values: content hashes, entity
//! tags and the response to send for a cached value.

use etag::EntityTag;
use sha1::{Digest, Sha1};
use vstd::prelude::*;
use vstd::string::is_ascii;

verus! {

/// The SHA-1 digest of `data`.
pub uninterp spec fn sha1_digest(data: Seq<u8>) -> Seq<u8>;

/// Calls sha1's `Sha1::digest`. Claimed: the result is the SHA-1 digest of the
/// data, 20 bytes long as SHA-1 is defined.
#[verifier::external_body]
fn sha1_of(data: &[u8]) -> (r: Vec<u8>)
    ensures
        r@ == sha1_digest(data@),
        r@.len() == 20,
{
    Sha1::digest(data).to_vec()
}

/// A character of the standard base64 alphabet, or its padding character.
pub open spec fn is_base64_char(c: char) -> bool {
    ('A' <= c && c <= 'Z') || ('a' <= c && c <= 'z') || ('0' <= c && c <= '9') || c == '+'
        || c == '/' || c == '='
}

/// The standard base64 encoding, with padding, of `data`.
pub uninterp spec fn base64_standard(data: Seq<u8>) -> Seq<char>;

/// Calls base64's `encode`, which uses the standard alphabet with padding.
/// Claimed: the result is that encoding, four characters for every three
/// bytes begun, each from the alphabet or the padding character.
#[verifier::external_body]
fn base64_encode(data: &[u8]) -> (r: String)
    requires
        data@.len() <= usize::MAX / 2,
    ensures
        r@ == base64_standard(data@),
        r@.len() == 4 * ((data@.len() + 2) / 3),
        forall|i: int| 0 <= i < r@.len() ==> is_base64_char(#[trigger] r@[i]),
{
    base64::encode(data)
}

/// The content hash of some bytes: their SHA-1 digest in standard base64.
pub fn hash_from_u8(text: &[u8]) -> (r: String)
    ensures
        r@ == base64_standard(sha1_digest(text@)),
        r@.len() == 28,
        forall|i: int| 0 <= i < r@.len() ==> is_base64_char(#[trigger] r@[i]),
{
    let hash = sha1_of(text);
    base64_encode(hash.as_slice())
}

/// The text of a strong entity tag: the tag between double quotes.
pub open spec fn strong_etag_text(tag: Seq<char>) -> Seq<char> {
    seq!['"'] + tag + seq!['"']
}

/// Calls etag's `EntityTag::strong` and formats the tag with its `Display`
/// impl. Claimed, after etag's source: a strong tag is written as the tag
/// between double quotes. The source asserts, in debug builds, that the tag is
/// ASCII and fits its 62 byte buffer; both are required.
#[verifier::external_body]
fn strong_etag(tag: &str) -> (r: String)
    requires
        is_ascii(tag),
        tag@.len() <= 62,
    ensures
        r@ == strong_etag_text(tag@),
{
    EntityTag::strong(tag).to_string()
}

/// The response to a request for a cached value.
#[derive(Debug, PartialEq, Eq)]
pub enum CachedResponse {
    /// Nothing is cached yet: 503 Service Unavailable.
    ServiceUnavailable,
    /// The cached value, sent with these `Cache-Control` and `ETag` headers.
    Cached { cache_control: String, etag: String },
}

/// Whether `hash` is a content hash as `hash_from_u8` makes them.
pub open spec fn is_content_hash(hash: Seq<char>) -> bool {
    hash.len() == 28 && forall|i: int| 0 <= i < hash.len() ==> is_base64_char(#[trigger] hash[i])
}

/// What to answer for a cached value whose content hash is `hash`, or for no
/// cached value at all.
pub fn cached_response(hash: Option<&str>, cache_control: &str) -> (r: CachedResponse)
    requires
        hash matches Some(h) ==> is_content_hash(h@),
    ensures
        hash is None ==> r == CachedResponse::ServiceUnavailable,
        hash matches Some(h) ==> (r matches CachedResponse::Cached { cache_control: c, etag: e }
            && c@ == cache_control@ && e@ == strong_etag_text(h@)),
{
    match hash {
        None => CachedResponse::ServiceUnavailable,
        Some(h) => {
            proof {
                assert(is_ascii(h)) by {
                    assert forall|i: int| 0 <= i < h@.len() implies (h@[i] as u32) < 128 by {
                        assert(is_base64_char(h@[i]));
                    }
                }
            }
            let etag = strong_etag(h);
            CachedResponse::Cached { cache_control: cache_control.to_owned(), etag }
        },
    }
}


/// The keys under which values are cached, as the server tells them apart;
/// `Other` stands for every key it does not serve.
#[derive(Clone, Copy, Debug, PartialEq, Eq, Structural)]
pub enum CacheKey {
    BaseFeePerGas,
    BaseFeePerGasStats,
    BlockLag,
    EthPrice,
    EthSupplyParts,
    MergeEstimate,
    TotalDifficultyProgress,
    ValidatorRewards,
    Other,
}

/// The values the server keeps in memory and refreshes when notified.
#[derive(Clone, Copy, Debug, PartialEq, Eq, Structural)]
pub enum CacheSlot {
    BlockLag,
    EthPrice,
    EthSupplyParts,
    MergeEstimate,
    TotalDifficultyProgress,
}

/// Which in-memory value a notification for `key` refreshes: the value kept
/// under the same name, or none for a key the server does not keep.
pub fn cache_slot_for(key: CacheKey) -> (r: Option<CacheSlot>)
    ensures
        key == CacheKey::BlockLag <==> r == Some(CacheSlot::BlockLag),
        key == CacheKey::EthPrice <==> r == Some(CacheSlot::EthPrice),
        key == CacheKey::EthSupplyParts <==> r == Some(CacheSlot::EthSupplyParts),
        key == CacheKey::MergeEstimate <==> r == Some(CacheSlot::MergeEstimate),
        key == CacheKey::TotalDifficultyProgress <==> r == Some(
            CacheSlot::TotalDifficultyProgress,
        ),
{
    match key {
        CacheKey::BlockLag => Some(CacheSlot::BlockLag),
        CacheKey::EthPrice => Some(CacheSlot::EthPrice),
        CacheKey::EthSupplyParts => Some(CacheSlot::EthSupplyParts),
        CacheKey::MergeEstimate => Some(CacheSlot::MergeEstimate),
        CacheKey::TotalDifficultyProgress => Some(CacheSlot::TotalDifficultyProgress),
        _ => None,
    }
}

} // verus!
