//! Stable identifiers derived from hashes. Every init-system artifact
//! of a project is named by the first eight hex digits of a SHA-256
//! hash: of the repository identity for the sync loop, of the manifest
//! path for the reconciler.

use vstd::prelude::*;

verus! {

/// The hex text of the SHA-256 digest of a character sequence. The
/// digest is a function of its input alone; nothing further is assumed
/// about it.
pub uninterp spec fn sha256_hex_of(s: Seq<char>) -> Seq<char>;

/// A lowercase hexadecimal digit.
pub open spec fn is_hex_digit(c: char) -> bool {
    ('0' <= c && c <= '9') || ('a' <= c && c <= 'f')
}

/// Relies on dusa_collection_utils' create_hash: the hex encoding of
/// the SHA-256 digest of the input, 64 lowercase hex digits.
#[verifier::external_body]
fn create_hash(data: &str) -> (r: String)
    ensures
        r@ == sha256_hex_of(data@),
        r@.len() == 64,
        forall|i: int| 0 <= i < r@.len() ==> is_hex_digit(#[trigger] r@[i]),
{
    let digest = dusa_collection_utils::platform::functions::create_hash(String::from(data));
    digest.as_str().to_owned()
}

/// The first `max_chars` characters of a string, or all of it when it
/// is shorter.
pub fn truncate(s: &str, max_chars: usize) -> (r: String)
    ensures
        r@ == if s@.len() <= max_chars {
            s@
        } else {
            s@.take(max_chars as int)
        },
{
    let len = s.unicode_len();
    if len <= max_chars {
        proof {
            assert(s@.take(s@.len() as int) =~= s@);
        }
        let r = s.substring_char(0, len).to_owned();
        r
    } else {
        s.substring_char(0, max_chars).to_owned()
    }
}

/// The eight-hex-digit service id derived from an identity string.
pub fn service_id_of(identity: &str) -> (r: String)
    ensures
        r@ == sha256_hex_of(identity@).take(8),
        r@.len() == 8,
        forall|i: int| 0 <= i < r@.len() ==> is_hex_digit(#[trigger] r@[i]),
{
    let digest = create_hash(identity);
    truncate(digest.as_str(), 8)
}

} // verus!
