//! Offline player identifiers: a SHA-256 digest of the nickname laid out as
//! a UUID.

use vstd::prelude::*;
use vstd::string::*;
use vstd::utf8::*;
use crate::text::{hex_bytes, hex_char, push_char, push_hex_byte, push_str};

verus! {

/// The SHA-256 digest of a byte string.
pub uninterp spec fn sha256(data: Seq<u8>) -> Seq<u8>;

/// Relies on `sha2::Sha256::digest`: the 32-byte SHA-256 digest of the
/// input.
#[verifier::external_body]
fn sha256_digest(data: &[u8]) -> (r: Vec<u8>)
    ensures
        r@ == sha256(data@),
        r@.len() == 32,
{
    <sha2::Sha256 as sha2::Digest>::digest(data).to_vec()
}

/// The text that is hashed for a nickname.
pub open spec fn offline_seed(nickname: Seq<char>) -> Seq<u8> {
    encode_utf8("OfflinePlayer:"@ + nickname)
}

/// The first sixteen digest bytes in hex, grouped 4-2-2-2-6 and joined by
/// dashes.
pub open spec fn uuid_text(d: Seq<u8>) -> Seq<char> {
    hex_bytes(d.subrange(0, 4)) + "-"@ + hex_bytes(d.subrange(4, 6)) + "-"@ + hex_bytes(
        d.subrange(6, 8),
    ) + "-"@ + hex_bytes(d.subrange(8, 10)) + "-"@ + hex_bytes(d.subrange(10, 16))
}

/// The offline identifier of a nickname.
pub open spec fn offline_uuid(nickname: Seq<char>) -> Seq<char> {
    uuid_text(sha256(offline_seed(nickname)))
}

fn push_hex_range(s: &mut String, d: &[u8], from: usize, to: usize)
    requires
        from <= to <= d@.len(),
    ensures
        final(s)@ == old(s)@ + hex_bytes(d@.subrange(from as int, to as int)),
{
    let mut i = from;
    while i < to
        invariant
            from <= i <= to <= d@.len(),
            s@ == old(s)@ + hex_bytes(d@.subrange(from as int, i as int)),
        decreases to - i,
    {
        push_hex_byte(s, d[i]);
        assert(d@.subrange(from as int, i + 1).drop_last() =~= d@.subrange(from as int, i as int));
        i = i + 1;
        assert(s@ =~= old(s)@ + hex_bytes(d@.subrange(from as int, i as int)));
    }
}

/// Lays out the first sixteen bytes of a digest as a UUID.
pub fn uuid_from_digest(digest: &[u8]) -> (r: String)
    requires
        digest@.len() >= 16,
    ensures
        r@ == uuid_text(digest@),
{
    let mut s = String::new();
    push_hex_range(&mut s, digest, 0, 4);
    push_char(&mut s, '-');
    push_hex_range(&mut s, digest, 4, 6);
    push_char(&mut s, '-');
    push_hex_range(&mut s, digest, 6, 8);
    push_char(&mut s, '-');
    push_hex_range(&mut s, digest, 8, 10);
    push_char(&mut s, '-');
    push_hex_range(&mut s, digest, 10, 16);
    proof {
        reveal_strlit("-");
    }
    assert(s@ =~= uuid_text(digest@));
    s
}

/// The offline identifier of `nickname`: the SHA-256 digest of
/// `OfflinePlayer:<nickname>` laid out as a UUID.
pub fn generate_offline_uuid(nickname: &str) -> (r: String)
    ensures
        r@ == offline_uuid(nickname@),
        r@.len() == 36,
        r@[8] == '-' && r@[13] == '-' && r@[18] == '-' && r@[23] == '-',
        forall|i: int|
            0 <= i < 36 && i != 8 && i != 13 && i != 18 && i != 23 ==> is_lower_hex(#[trigger] r@[i]),
{
    let mut seed = String::new();
    push_str(&mut seed, "OfflinePlayer:");
    push_str(&mut seed, nickname);
    let digest = sha256_digest(seed.as_str().as_bytes());
    proof {
        lemma_uuid_shape(digest@);
    }
    uuid_from_digest(digest.as_slice())
}

/// A lower-case hexadecimal digit.
pub open spec fn is_lower_hex(c: char) -> bool {
    ('0' <= c <= '9') || ('a' <= c <= 'f')
}

proof fn lemma_hex_len(bs: Seq<u8>)
    ensures
        hex_bytes(bs).len() == 2 * bs.len(),
        forall|i: int| 0 <= i < hex_bytes(bs).len() ==> is_lower_hex(#[trigger] hex_bytes(bs)[i]),
    decreases bs.len(),
{
    if bs.len() > 0 {
        let b = bs.last();
        lemma_hex_len(bs.drop_last());
        assert(is_lower_hex(hex_char(b as nat / 16)));
        assert(is_lower_hex(hex_char(b as nat % 16)));
        let h = hex_bytes(bs);
        let p = hex_bytes(bs.drop_last());
        assert forall|i: int| 0 <= i < h.len() implies is_lower_hex(#[trigger] h[i]) by {
            if i < p.len() {
                assert(h[i] == p[i]);
            }
        }
    }
}

/// An identifier laid out from a digest is 36 characters long, with dashes
/// after the groups of 8, 4, 4 and 4 digits.
pub proof fn lemma_uuid_shape(d: Seq<u8>)
    requires
        d.len() >= 16,
    ensures
        uuid_text(d).len() == 36,
        uuid_text(d)[8] == '-',
        uuid_text(d)[13] == '-',
        uuid_text(d)[18] == '-',
        uuid_text(d)[23] == '-',
        forall|i: int|
            0 <= i < 36 && i != 8 && i != 13 && i != 18 && i != 23 ==> is_lower_hex(#[trigger] uuid_text(d)[i]),
{
    reveal_strlit("-");
    lemma_hex_len(d.subrange(0, 4));
    lemma_hex_len(d.subrange(4, 6));
    lemma_hex_len(d.subrange(6, 8));
    lemma_hex_len(d.subrange(8, 10));
    lemma_hex_len(d.subrange(10, 16));
}

/// The identifier depends on the nickname alone: equal nicknames get equal
/// identifiers, in every call.
pub proof fn lemma_offline_uuid_deterministic(a: Seq<char>, b: Seq<char>)
    requires
        a == b,
    ensures
        offline_uuid(a) == offline_uuid(b),
{
}

} // verus!
