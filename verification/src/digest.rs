//! Content fingerprints: a SHA-256 digest of a byte payload, rendered as
//! lowercase hex and wrapped in double quotes, forming a strong HTTP ETag
//! validator.

use vstd::prelude::*;
use vstd::string::StringExecFns;

verus! {

/// The SHA-256 digest of a byte sequence. The digest itself is computed by
/// an outside crate; here it is only a name, so that contracts can say that
/// equal inputs yield equal digests.
pub uninterp spec fn sha256_of(b: Seq<u8>) -> Seq<u8>;

/// The sixteen lowercase hex digit characters, in value order.
pub open spec fn hex_digits() -> Seq<char> {
    seq!['0', '1', '2', '3', '4', '5', '6', '7', '8', '9', 'a', 'b', 'c', 'd', 'e', 'f']
}

/// The lowercase hex digit for a nibble value.
pub open spec fn hex_digit(n: u8) -> char
    recommends
        n < 16,
{
    hex_digits()[n as int]
}

/// Lowercase hex rendering of a byte sequence: two digits per byte, high
/// nibble first.
pub open spec fn hex_of(b: Seq<u8>) -> Seq<char>
    decreases b.len(),
{
    if b.len() == 0 {
        Seq::<char>::empty()
    } else {
        seq![hex_digit((b[0] / 16) as u8), hex_digit((b[0] % 16) as u8)] + hex_of(b.drop_first())
    }
}

/// The strong validator for a payload: the lowercase hex SHA-256 digest,
/// wrapped in double quotes.
pub open spec fn spec_fingerprint(b: Seq<u8>) -> Seq<char> {
    seq!['"'] + hex_of(sha256_of(b)) + seq!['"']
}

/// Relies on sha2's `Sha256`: the digest is a pure function of the input
/// bytes and is 32 bytes long.
#[verifier::external_body]
fn sha256(b: &[u8]) -> (r: Vec<u8>)
    ensures
        r@ == sha256_of(b@),
        r@.len() == 32,
{
    <sha2::Sha256 as sha2::Digest>::digest(b).to_vec()
}

/// Relies on hex::encode: lowercase hex, two digits per byte, high nibble
/// first.
#[verifier::external_body]
fn hex_lower(b: &[u8]) -> (r: String)
    ensures
        r@ == hex_of(b@),
{
    hex::encode(b)
}

/// A hex rendering has exactly two characters per byte.
pub proof fn lemma_hex_of_len(b: Seq<u8>)
    ensures
        hex_of(b).len() == 2 * b.len(),
    decreases b.len(),
{
    if b.len() > 0 {
        lemma_hex_of_len(b.drop_first());
    }
}

/// Computes the strong ETag validator of a payload: deterministic, total,
/// 66 characters (two quotes around 64 hex digits).
pub fn fingerprint(b: &[u8]) -> (r: String)
    ensures
        r@ == spec_fingerprint(b@),
        r@.len() == 66,
        r@[0] == '"',
        r@[65] == '"',
        forall|i: int| 1 <= i < 65 ==> hex_digits().contains(#[trigger] r@[i]),
{
    let d = sha256(b);
    let h = hex_lower(d.as_slice());
    let mut out: String = "\"".to_owned();
    out.append(h.as_str());
    out.append("\"");
    proof {
        reveal_strlit("\"");
        assert("\""@ =~= seq!['"']);
        lemma_hex_of_len(sha256_of(b@));
        assert(out@ =~= spec_fingerprint(b@));
        lemma_hex_of_digits(sha256_of(b@));
        assert forall|i: int| 1 <= i < 65 implies hex_digits().contains(#[trigger] out@[i]) by {
            assert(out@[i] == hex_of(sha256_of(b@))[i - 1]);
        }
    }
    out
}

/// The fingerprint is deterministic: equal payloads always yield equal
/// validators.
pub proof fn lemma_fingerprint_deterministic(b1: Seq<u8>, b2: Seq<u8>)
    requires
        b1 == b2,
    ensures
        spec_fingerprint(b1) == spec_fingerprint(b2),
{
}

/// Every character of a hex rendering is one of the sixteen lowercase
/// hex digits.
pub proof fn lemma_hex_of_digits(b: Seq<u8>)
    ensures
        forall|i: int| 0 <= i < hex_of(b).len() ==> hex_digits().contains(#[trigger] hex_of(b)[i]),
    decreases b.len(),
{
    if b.len() > 0 {
        lemma_hex_of_digits(b.drop_first());
        assert forall|i: int| 0 <= i < hex_of(b).len() implies hex_digits().contains(
            #[trigger] hex_of(b)[i],
        ) by {
            if i == 0 {
                assert(hex_digits().contains(hex_digits()[(b[0] / 16) as int]));
            } else if i == 1 {
                assert(hex_digits().contains(hex_digits()[(b[0] % 16) as int]));
            } else {
                assert(hex_of(b)[i] == hex_of(b.drop_first())[i - 2]);
            }
        }
    }
}

/// Distinct nibble values get distinct hex digits.
pub proof fn lemma_hex_digit_injective(a: u8, b: u8)
    requires
        a < 16,
        b < 16,
        hex_digit(a) == hex_digit(b),
    ensures
        a == b,
{
    assert forall|i: int, j: int|
        0 <= i < 16 && 0 <= j < 16 && i != j implies hex_digits()[i] != hex_digits()[j] by {
    }
}

/// The hex rendering is injective: equal renderings can only come from
/// equal byte sequences.
pub proof fn lemma_hex_of_injective(b1: Seq<u8>, b2: Seq<u8>)
    requires
        hex_of(b1) == hex_of(b2),
    ensures
        b1 == b2,
    decreases b1.len(),
{
    lemma_hex_of_len(b1);
    lemma_hex_of_len(b2);
    if b1.len() == 0 {
        assert(b1 =~= b2);
    } else {
        assert(hex_of(b1)[0] == hex_digit((b1[0] / 16) as u8));
        assert(hex_of(b2)[0] == hex_digit((b2[0] / 16) as u8));
        assert(hex_of(b1)[1] == hex_digit((b1[0] % 16) as u8));
        assert(hex_of(b2)[1] == hex_digit((b2[0] % 16) as u8));
        lemma_hex_digit_injective((b1[0] / 16) as u8, (b2[0] / 16) as u8);
        lemma_hex_digit_injective((b1[0] % 16) as u8, (b2[0] % 16) as u8);
        assert(b1[0] == b2[0]) by {
            assert(b1[0] == (b1[0] / 16) * 16 + (b1[0] % 16));
            assert(b2[0] == (b2[0] / 16) * 16 + (b2[0] % 16));
        }
        assert(hex_of(b1.drop_first()) =~= hex_of(b2.drop_first())) by {
            assert forall|i: int| 0 <= i < hex_of(b1.drop_first()).len() implies hex_of(
                b1.drop_first(),
            )[i] == hex_of(b2.drop_first())[i] by {
                assert(hex_of(b1)[i + 2] == hex_of(b1.drop_first())[i]);
                assert(hex_of(b2)[i + 2] == hex_of(b2.drop_first())[i]);
            }
        }
        lemma_hex_of_injective(b1.drop_first(), b2.drop_first());
        assert forall|i: int| 0 <= i < b1.len() implies b1[i] == b2[i] by {
            if i > 0 {
                assert(b1[i] == b1.drop_first()[i - 1]);
                assert(b2[i] == b2.drop_first()[i - 1]);
            }
        }
        assert(b1 =~= b2);
    }
}

/// The quoting and hex formatting around the digest add no collisions:
/// two payloads share a fingerprint only when they already share a
/// SHA-256 digest. Digest collisions themselves are ruled out only with
/// overwhelming probability, which is beyond what can be stated here.
pub proof fn lemma_fingerprint_collision_is_digest_collision(b1: Seq<u8>, b2: Seq<u8>)
    requires
        spec_fingerprint(b1) == spec_fingerprint(b2),
    ensures
        sha256_of(b1) == sha256_of(b2),
{
    let h1 = hex_of(sha256_of(b1));
    let h2 = hex_of(sha256_of(b2));
    assert(h1.len() == h2.len()) by {
        assert(spec_fingerprint(b1).len() == 2 + h1.len());
        assert(spec_fingerprint(b2).len() == 2 + h2.len());
    }
    assert(h1 =~= h2) by {
        assert forall|i: int| 0 <= i < h1.len() implies h1[i] == h2[i] by {
            assert(spec_fingerprint(b1)[i + 1] == h1[i]);
            assert(spec_fingerprint(b2)[i + 1] == h2[i]);
        }
    }
    lemma_hex_of_injective(sha256_of(b1), sha256_of(b2));
}

} // verus!
