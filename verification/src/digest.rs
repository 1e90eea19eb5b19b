//! The signature engine: a canonical string is concatenated with the
//! secret integration key (key last, no separator) and hashed with
//! SHA-512; the digest, rendered as uppercase hexadecimal, is the
//! signature carried in the protocol's `hash` field.
use vstd::prelude::*;

use crate::key::Key;
use crate::text;

use sha2::Digest;

verus! {

/// The SHA-512 digest of the UTF-8 encoding of a character sequence.
/// Left uninterpreted: the protocol relies only on the digest being a
/// function of the hashed text.
pub uninterp spec fn sha512_of(s: Seq<char>) -> Seq<u8>;

/// Relies on sha2::Sha512 (SHA-512 of FIPS 180-4): the digest is 64
/// bytes and depends on the hashed bytes alone.
#[verifier::external_body]
fn sha512(s: &str) -> (r: Vec<u8>)
    ensures
        r@ == sha512_of(s@),
        r@.len() == 64,
{
    sha2::Sha512::digest(s.as_bytes()).to_vec()
}

/// The signature of a canonical string under a key: uppercase
/// hexadecimal SHA-512 of the canonical string with the key appended.
pub open spec fn spec_signature(canonical: Seq<char>, key: Seq<char>) -> Seq<char> {
    text::hex_upper_of(sha512_of(canonical + key))
}

/// Whether a claimed signature is the signature of `canonical` under
/// `key`.
pub open spec fn spec_verify(signature: Seq<char>, canonical: Seq<char>, key: Seq<char>) -> bool {
    signature == spec_signature(canonical, key)
}

/// Sign a canonical string with the integration key.
pub fn sign(canonical: &str, key: &Key) -> (r: String)
    ensures
        r@ == spec_signature(canonical@, key@),
{
    let mut msg = String::from_str(canonical);
    msg.append(key.expose_secret());
    let digest = sha512(msg.as_str());
    text::to_hex_upper(&digest)
}

/// Check a claimed signature by recomputing it and comparing without
/// an early exit, so the comparison's timing does not narrow down a
/// partially right forgery.
pub fn verify_signature(signature: &str, canonical: &str, key: &Key) -> (r: bool)
    ensures
        r == spec_verify(signature@, canonical@, key@),
{
    let expected = sign(canonical, key);
    constant_time_eq(expected.as_str(), signature)
}

/// Compare two strings, inspecting every position of equal-length
/// inputs rather than stopping at the first difference.
fn constant_time_eq(a: &str, b: &str) -> (r: bool)
    ensures
        r == (a@ == b@),
{
    let n = a.unicode_len();
    let m = b.unicode_len();
    if n != m {
        return false;
    }
    let mut diff: u8 = 0;
    let mut i: usize = 0;
    while i < n
        invariant
            i <= n == a@.len() == b@.len(),
            diff != 0 <==> exists|k: int| 0 <= k < i && a@[k] != b@[k],
        decreases n - i,
    {
        let ca = a.get_char(i);
        let cb = b.get_char(i);
        let bit: u8 = if ca != cb {
            1
        } else {
            0
        };
        let ghost d0 = diff;
        diff = diff | bit;
        proof {
            assert((d0 | bit) == 0 <==> d0 == 0 && bit == 0) by (bit_vector);
            if ca != cb {
                assert(a@[i as int] != b@[i as int]);
            }
        }
        i = i + 1;
    }
    if diff == 0 {
        proof {
            assert(a@ =~= b@);
        }
        true
    } else {
        false
    }
}

/// The signature depends on nothing but the canonical string and the
/// key: logically identical inputs give the identical signature.
pub proof fn lemma_signature_deterministic(
    c1: Seq<char>,
    c2: Seq<char>,
    k1: Seq<char>,
    k2: Seq<char>,
)
    requires
        c1 == c2,
        k1 == k2,
    ensures
        spec_signature(c1, k1) == spec_signature(c2, k2),
{
}

/// Round trip: the signature that `sign` produces for a canonical
/// string and key always verifies against that same canonical string
/// and key.
pub proof fn lemma_sign_verify_round_trip(canonical: Seq<char>, key: Seq<char>)
    ensures
        spec_verify(spec_signature(canonical, key), canonical, key),
{
}

/// Tamper detection: a signature valid for one canonical string cannot
/// verify against another whose keyed digest differs. (That any
/// mutation of a signed field changes the digest is SHA-512's collision
/// resistance, which this model does not assume; it enters here as the
/// hypothesis on the digests.)
pub proof fn lemma_tamper_detected(signature: Seq<char>, c1: Seq<char>, c2: Seq<char>, k: Seq<char>)
    requires
        spec_verify(signature, c1, k),
        sha512_of(c1 + k) != sha512_of(c2 + k),
    ensures
        !spec_verify(signature, c2, k),
{
    text::lemma_hex_upper_injective(sha512_of(c1 + k), sha512_of(c2 + k));
}

} // verus!
