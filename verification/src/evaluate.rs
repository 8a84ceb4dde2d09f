use vstd::prelude::*;
use crate::hex;
use crate::params::SearchParameters;

verus! {

/// The SHA-256 digest of a byte sequence, as the `sha2` crate computes it:
/// a pure function of the input bytes.
pub uninterp spec fn sha256_of(m: Seq<u8>) -> Seq<u8>;

/// The lowercase hex encoding of a byte sequence: two digits per byte,
/// high nibble first.
pub open spec fn hex_of(bs: Seq<u8>) -> Seq<u8> {
    Seq::new(
        2 * bs.len(),
        |j: int|
            hex::hex_digit(
                if j % 2 == 0 {
                    bs[j / 2] as int / 16
                } else {
                    bs[j / 2] as int % 16
                },
            ),
    )
}

/// Relies on `sha2::Sha256` through the `Digest` trait: the digest depends
/// on the input bytes alone and is exactly 32 bytes long.
#[verifier::external_body]
fn sha256(m: &[u8]) -> (r: Vec<u8>)
    ensures
        r@ == sha256_of(m@),
        r@.len() == 32,
{
    let d = <sha2::Sha256 as sha2::Digest>::digest(m);
    d.as_slice().to_vec()
}

/// Whether `prefix` is a prefix of the lowercase hex encoding of `digest`,
/// compared nibble by nibble without materialising the hex string.
pub fn check_match(digest: &Vec<u8>, prefix: &Vec<u8>) -> (r: bool)
    requires
        prefix@.len() <= 2 * digest@.len(),
    ensures
        r == prefix@.is_prefix_of(hex_of(digest@)),
{
    let mut i: usize = 0;
    while i < prefix.len()
        invariant
            0 <= i <= prefix@.len() <= 2 * digest@.len(),
            forall|j: int| 0 <= j < i ==> prefix@[j] == hex_of(digest@)[j],
        decreases prefix@.len() - i,
    {
        let byte: u8 = digest[i / 2];
        let nib: u8 = if i % 2 == 0 {
            byte / 16
        } else {
            byte % 16
        };
        let actual: u8 = if nib < 10 {
            0x30 + nib
        } else {
            0x61 + (nib - 10)
        };
        if actual != prefix[i] {
            proof {
                assert(hex_of(digest@)[i as int] != prefix@[i as int]);
                assert(!prefix@.is_prefix_of(hex_of(digest@))) by {
                    if prefix@.is_prefix_of(hex_of(digest@)) {
                        assert(prefix@[i as int] == hex_of(digest@).subrange(
                            0, prefix@.len() as int)[i as int]);
                    }
                }
            }
            return false;
        }
        i = i + 1;
    }
    proof {
        assert(prefix@ =~= hex_of(digest@).subrange(0, prefix@.len() as int));
    }
    true
}

/// What one candidate evaluation yields: the bound message, its digest, and
/// whether the digest's hex encoding starts with the candidate.
pub struct Evaluation {
    pub message: Vec<u8>,
    pub digest: Vec<u8>,
    pub matched: bool,
}

/// The self-reference test at index `i`: the fixed-width hex candidate of
/// `i` is a prefix of the hex encoding of the digest of the message bound
/// from that very candidate.
pub open spec fn index_matches(p: SearchParameters, i: int) -> bool {
    hex::hex_encode(i, p.digits as nat).is_prefix_of(hex_of(sha256_of(p.message_at(i))))
}

/// Enumerate candidate `i`, bind it into the template, hash the bound
/// message, and test the self-reference.
pub fn evaluate_index(p: &SearchParameters, i: u128) -> (e: Evaluation)
    requires
        p.wf(),
    ensures
        e.message@ == p.message_at(i as int),
        e.digest@ == sha256_of(e.message@),
        e.digest@.len() == 32,
        e.matched == index_matches(*p, i as int),
{
    let candidate = hex::encode_index(i, p.digits as usize);
    let message = p.bind(&candidate);
    let digest = sha256(message.as_slice());
    let matched = check_match(&digest, &candidate);
    Evaluation { message, digest, matched }
}

} // verus!
