//! The cryptographic boundary of the library: the SHA3-384 accumulator of the
//! `sha3` crate and the unpadded base64 encoder of the `base64` crate.
//!
//! Nothing in this module is proved. Each function below states, as its
//! contract, what the outside function it calls is relied upon to do; the rest
//! of the library is verified against these contracts.

use vstd::prelude::*;

verus! {

/// Makes the `sha3` hasher type `Sha3_384` known to the verifier. Its fields
/// stay hidden: a value is only ever created, extended, copied and finalized
/// through the functions of this module.
#[verifier::external_type_specification]
#[verifier::external_body]
pub struct ExSha3Accumulator(sha3::Sha3_384);

/// The bytes an accumulator has absorbed since it was created, in order.
pub uninterp spec fn absorbed(acc: sha3::Sha3_384) -> Seq<u8>;

/// The SHA3-384 digest of a message, as `sha3::Sha3_384` computes it.
pub uninterp spec fn sha3_384(message: Seq<u8>) -> Seq<u8>;

/// The unpadded standard-alphabet base64 text of a byte string, as
/// `base64::engine::general_purpose::STANDARD_NO_PAD` encodes it.
pub uninterp spec fn base64_no_pad(bytes: Seq<u8>) -> Seq<char>;

/// Number of bytes in a SHA3-384 digest.
pub const DIGEST_LEN: usize = 48;

/// The fingerprint text of a byte history: its SHA3-384 digest in unpadded
/// base64.
pub open spec fn fingerprint_of(history: Seq<u8>) -> Seq<char> {
    base64_no_pad(sha3_384(history))
}

/// Calls `Digest::new` of `sha3::Sha3_384`. Trusted claim: a new hasher has
/// absorbed nothing.
#[verifier::external_body]
pub(crate) fn accumulator_new() -> (acc: sha3::Sha3_384)
    ensures
        absorbed(acc) == Seq::<u8>::empty(),
{
    <sha3::Sha3_384 as sha3::Digest>::new()
}

/// Calls `Digest::update` of `sha3::Sha3_384`. Trusted claim: the hasher has
/// then absorbed `data` after everything it had absorbed before, so that
/// splitting a message over several calls makes no difference.
#[verifier::external_body]
pub(crate) fn accumulator_update(acc: &mut sha3::Sha3_384, data: &[u8])
    ensures
        absorbed(*final(acc)) == absorbed(*old(acc)) + data@,
{
    sha3::Digest::update(acc, data)
}

/// Calls `Clone::clone` of `sha3::Sha3_384`. Trusted claim: the copy has
/// absorbed exactly what the hasher it was made from has.
#[verifier::external_body]
pub(crate) fn accumulator_clone(acc: &sha3::Sha3_384) -> (copy: sha3::Sha3_384)
    ensures
        absorbed(copy) == absorbed(*acc),
{
    acc.clone()
}

/// Calls `Digest::finalize` of `sha3::Sha3_384`. Trusted claim: the result is
/// the SHA3-384 digest of the absorbed bytes, and it is 48 bytes long.
#[verifier::external_body]
pub(crate) fn accumulator_finalize(acc: sha3::Sha3_384) -> (digest: Vec<u8>)
    ensures
        digest@ == sha3_384(absorbed(acc)),
        digest@.len() == DIGEST_LEN,
{
    sha3::Digest::finalize(acc).to_vec()
}

/// Calls `Engine::encode` on `base64::engine::general_purpose::STANDARD_NO_PAD`.
/// Trusted claim: the result is the unpadded base64 text of `bytes`. The
/// encoder panics when the encoded length does not fit in `usize`; the
/// precondition keeps such inputs out.
#[verifier::external_body]
pub(crate) fn encode_no_pad(bytes: &[u8]) -> (text: String)
    requires
        bytes@.len() / 3 * 4 + 3 <= usize::MAX,
    ensures
        text@ == base64_no_pad(bytes@),
{
    base64::Engine::encode(&base64::engine::general_purpose::STANDARD_NO_PAD, bytes)
}

} // verus!
