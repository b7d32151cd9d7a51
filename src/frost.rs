//! The calls into `frost_dalek` that the protocol logic makes. The group
//! arithmetic, hashing and encodings live there; every item here is taken on
//! trust, and each says which function of that crate it relies on.
use vstd::prelude::*;

use frost_dalek::keygen::{Coefficients, RoundOne, RoundTwo, SecretShare};
use frost_dalek::precomputation::{PublicCommitmentShareList, SecretCommitmentShareList};
use frost_dalek::signature::{Finalized, Initial, PartialThresholdSignature, Signer, ThresholdSignature};
use frost_dalek::{
    DistributedKeyGeneration, GroupKey, IndividualPublicKey, IndividualSecretKey, Parameters,
    Participant, SignatureAggregator,
};

verus! {

#[verifier::external_type_specification]
#[verifier::external_body]
pub struct ExParticipant(Participant);

#[verifier::external_type_specification]
#[verifier::external_body]
pub struct ExCoefficients(Coefficients);

/// A participant's state between the two rounds of key generation. Verus
/// cannot declare `DistributedKeyGeneration`, whose parameter is bound by a
/// sealed trait of `frost_dalek`, so the state is held here out of its sight.
#[verifier::external_body]
pub struct RoundOneState {
    inner: DistributedKeyGeneration<RoundOne>,
}

/// A participant's state after its received shares were checked.
#[verifier::external_body]
pub struct RoundTwoState {
    inner: DistributedKeyGeneration<RoundTwo>,
}

#[verifier::external_type_specification]
#[verifier::external_body]
pub struct ExSecretShare(SecretShare);

#[verifier::external_type_specification]
#[verifier::external_body]
pub struct ExGroupKey(GroupKey);

#[verifier::external_type_specification]
#[verifier::external_body]
pub struct ExIndividualSecretKey(IndividualSecretKey);

#[verifier::external_type_specification]
#[verifier::external_body]
pub struct ExIndividualPublicKey(IndividualPublicKey);

#[verifier::external_type_specification]
#[verifier::external_body]
pub struct ExPublicCommitmentShareList(PublicCommitmentShareList);

#[verifier::external_type_specification]
#[verifier::external_body]
pub struct ExSecretCommitmentShareList(SecretCommitmentShareList);

/// A signing session that is still collecting signers and partial
/// signatures. `SignatureAggregator`'s parameter is bound by a trait of
/// `frost_dalek`, which Verus cannot declare, so it is held here.
#[verifier::external_body]
pub struct OpenSession<'sa> {
    inner: SignatureAggregator<Initial<'sa>>,
}

/// A signing session whose signers all contributed.
#[verifier::external_body]
pub struct ClosedSession {
    inner: SignatureAggregator<Finalized>,
}

#[verifier::external_type_specification]
#[verifier::external_body]
pub struct ExSigner(Signer);

#[verifier::external_type_specification]
#[verifier::external_body]
pub struct ExPartialThresholdSignature(PartialThresholdSignature);

#[verifier::external_type_specification]
#[verifier::external_body]
pub struct ExThresholdSignature(ThresholdSignature);

/// The 64-byte digest that `compute_message_hash` gives for a context string
/// and a message (SHA-512 over the two, one after the other).
pub uninterp spec fn message_digest(context: Seq<u8>, message: Seq<u8>) -> Seq<u8>;

/// Whether 64 bytes are the encoding `R ∥ z` of a threshold signature, as
/// `ThresholdSignature::from_bytes` decides.
pub uninterp spec fn signature_decodes(bytes: Seq<u8>) -> bool;

/// Whether 32 bytes are a compressed group element, as `GroupKey::from_bytes`
/// decides.
pub uninterp spec fn group_key_decodes(bytes: Seq<u8>) -> bool;

/// Whether an encoded signature holds under an encoded group key for a
/// message digest, as `ThresholdSignature::verify` decides.
pub uninterp spec fn signature_holds(signature: Seq<u8>, group_key: Seq<u8>, digest: Seq<u8>) -> bool;

/// Relies on `Participant::new`: samples a polynomial of `t` coefficients and
/// publishes its commitments with a proof of knowledge. It indexes the first
/// coefficient, so `t` must be at least one.
#[verifier::external_body]
pub(crate) fn new_participant(t: u32, n: u32, index: u32) -> (r: (Participant, Coefficients))
    requires
        t >= 1,
{
    Participant::new(&Parameters { t, n }, index)
}

/// Relies on `NizkOfSecretKey::verify`: checks a participant's proof of
/// knowledge against its own index and first commitment (`public_key`); a
/// participant without commitments has no valid proof.
#[verifier::external_body]
pub(crate) fn proof_is_valid(p: &Participant) -> (r: bool) {
    match p.public_key() {
        Some(key) => p.proof_of_secret_key.verify(&p.index, key).is_ok(),
        None => false,
    }
}

/// Relies on `Participant`'s derived `Clone`.
#[verifier::external_body]
pub(crate) fn copy_participant(p: &Participant) -> (r: Participant) {
    p.clone()
}

/// Relies on `DistributedKeyGeneration::<RoundOne>::new`: verifies the other
/// participants' proofs and evaluates this participant's polynomial for each of
/// them; on failure, the indices of the participants whose proof failed (none
/// where their number is not `n - 1`). It computes `n - 1`, so `n` must be at
/// least one.
#[verifier::external_body]
pub(crate) fn dkg_round_one(
    t: u32,
    n: u32,
    index: u32,
    coefficients: &Coefficients,
    others: Vec<Participant>,
) -> (r: Result<RoundOneState, Vec<u32>>)
    requires
        n >= 1,
{
    let mut others = others;
    let params = Parameters { t, n };
    DistributedKeyGeneration::<RoundOne>::new(&params, &index, coefficients, &mut others)
        .map(|inner| RoundOneState { inner })
}

/// Relies on `DistributedKeyGeneration::<RoundOne>::their_secret_shares`: the
/// shares meant for the other participants, in the order they were given.
#[verifier::external_body]
pub(crate) fn shares_for_others(state: &RoundOneState) -> (r: Option<Vec<SecretShare>>) {
    state.inner.their_secret_shares().ok().cloned()
}

/// Relies on `SecretShare`'s derived `Clone`.
#[verifier::external_body]
pub(crate) fn copy_share(s: &SecretShare) -> (r: SecretShare) {
    s.clone()
}

/// Relies on `DistributedKeyGeneration::<RoundOne>::to_round_two`: stores the
/// received shares and fails where their number is not `n - 1`. In this
/// version of `frost_dalek` it looks up each share's commitment by the share's
/// own (recipient) index, which is never a sender's, so no share is checked
/// against its sender's commitment here.
#[verifier::external_body]
pub(crate) fn dkg_round_two(
    state: RoundOneState,
    shares: Vec<SecretShare>,
) -> (r: Option<RoundTwoState>) {
    state.inner.to_round_two(shares).ok().map(|inner| RoundTwoState { inner })
}

/// Relies on `DistributedKeyGeneration::<RoundTwo>::finish`: sums the verified
/// shares into the long-lived secret share and the first commitments into the
/// group key; `p` supplies this participant's own first commitment.
#[verifier::external_body]
pub(crate) fn dkg_finish(
    state: RoundTwoState,
    p: &Participant,
) -> (r: Option<(GroupKey, IndividualSecretKey)>) {
    match p.public_key() {
        Some(key) => state.inner.finish(key).ok(),
        None => None,
    }
}

/// Relies on `GroupKey::to_bytes`: the compressed 32-byte encoding.
#[verifier::external_body]
pub(crate) fn group_key_to_bytes(key: &GroupKey) -> (r: [u8; 32]) {
    key.to_bytes()
}

/// Relies on `GroupKey::from_bytes`: whether the bytes are the compressed
/// encoding of a group element, which depends on the bytes alone.
#[verifier::external_body]
pub(crate) fn group_key_from_bytes(bytes: [u8; 32]) -> (r: bool)
    ensures
        r == group_key_decodes(bytes@),
{
    GroupKey::from_bytes(bytes).is_ok()
}

/// Relies on `SecretKey::to_public`: the public share of a long-lived secret share.
#[verifier::external_body]
pub(crate) fn public_share(key: &IndividualSecretKey) -> (r: IndividualPublicKey) {
    key.to_public()
}

/// Relies on `generate_commitment_share_lists`: one fresh pair of nonces from
/// the operating system's generator, with its public commitments.
#[verifier::external_body]
pub(crate) fn new_commitments(index: u32) -> (r: (PublicCommitmentShareList, SecretCommitmentShareList)) {
    frost_dalek::generate_commitment_share_lists(&mut rand::rngs::OsRng, index, 1)
}

/// Relies on `SignatureAggregator::new`.
#[verifier::external_body]
pub(crate) fn new_aggregator<'sa>(
    t: u32,
    n: u32,
    group_key: GroupKey,
    context: &'sa [u8],
    message: &'sa [u8],
) -> (r: OpenSession<'sa>) {
    let inner = SignatureAggregator::new(Parameters { t, n }, group_key, context, message);
    OpenSession { inner }
}

/// Relies on `SignatureAggregator::include_signer`, under the index that the
/// public key carries (the call panics on any other). Returns false, and
/// includes nothing, where the list holds no commitment.
#[verifier::external_body]
pub(crate) fn include_signer<'sa>(
    session: &mut OpenSession<'sa>,
    commitments: &PublicCommitmentShareList,
    public_key: IndividualPublicKey,
) -> (r: bool) {
    match commitments.commitments.get(0) {
        Some(c) => {
            session.inner.include_signer(public_key.index, *c, public_key);
            true
        },
        None => false,
    }
}

/// Relies on `SignatureAggregator::get_signers`: the included signers, sorted
/// by index without repeats.
#[verifier::external_body]
pub(crate) fn signer_list<'sa>(session: &mut OpenSession<'sa>) -> (r: Vec<Signer>) {
    session.inner.get_signers().clone()
}

/// Relies on `SecretKey::sign`: the partial signature of one signer. The nonce
/// list is taken by value, so its nonces cannot serve a second session.
#[verifier::external_body]
pub(crate) fn sign_partial(
    key: &IndividualSecretKey,
    message_hash: &[u8; 64],
    group_key: &GroupKey,
    nonces: SecretCommitmentShareList,
    signers: &Vec<Signer>,
) -> (r: Option<PartialThresholdSignature>) {
    let mut nonces = nonces;
    key.sign(message_hash, group_key, &mut nonces, 0, signers).ok()
}

/// Relies on `SignatureAggregator::include_partial_signature`.
#[verifier::external_body]
pub(crate) fn include_partial<'sa>(
    session: &mut OpenSession<'sa>,
    partial: PartialThresholdSignature,
) {
    session.inner.include_partial_signature(partial)
}

/// Relies on `SignatureAggregator::finalize`: fails where a signer lacks a
/// partial signature or a public key.
#[verifier::external_body]
pub(crate) fn finalize_aggregator<'sa>(
    session: OpenSession<'sa>,
) -> (r: Option<ClosedSession>) {
    session.inner.finalize().ok().map(|inner| ClosedSession { inner })
}

/// Relies on `SignatureAggregator::aggregate`: checks each partial signature
/// and sums them; on failure, the indices of the signers whose partial
/// signature did not verify, in no particular order.
#[verifier::external_body]
pub(crate) fn aggregate_signature(
    session: &ClosedSession,
) -> (r: Result<ThresholdSignature, Vec<u32>>) {
    session.inner.aggregate().map_err(|m| m.into_keys().collect())
}

/// Relies on `ThresholdSignature::to_bytes`: `R` compressed, then `z`.
#[verifier::external_body]
pub(crate) fn signature_to_bytes(signature: &ThresholdSignature) -> (r: [u8; 64]) {
    signature.to_bytes()
}

/// Relies on `ThresholdSignature::from_bytes`: whether the first half encodes
/// a group element and the second a canonical scalar, which depends on the
/// bytes alone.
#[verifier::external_body]
pub(crate) fn signature_from_bytes(bytes: [u8; 64]) -> (r: bool)
    ensures
        r == signature_decodes(bytes@),
{
    ThresholdSignature::from_bytes(bytes).is_ok()
}

/// Relies on `compute_message_hash`: the digest depends on the context string
/// and the message alone.
#[verifier::external_body]
pub(crate) fn message_hash(context: &[u8], message: &[u8]) -> (r: [u8; 64])
    ensures
        r@ == message_digest(context@, message@),
{
    frost_dalek::compute_message_hash(context, message)
}

/// Relies on `ThresholdSignature::verify`, on the signature and the group key
/// decoded by `ThresholdSignature::from_bytes` and `GroupKey::from_bytes`:
/// checks `z·B == R + c·Y` for the challenge `c` of `R`, the group key `Y` and
/// the digest. The outcome depends on the three byte strings alone, and is
/// false where either encoding does not decode.
#[verifier::external_body]
pub(crate) fn signature_verifies(
    signature: [u8; 64],
    group_key: [u8; 32],
    message_hash: &[u8; 64],
) -> (r: bool)
    ensures
        r == signature_holds(signature@, group_key@, message_hash@),
        r ==> signature_decodes(signature@) && group_key_decodes(group_key@),
{
    match (ThresholdSignature::from_bytes(signature), GroupKey::from_bytes(group_key)) {
        (Ok(s), Ok(k)) => s.verify(&k, message_hash).is_ok(),
        _ => false,
    }
}

} // verus!
