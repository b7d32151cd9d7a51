//! Threshold signing: the signer set is checked, every signer commits to fresh
//! single-use nonces, contributes a partial signature over the
//! domain-separated digest of the message, and the partial signatures are
//! checked and combined into one signature. Verification checks a signature
//! against the group key and the message.
use vstd::prelude::*;

use frost_dalek::precomputation::SecretCommitmentShareList;

use crate::error::FrostError;
use crate::frost::{
    aggregate_signature, finalize_aggregator, group_key_from_bytes, include_partial,
    include_signer, message_hash, new_aggregator, new_commitments, public_share, sign_partial,
    signature_from_bytes, signature_to_bytes, signature_verifies, signer_list, group_key_decodes,
    message_digest, signature_decodes, signature_holds,
};
use crate::keygen::FrostKeys;

verus! {

/// The first fault of a signer set, read from the front: an index outside
/// `1..=n` (`UnknownSignerIndex`) or one seen before (`DuplicateSigner`).
pub open spec fn signer_fault(s: Seq<u32>, n: u32) -> Option<FrostError>
    decreases s.len(),
{
    if s.len() == 0 {
        None
    } else {
        let prefix = s.drop_last();
        match signer_fault(prefix, n) {
            Some(e) => Some(e),
            None => {
                let x = s.last();
                if x == 0 || x > n {
                    Some(FrostError::UnknownSignerIndex(x))
                } else if prefix.contains(x) {
                    Some(FrostError::DuplicateSigner(x))
                } else {
                    None
                }
            },
        }
    }
}

/// Why a signer set cannot sign under threshold `t` with `n` participants:
/// too few signers first, then its first fault.
pub open spec fn signer_set_error(s: Seq<u32>, t: u32, n: u32) -> Option<FrostError> {
    if s.len() < t {
        Some(FrostError::InsufficientSigners(s.len() as usize, t))
    } else {
        signer_fault(s, n)
    }
}

/// A signer set without faults: distinct indices, all in `1..=n`.
pub open spec fn valid_signers(s: Seq<u32>, n: u32) -> bool {
    &&& forall|k: int| 0 <= k < s.len() ==> 1 <= #[trigger] s[k] <= n
    &&& forall|a: int, b: int| 0 <= a < b < s.len() ==> s[a] != s[b]
}

/// A signer set has no fault exactly when its indices are distinct and all
/// name participants `1..=n`.
pub proof fn lemma_signer_fault_none(s: Seq<u32>, n: u32)
    ensures
        signer_fault(s, n) is None <==> valid_signers(s, n),
    decreases s.len(),
{
    if s.len() > 0 {
        let prefix = s.drop_last();
        lemma_signer_fault_none(prefix, n);
        if signer_fault(s, n) is None {
            assert forall|a: int, b: int| 0 <= a < b < s.len() implies s[a] != s[b] by {
                if b == s.len() - 1 {
                    assert(prefix[a] == s[a]);
                    assert(!prefix.contains(s.last()));
                } else {
                    assert(prefix[a] == s[a] && prefix[b] == s[b]);
                }
            }
            assert forall|k: int| 0 <= k < s.len() implies 1 <= #[trigger] s[k] <= n by {
                if k < s.len() - 1 {
                    assert(prefix[k] == s[k]);
                }
            }
        }
        if valid_signers(s, n) {
            assert forall|k: int| 0 <= k < prefix.len() implies 1 <= #[trigger] prefix[k] <= n by {
                assert(prefix[k] == s[k]);
            }
            assert forall|a: int, b: int| 0 <= a < b < prefix.len() implies prefix[a]
                != prefix[b] by {
                assert(prefix[a] == s[a] && prefix[b] == s[b]);
            }
            assert(s.last() == s[s.len() - 1]);
            if prefix.contains(s.last()) {
                let a = choose|a: int| 0 <= a < prefix.len() && prefix[a] == s.last();
                assert(s[a] == s[s.len() - 1]);
            }
        }
    }
}

/// A fault of a prefix is the fault of the whole set.
proof fn lemma_fault_of_prefix(s: Seq<u32>, n: u32, m: int)
    requires
        0 <= m <= s.len(),
        signer_fault(s.take(m), n) is Some,
    ensures
        signer_fault(s, n) == signer_fault(s.take(m), n),
    decreases s.len(),
{
    if m == s.len() {
        assert(s.take(m) =~= s);
    } else {
        assert(s.drop_last().take(m) =~= s.take(m));
        lemma_fault_of_prefix(s.drop_last(), n, m);
    }
}

/// Checks a signer set against threshold `t` and `n` participants.
pub fn check_signers(signers: &Vec<u32>, t: u32, n: u32) -> (r: Result<(), FrostError>)
    ensures
        r is Ok <==> signer_set_error(signers@, t, n) is None,
        r matches Err(e) ==> signer_set_error(signers@, t, n) == Some(e),
{
    if signers.len() < t as usize {
        return Err(FrostError::InsufficientSigners(signers.len(), t));
    }
    let mut i: usize = 0;
    while i < signers.len()
        invariant
            0 <= i <= signers@.len(),
            signer_fault(signers@.take(i as int), n) is None,
            signers@.len() >= t,
        decreases signers@.len() - i,
    {
        let x = signers[i];
        assert(signers@.take(i as int + 1).drop_last() =~= signers@.take(i as int));
        assert(signers@.take(i as int + 1).last() == x);
        if x == 0 || x > n {
            proof {
                lemma_fault_of_prefix(signers@, n, i as int + 1);
            }
            return Err(FrostError::UnknownSignerIndex(x));
        }
        let mut j: usize = 0;
        while j < i
            invariant
                0 <= j <= i < signers@.len(),
                x == signers@[i as int],
                1 <= x <= n,
                signers@.len() >= t,
                signer_fault(signers@.take(i as int), n) is None,
                signers@.take(i as int + 1).drop_last() =~= signers@.take(i as int),
                signers@.take(i as int + 1).last() == x,
                forall|k: int| 0 <= k < j ==> signers@[k] != x,
            decreases i - j,
        {
            if signers[j] == x {
                assert(signers@.take(i as int)[j as int] == x);
                proof {
                    lemma_fault_of_prefix(signers@, n, i as int + 1);
                }
                return Err(FrostError::DuplicateSigner(x));
            }
            j = j + 1;
        }
        assert(!signers@.take(i as int).contains(x));
        i = i + 1;
    }
    assert(signers@.take(signers@.len() as int) =~= signers@);
    Ok(())
}

/// The errors of a signing session whose inputs passed every check: the
/// outside arithmetic refused to combine, or the partial signature of one of
/// the signers failed.
pub open spec fn session_error(e: FrostError, signers: Seq<u32>) -> bool {
    match e {
        FrostError::AggregationFailed => true,
        FrostError::PartialSignatureInvalid(i) => signers.contains(i),
        _ => false,
    }
}

/// Signs `message` under the domain-separation string `context` with the
/// signers `signers` (participant indices) of the key material `keys`, which
/// must have been made for `n` participants.
///
/// Nothing is signed unless the key material is for `n` participants
/// (`MalformedKeyMaterial`) and the signer set has at least `threshold`
/// distinct members, all in `1..=n` (`signer_set_error`). Each signer then
/// commits to fresh nonces, which the signing step consumes, and signs the
/// digest of context and message; the partial signatures are checked and
/// summed into the 64-byte encoding of `(R, z)`.
pub fn sign_message(
    message: &[u8],
    signers: Vec<u32>,
    n: u32,
    keys: &FrostKeys,
    context: &[u8],
) -> (r: Result<[u8; 64], FrostError>)
    requires
        keys.wf(),
    ensures
        keys.n != n ==> r == Err::<[u8; 64], FrostError>(FrostError::MalformedKeyMaterial),
        keys.n == n && signers@.len() < keys.threshold ==> r == Err::<[u8; 64], FrostError>(
            FrostError::InsufficientSigners(signers@.len() as usize, keys.threshold),
        ),
        keys.n == n && signer_set_error(signers@, keys.threshold, n) is Some ==> r == Err::<
            [u8; 64],
            FrostError,
        >(signer_set_error(signers@, keys.threshold, n)->0),
        r matches Err(e) ==> (keys.n != n && e == FrostError::MalformedKeyMaterial) || (keys.n
            == n && signer_set_error(signers@, keys.threshold, n) == Some(e)) || (keys.n == n
            && signer_set_error(signers@, keys.threshold, n) is None && session_error(e, signers@)),
        r is Ok ==> keys.n == n && valid_signers(signers@, n) && signers@.len() >= keys.threshold,
{
    if keys.n != n {
        return Err(FrostError::MalformedKeyMaterial);
    }
    match check_signers(&signers, keys.threshold, n) {
        Err(e) => {
            return Err(e);
        },
        Ok(()) => {},
    }
    proof {
        lemma_signer_fault_none(signers@, n);
    }
    let mut session = new_aggregator(keys.threshold, n, keys.group, context, message);
    // Every signer commits to one fresh pair of nonces for this session only.
    let mut nonces: Vec<SecretCommitmentShareList> = Vec::new();
    let mut k: usize = 0;
    while k < signers.len()
        invariant
            keys.wf(),
            keys.n == n,
            valid_signers(signers@, n),
            signer_set_error(signers@, keys.threshold, n) is None,
            0 <= k <= signers@.len(),
            nonces@.len() == k,
        decreases signers@.len() - k,
    {
        let index = signers[k];
        let (public_list, secret_list) = new_commitments(index);
        let public_key = public_share(&keys.private_shares[(index - 1) as usize].0);
        if !include_signer(&mut session, &public_list, public_key) {
            return Err(FrostError::AggregationFailed);
        }
        nonces.push(secret_list);
        k = k + 1;
    }
    let list = signer_list(&mut session);
    let digest = message_hash(context, message);
    // Each signer's nonces are moved into its signing step and gone after it.
    let mut k: usize = 0;
    while k < signers.len()
        invariant
            keys.wf(),
            keys.n == n,
            valid_signers(signers@, n),
            signer_set_error(signers@, keys.threshold, n) is None,
            0 <= k <= signers@.len(),
            nonces@.len() == signers@.len() - k,
        decreases signers@.len() - k,
    {
        let index = signers[k];
        let secret_list = nonces.remove(0);
        let secret = &keys.private_shares[(index - 1) as usize].0;
        match sign_partial(secret, &digest, &keys.group, secret_list, &list) {
            Some(partial) => include_partial(&mut session, partial),
            None => {
                return Err(FrostError::AggregationFailed);
            },
        }
        k = k + 1;
    }
    let closed = match finalize_aggregator(session) {
        Some(c) => c,
        None => {
            return Err(FrostError::AggregationFailed);
        },
    };
    match aggregate_signature(&closed) {
        Ok(signature) => Ok(signature_to_bytes(&signature)),
        Err(misbehaving) => {
            proof {
                lemma_first_blamed_is_signer(misbehaving@, signers@);
            }
            Err(aggregation_error(&misbehaving, &signers))
        },
    }
}

/// The first index, in `misbehaving`, that is one of `signers`, where there is one.
pub open spec fn first_blamed(misbehaving: Seq<u32>, signers: Seq<u32>) -> Option<u32>
    decreases misbehaving.len(),
{
    if misbehaving.len() == 0 {
        None
    } else if signers.contains(misbehaving[0]) {
        Some(misbehaving[0])
    } else {
        first_blamed(misbehaving.drop_first(), signers)
    }
}

/// An index that `first_blamed` picks is a signer.
pub proof fn lemma_first_blamed_is_signer(misbehaving: Seq<u32>, signers: Seq<u32>)
    ensures
        first_blamed(misbehaving, signers) matches Some(i) ==> signers.contains(i),
    decreases misbehaving.len(),
{
    if misbehaving.len() > 0 {
        lemma_first_blamed_is_signer(misbehaving.drop_first(), signers);
    }
}

/// The error for a failed aggregation, given the indices whose partial
/// signature did not verify: `PartialSignatureInvalid` of the first of them
/// that is a signer of the session, else `AggregationFailed`.
pub fn aggregation_error(misbehaving: &Vec<u32>, signers: &Vec<u32>) -> (r: FrostError)
    ensures
        first_blamed(misbehaving@, signers@) matches Some(i) ==> r == FrostError::PartialSignatureInvalid(i),
        first_blamed(misbehaving@, signers@) is None ==> r == FrostError::AggregationFailed,
{
    let mut k: usize = 0;
    assert(misbehaving@.skip(0) =~= misbehaving@);
    while k < misbehaving.len()
        invariant
            0 <= k <= misbehaving@.len(),
            first_blamed(misbehaving@, signers@) == first_blamed(misbehaving@.skip(k as int), signers@),
        decreases misbehaving@.len() - k,
    {
        let x = misbehaving[k];
        let mut j: usize = 0;
        while j < signers.len()
            invariant
                0 <= j <= signers@.len(),
                0 <= k < misbehaving@.len(),
                x == misbehaving@[k as int],
                forall|q: int| 0 <= q < j ==> signers@[q] != x,
                first_blamed(misbehaving@, signers@) == first_blamed(misbehaving@.skip(k as int), signers@),
            decreases signers@.len() - j,
        {
            if signers[j] == x {
                assert(misbehaving@.skip(k as int)[0] == x);
                assert(signers@.contains(x));
                return FrostError::PartialSignatureInvalid(x);
            }
            j = j + 1;
        }
        assert(misbehaving@.skip(k as int)[0] == x);
        assert(!signers@.contains(x));
        assert(misbehaving@.skip(k as int).drop_first() =~= misbehaving@.skip(k as int + 1));
        k = k + 1;
    }
    assert(misbehaving@.skip(k as int).len() == 0);
    FrostError::AggregationFailed
}

/// The 64-byte signature encoding held in `bytes`, or
/// `MalformedSignatureEncoding(64, len)` where `bytes` has another length.
pub fn signature_array(bytes: &Vec<u8>) -> (r: Result<[u8; 64], FrostError>)
    ensures
        bytes@.len() == 64 <==> r is Ok,
        r matches Ok(a) ==> a@ == bytes@,
        r matches Err(e) ==> e == FrostError::MalformedSignatureEncoding(64, bytes@.len() as usize),
{
    if bytes.len() != 64 {
        return Err(FrostError::MalformedSignatureEncoding(64, bytes.len()));
    }
    let mut a: [u8; 64] = [0u8; 64];
    let mut i: usize = 0;
    while i < 64
        invariant
            0 <= i <= 64,
            bytes@.len() == 64,
            a@.len() == 64,
            forall|k: int| 0 <= k < i ==> a@[k] == bytes@[k],
        decreases 64 - i,
    {
        a[i] = bytes[i];
        i = i + 1;
    }
    assert(a@ =~= bytes@);
    Ok(a)
}

/// What checking `signature` on `message` under `context` against the
/// compressed group key `group_key` gives: a malformed signature encoding
/// (wrong length, or no `(R, z)` in it), then a group key that is no group
/// element, then whether the verification equation holds for the digest of
/// context and message.
pub open spec fn validation_result(
    message: Seq<u8>,
    group_key: Seq<u8>,
    signature: Seq<u8>,
    context: Seq<u8>,
) -> Result<(), FrostError> {
    if signature.len() != 64 {
        Err(FrostError::MalformedSignatureEncoding(64, signature.len() as usize))
    } else if !signature_decodes(signature) {
        Err(FrostError::MalformedSignatureEncoding(64, 64))
    } else if !group_key_decodes(group_key) {
        Err(FrostError::MalformedKeyMaterial)
    } else if signature_holds(signature, group_key, message_digest(context, message)) {
        Ok(())
    } else {
        Err(FrostError::SignatureVerificationFailed)
    }
}

/// Checks `signature` (the 64-byte encoding of `(R, z)`) on `message` under
/// `context` against the compressed group key `group_key`.
///
/// An encoding of the wrong length, or one that holds no `(R, z)`, is
/// `MalformedSignatureEncoding`; a group key that is no group element is
/// `MalformedKeyMaterial`; a signature that does not verify is
/// `SignatureVerificationFailed`. The result depends on the inputs alone.
pub fn validate_signature(
    message: &[u8],
    group_key: [u8; 32],
    signature: &Vec<u8>,
    context: &[u8],
) -> (r: Result<(), FrostError>)
    ensures
        r == validation_result(message@, group_key@, signature@, context@),
{
    let bytes = match signature_array(signature) {
        Ok(a) => a,
        Err(e) => {
            return Err(e);
        },
    };
    if !signature_from_bytes(bytes) {
        return Err(FrostError::MalformedSignatureEncoding(64, 64));
    }
    if !group_key_from_bytes(group_key) {
        return Err(FrostError::MalformedKeyMaterial);
    }
    let digest = message_hash(context, message);
    if signature_verifies(bytes, group_key, &digest) {
        Ok(())
    } else {
        Err(FrostError::SignatureVerificationFailed)
    }
}

} // verus!
