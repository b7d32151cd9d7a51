//! Distributed key generation: every participant publishes a polynomial
//! commitment with a proof of knowledge, the proofs are checked, shares are
//! routed to their recipients, and every participant derives its long-lived
//! share and the group key, which all participants must agree on.
use vstd::prelude::*;

use frost_dalek::keygen::{Coefficients, SecretShare};
use frost_dalek::{GroupKey, IndividualSecretKey, Participant};

use crate::error::FrostError;
use crate::frost::{
    copy_participant, copy_share, dkg_finish, dkg_round_one, dkg_round_two, group_key_to_bytes,
    new_participant, proof_is_valid, shares_for_others, RoundOneState, RoundTwoState,
};

verus! {

/// The key material of one run of key generation, held in memory.
pub struct FrostKeys {
    /// The group public key, compressed.
    pub group_key: [u8; 32],
    /// Each participant's long-lived secret share with its index, in index order.
    pub private_shares: Vec<(IndividualSecretKey, u32)>,
    /// The number of signers needed for a signature.
    pub threshold: u32,
    /// The number of participants.
    pub n: u32,
    /// The group public key itself.
    pub group: GroupKey,
    /// The group key as each participant derived it, by participant.
    pub derived_keys: Ghost<Seq<Seq<u8>>>,
}

impl FrostKeys {
    /// Parameters within `1 ≤ t ≤ n`, one share per participant, stored in
    /// index order, and every participant agreeing on the group key.
    pub open spec fn wf(&self) -> bool {
        &&& 1 <= self.threshold <= self.n
        &&& self.private_shares@.len() == self.n
        &&& forall|j: int| 0 <= j < self.n ==> #[trigger] self.private_shares@[j].1 == j + 1
        &&& self.derived_keys@.len() == self.n
        &&& forall|j: int| 0 <= j < self.n ==> #[trigger] self.derived_keys@[j] == self.group_key@
    }

    /// The compressed group public key.
    pub fn group_key_bytes(&self) -> (r: [u8; 32])
        ensures
            r == self.group_key,
    {
        self.group_key
    }

    /// The number of signers needed for a signature.
    pub fn threshold(&self) -> (r: u32)
        ensures
            r == self.threshold,
    {
        self.threshold
    }

    /// The number of participants.
    pub fn participants(&self) -> (r: u32)
        ensures
            r == self.n,
    {
        self.n
    }
}

/// Any two participants of a run that produced well-formed keys derived the
/// same group key, and it is the one the keys carry.
pub proof fn lemma_group_key_identical(keys: &FrostKeys, a: int, b: int)
    requires
        keys.wf(),
        0 <= a < keys.n,
        0 <= b < keys.n,
    ensures
        keys.derived_keys@[a] == keys.derived_keys@[b],
        keys.derived_keys@[a] == keys.group_key@,
{
    assert(keys.derived_keys@[a] == keys.group_key@);
    assert(keys.derived_keys@[b] == keys.group_key@);
}

/// Whether the key generation parameters are acceptable, and which error
/// names them where they are not.
pub open spec fn parameter_error(t: u32, n: u32) -> Option<FrostError> {
    if t > n {
        Some(FrostError::ThresholdExceedsParticipants)
    } else if t == 0 {
        Some(FrostError::ZeroThreshold)
    } else {
        None
    }
}

/// Checks `1 ≤ t ≤ n`.
pub fn check_parameters(t: u32, n: u32) -> (r: Result<(), FrostError>)
    ensures
        r is Ok <==> parameter_error(t, n) is None,
        r matches Err(e) ==> parameter_error(t, n) == Some(e),
{
    if t > n {
        Err(FrostError::ThresholdExceedsParticipants)
    } else if t == 0 {
        Err(FrostError::ZeroThreshold)
    } else {
        Ok(())
    }
}

/// Whether two byte strings are equal.
fn same_bytes(a: &[u8; 32], b: &[u8; 32]) -> (r: bool)
    ensures
        r == (a@ == b@),
{
    let mut i: usize = 0;
    while i < 32
        invariant
            0 <= i <= 32,
            a@.len() == 32,
            b@.len() == 32,
            forall|k: int| 0 <= k < i ==> a@[k] == b@[k],
        decreases 32 - i,
    {
        if a[i] != b[i] {
            return false;
        }
        i = i + 1;
    }
    assert(a@ =~= b@);
    true
}

/// The group key on which all participants agree: the first one's, where
/// every other participant derived the same bytes, else `GroupKeyMismatch`.
pub fn agreed_group_key(keys: &Vec<[u8; 32]>) -> (r: Result<[u8; 32], FrostError>)
    requires
        keys@.len() >= 1,
    ensures
        r is Ok <==> forall|j: int| 0 <= j < keys@.len() ==> #[trigger] keys@[j]@ == keys@[0]@,
        r matches Ok(k) ==> k == keys@[0],
        r matches Err(e) ==> e == FrostError::GroupKeyMismatch,
{
    let mut i: usize = 1;
    while i < keys.len()
        invariant
            1 <= i <= keys@.len(),
            forall|j: int| 0 <= j < i ==> #[trigger] keys@[j]@ == keys@[0]@,
        decreases keys@.len() - i,
    {
        if !same_bytes(&keys[i], &keys[0]) {
            return Err(FrostError::GroupKeyMismatch);
        }
        i = i + 1;
    }
    Ok(keys[0])
}

/// Where, in the list of shares that sender `j` computed for the other
/// participants (all but `j`, in index order), the share of recipient `i` stands.
pub open spec fn share_position(i: int, j: int) -> int {
    if i < j { i } else { i - 1 }
}

/// How many of the senders `0..j` hold a share for recipient `i` at its
/// position in their list.
pub open spec fn routed_count(all: Seq<Vec<SecretShare>>, i: int, j: int) -> nat
    decreases j,
{
    if j <= 0 {
        0
    } else {
        routed_count(all, i, j - 1) + if j - 1 != i && share_position(i, j - 1) < all[j - 1]@.len() {
            1nat
        } else {
            0nat
        }
    }
}

/// Where every sender's list holds one share for each other participant,
/// every recipient is routed exactly one share from each other participant.
pub proof fn lemma_routing_complete(all: Seq<Vec<SecretShare>>, i: int, j: int)
    requires
        0 <= i < all.len(),
        0 <= j <= all.len(),
        forall|k: int| 0 <= k < all.len() ==> (#[trigger] all[k])@.len() == all.len() - 1,
    ensures
        routed_count(all, i, j) == if i < j { j - 1 } else { j },
    decreases j,
{
    if j > 0 {
        lemma_routing_complete(all, i, j - 1);
        assert(all[j - 1]@.len() == all.len() - 1);
    }
}

/// The shares that participant `i` (counted from zero) receives: from every
/// other sender, the one at its position in that sender's list, where the list
/// holds one there.
fn shares_for(all: &Vec<Vec<SecretShare>>, i: usize) -> (r: Vec<SecretShare>)
    requires
        i < all@.len(),
    ensures
        r@.len() == routed_count(all@, i as int, all@.len() as int),
{
    let mut mine: Vec<SecretShare> = Vec::new();
    let mut j: usize = 0;
    while j < all.len()
        invariant
            0 <= j <= all@.len(),
            i < all@.len(),
            mine@.len() == routed_count(all@, i as int, j as int),
        decreases all@.len() - j,
    {
        if j != i {
            let pos: usize = if i < j { i } else { i - 1 };
            if pos < all[j].len() {
                mine.push(copy_share(&all[j][pos]));
            }
        }
        j = j + 1;
    }
    mine
}

/// The errors that key generation can end in once its parameters are
/// accepted: each names a participant `1..=n` where it can.
pub open spec fn run_error(e: FrostError, n: u32) -> bool {
    match e {
        FrostError::ProofOfKnowledgeInvalid(i) => 1 <= i <= n,
        FrostError::ShareCountMismatch(expected, actual) => expected == n - 1 && actual != n - 1,
        FrostError::ShareVerificationFailed(i) => 1 <= i <= n,
        FrostError::GroupKeyMismatch => true,
        FrostError::MalformedKeyMaterial => true,
        _ => false,
    }
}

/// Runs distributed key generation for `n` participants with threshold `t`.
///
/// The parameters are checked first (`ThresholdExceedsParticipants` where
/// `t > n`, `ZeroThreshold` where `t == 0`). Then every participant's proof of
/// knowledge is checked, every participant computes one share for each of the
/// `n - 1` others (`ShareCountMismatch` where it yields another number), the
/// shares are routed so that each recipient receives exactly one from every
/// other participant and hands them to `frost_dalek`'s second round, and each
/// derives its secret share and the group key. The keys are returned
/// only if every participant derived the same group key.
pub fn generate_keys(t: u32, n: u32) -> (r: Result<FrostKeys, FrostError>)
    ensures
        parameter_error(t, n) matches Some(e) ==> r == Err::<FrostKeys, FrostError>(e),
        r matches Err(e) ==> parameter_error(t, n) == Some(e) || (parameter_error(t, n) is None
            && run_error(e, n)),
        r matches Ok(keys) ==> keys.wf() && keys.threshold == t && keys.n == n,
{
    match check_parameters(t, n) {
        Err(e) => {
            return Err(e);
        },
        Ok(()) => {},
    }
    let nz: usize = n as usize;
    // Every participant samples its polynomial and publishes its commitments.
    let mut participants: Vec<Participant> = Vec::new();
    let mut coefficients: Vec<Coefficients> = Vec::new();
    let mut i: usize = 0;
    while i < nz
        invariant
            1 <= t <= n,
            nz == n,
            0 <= i <= nz,
            participants@.len() == i,
            coefficients@.len() == i,
        decreases nz - i,
    {
        let (p, c) = new_participant(t, n, (i + 1) as u32);
        participants.push(p);
        coefficients.push(c);
        i = i + 1;
    }
    // No share is trusted before every proof of knowledge holds.
    let mut i: usize = 0;
    while i < nz
        invariant
            1 <= t <= n,
            nz == n,
            0 <= i <= nz,
            participants@.len() == nz,
        decreases nz - i,
    {
        if !proof_is_valid(&participants[i]) {
            return Err(FrostError::ProofOfKnowledgeInvalid((i + 1) as u32));
        }
        i = i + 1;
    }
    // Round one: each participant evaluates its polynomial for all the others.
    let mut round_one: Vec<RoundOneState> = Vec::new();
    let mut all_shares: Vec<Vec<SecretShare>> = Vec::new();
    let mut i: usize = 0;
    while i < nz
        invariant
            1 <= t <= n,
            nz == n,
            0 <= i <= nz,
            participants@.len() == nz,
            coefficients@.len() == nz,
            round_one@.len() == i,
            all_shares@.len() == i,
            forall|k: int| 0 <= k < i ==> (#[trigger] all_shares@[k])@.len() == n - 1,
        decreases nz - i,
    {
        let mut others: Vec<Participant> = Vec::new();
        let mut j: usize = 0;
        while j < nz
            invariant
                0 <= j <= nz,
                participants@.len() == nz,
            decreases nz - j,
        {
            if j != i {
                others.push(copy_participant(&participants[j]));
            }
            j = j + 1;
        }
        let state = match dkg_round_one(t, n, (i + 1) as u32, &coefficients[i], others) {
            Ok(state) => state,
            Err(misbehaving) => {
                if misbehaving.len() > 0 && 1 <= misbehaving[0] && misbehaving[0] <= n {
                    return Err(FrostError::ProofOfKnowledgeInvalid(misbehaving[0]));
                }
                return Err(FrostError::MalformedKeyMaterial);
            },
        };
        let theirs = match shares_for_others(&state) {
            Some(shares) => shares,
            None => {
                return Err(FrostError::MalformedKeyMaterial);
            },
        };
        if theirs.len() != nz - 1 {
            return Err(FrostError::ShareCountMismatch(nz - 1, theirs.len()));
        }
        round_one.push(state);
        all_shares.push(theirs);
        i = i + 1;
    }
    // Round two: each participant checks the `n - 1` shares routed to it.
    let mut round_two: Vec<RoundTwoState> = Vec::new();
    let mut i: usize = 0;
    while i < nz
        invariant
            1 <= t <= n,
            nz == n,
            1 <= n,
            0 <= i <= nz,
            all_shares@.len() == nz,
            forall|k: int| 0 <= k < nz ==> (#[trigger] all_shares@[k])@.len() == n - 1,
            round_one@.len() == nz - i,
            round_two@.len() == i,
        decreases nz - i,
    {
        let mine = shares_for(&all_shares, i);
        proof {
            lemma_routing_complete(all_shares@, i as int, nz as int);
        }
        assert(mine@.len() == nz - 1);
        let state = round_one.remove(0);
        match dkg_round_two(state, mine) {
            Some(next) => round_two.push(next),
            None => {
                return Err(FrostError::ShareVerificationFailed((i + 1) as u32));
            },
        }
        i = i + 1;
    }
    // Each participant derives its long-lived share and the group key.
    let mut private_shares: Vec<(IndividualSecretKey, u32)> = Vec::new();
    let mut derived: Vec<[u8; 32]> = Vec::new();
    let mut group: Option<GroupKey> = None;
    let mut i: usize = 0;
    while i < nz
        invariant
            1 <= t <= n,
            nz == n,
            0 <= i <= nz,
            participants@.len() == nz,
            round_two@.len() == nz - i,
            private_shares@.len() == i,
            derived@.len() == i,
            i > 0 ==> group is Some,
            forall|j: int| 0 <= j < i ==> #[trigger] private_shares@[j].1 == j + 1,
        decreases nz - i,
    {
        let state = round_two.remove(0);
        match dkg_finish(state, &participants[i]) {
            Some((key, secret)) => {
                derived.push(group_key_to_bytes(&key));
                private_shares.push((secret, (i + 1) as u32));
                if i == 0 {
                    group = Some(key);
                }
            },
            None => {
                return Err(FrostError::MalformedKeyMaterial);
            },
        }
        i = i + 1;
    }
    let group_key = match agreed_group_key(&derived) {
        Ok(k) => k,
        Err(e) => {
            return Err(e);
        },
    };
    let group = match group {
        Some(g) => g,
        None => {
            return Err(FrostError::MalformedKeyMaterial);
        },
    };
    let ghost derived_keys = derived@.map_values(|k: [u8; 32]| k@);
    Ok(FrostKeys { group_key, private_shares, threshold: t, n, group, derived_keys: Ghost(derived_keys) })
}

} // verus!
