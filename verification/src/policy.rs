//! Trust policy check.
//!
//! The single point where the cluster's notion of "genuine software" is
//! enforced: the attested software identity — a signer measurement and an
//! enclave code measurement — is compared against the configured accepted
//! sets. The check is total (every measurement pair maps to exactly one
//! outcome) and admits no wildcard outside the explicit configuration.

use crate::outcome::NodeAuthResult;
use vstd::prelude::*;

verus! {

/// Which parts of the attested software identity the policy pins down.
#[derive(Clone, Copy, Debug, PartialEq, Eq, Structural)]
pub enum SigningMethod {
    /// Trust any code measurement from an accepted signer.
    MrSigner,
    /// Trust only an accepted signer together with an accepted exact code
    /// measurement.
    MrEnclave,
}

/// The configured trust policy: the accepted signer measurements, the
/// accepted enclave code measurements, and the mode that says which of them
/// are enforced.
#[derive(Clone, Debug, PartialEq, Eq)]
pub struct TrustPolicy {
    pub method: SigningMethod,
    pub accepted_signers: Vec<Vec<u8>>,
    pub accepted_enclaves: Vec<Vec<u8>>,
}

/// Mathematical model of a [`TrustPolicy`]: the accepted sets as sequences of
/// byte sequences.
pub struct TrustPolicyModel {
    pub method: SigningMethod,
    pub accepted_signers: Seq<Seq<u8>>,
    pub accepted_enclaves: Seq<Seq<u8>>,
}

impl View for TrustPolicy {
    type V = TrustPolicyModel;

    open spec fn view(&self) -> TrustPolicyModel {
        TrustPolicyModel {
            method: self.method,
            accepted_signers: self.accepted_signers@.map_values(|m: Vec<u8>| m@),
            accepted_enclaves: self.accepted_enclaves@.map_values(|m: Vec<u8>| m@),
        }
    }
}

/// Whether the attested signer measurement is in the accepted set.
pub open spec fn signer_accepted(policy: TrustPolicyModel, signer: Seq<u8>) -> bool {
    policy.accepted_signers.contains(signer)
}

/// Whether the attested enclave code measurement is in the accepted set.
pub open spec fn enclave_accepted(policy: TrustPolicyModel, code: Seq<u8>) -> bool {
    policy.accepted_enclaves.contains(code)
}

/// The one outcome the policy assigns to an attested software identity: an
/// unrecognized signer is rejected whatever the code measurement; under
/// [`SigningMethod::MrEnclave`] an unrecognized code measurement is rejected
/// too.
pub open spec fn policy_verdict(policy: TrustPolicyModel, signer: Seq<u8>, code: Seq<u8>) -> NodeAuthResult {
    if !signer_accepted(policy, signer) {
        NodeAuthResult::UnrecognizedSigner
    } else if policy.method is MrEnclave && !enclave_accepted(policy, code) {
        NodeAuthResult::UnrecognizedCodeMeasurement
    } else {
        NodeAuthResult::Success
    }
}

/// Byte-for-byte equality of two measurements.
fn bytes_eq(a: &Vec<u8>, b: &Vec<u8>) -> (r: bool)
    ensures
        r == (a@ == b@),
{
    let a_len = a.len();
    if a_len != b.len() {
        assert(a@ != b@);
        return false;
    }
    let mut i: usize = 0;
    while i < a_len
        invariant
            a_len == a@.len() == b@.len(),
            i <= a_len,
            forall|j: int| 0 <= j < i ==> a@[j] == b@[j],
        decreases a_len - i,
    {
        if a[i] != b[i] {
            return false;
        }
        i = i + 1;
    }
    assert(a@ =~= b@);
    true
}

/// Whether `m` is one of the measurements in `list`.
fn measurement_accepted(list: &Vec<Vec<u8>>, m: &Vec<u8>) -> (r: bool)
    ensures
        r == list@.map_values(|v: Vec<u8>| v@).contains(m@),
{
    let ghost model = list@.map_values(|v: Vec<u8>| v@);
    let n = list.len();
    let mut i: usize = 0;
    while i < n
        invariant
            n == list@.len(),
            model == list@.map_values(|v: Vec<u8>| v@),
            i <= n,
            forall|j: int| 0 <= j < i ==> model[j] != m@,
        decreases n - i,
    {
        if bytes_eq(&list[i], m) {
            assert(model[i as int] == m@);
            return true;
        }
        i = i + 1;
    }
    assert(forall|j: int| 0 <= j < model.len() ==> model[j] != m@);
    false
}

/// Applies the configured trust policy to an attested software identity and
/// returns its verdict.
pub fn verify_ra_report(signer: &Vec<u8>, code: &Vec<u8>, policy: &TrustPolicy) -> (r:
    NodeAuthResult)
    ensures
        r == policy_verdict(policy@, signer@, code@),
{
    if !measurement_accepted(&policy.accepted_signers, signer) {
        NodeAuthResult::UnrecognizedSigner
    } else if matches!(policy.method, SigningMethod::MrEnclave) && !measurement_accepted(
        &policy.accepted_enclaves,
        code,
    ) {
        NodeAuthResult::UnrecognizedCodeMeasurement
    } else {
        NodeAuthResult::Success
    }
}

/// Law: a signer outside the accepted set is rejected, whatever the code
/// measurement and whatever the configured mode.
pub proof fn lemma_unrecognized_signer_rejected(
    policy: TrustPolicyModel,
    signer: Seq<u8>,
    code: Seq<u8>,
)
    requires
        !signer_accepted(policy, signer),
    ensures
        policy_verdict(policy, signer, code) == NodeAuthResult::UnrecognizedSigner,
{
}

/// Law: under the exact-match mode, an accepted signer with a code
/// measurement outside the accepted set is rejected too.
pub proof fn lemma_exact_mode_rejects_unrecognized_code(
    policy: TrustPolicyModel,
    signer: Seq<u8>,
    code: Seq<u8>,
)
    requires
        signer_accepted(policy, signer),
        policy.method is MrEnclave,
        !enclave_accepted(policy, code),
    ensures
        policy_verdict(policy, signer, code) == NodeAuthResult::UnrecognizedCodeMeasurement,
{
}

} // verus!
