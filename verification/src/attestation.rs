//! Legacy and quote path verifiers.
//!
//! The cryptographic work of both paths is done by collaborators outside
//! this library: the certificate validator parses and signature-checks the
//! legacy certificate, and the quote validator checks the hardware quote's
//! signature chain against the collateral. The functions here take those
//! collaborators' answers as plain values and make every decision that
//! follows: the defensive re-check of the returned key length, the
//! non-fatal treatment of stale collateral, the trust policy check, and the
//! extraction of the channel public key from the attested report data.

use crate::outcome::NodeAuthResult;
use crate::policy::{policy_verdict, verify_ra_report, TrustPolicy, TrustPolicyModel};
use vstd::prelude::*;

verus! {

/// Size in bytes of a channel public key and of each measurement.
pub const PUBLIC_KEY_SIZE: usize = 32;

/// Size in bytes of the report body's user-data field.
pub const REPORT_DATA_BYTES: usize = 64;

/// The attested report body the quote validator extracts from a verified
/// quote: the signer measurement, the enclave code measurement and the
/// user-data field whose first 32 bytes carry the channel public key.
#[derive(Clone, Debug, PartialEq, Eq)]
pub struct ReportBody {
    pub mr_signer: Vec<u8>,
    pub mr_enclave: Vec<u8>,
    pub report_data: Vec<u8>,
}

/// Mathematical model of a [`ReportBody`].
pub struct ReportBodyModel {
    pub mr_signer: Seq<u8>,
    pub mr_enclave: Seq<u8>,
    pub report_data: Seq<u8>,
}

impl ReportBodyModel {
    /// Field sizes the attestation hardware fixes.
    pub open spec fn wf(self) -> bool {
        &&& self.mr_signer.len() == PUBLIC_KEY_SIZE
        &&& self.mr_enclave.len() == PUBLIC_KEY_SIZE
        &&& self.report_data.len() == REPORT_DATA_BYTES
    }
}

impl View for ReportBody {
    type V = ReportBodyModel;

    open spec fn view(&self) -> ReportBodyModel {
        ReportBodyModel {
            mr_signer: self.mr_signer@,
            mr_enclave: self.mr_enclave@,
            report_data: self.report_data@,
        }
    }
}

/// What the quote validator returns when the signature chain checked out:
/// the attested report body and whether the collateral was fresh. Stale
/// collateral is a degraded-but-acceptable condition, logged by the host and
/// never fatal here.
#[derive(Clone, Debug, PartialEq, Eq)]
pub struct QuoteVerification {
    pub report: ReportBody,
    pub collateral_fresh: bool,
}

/// Mathematical model of a [`QuoteVerification`].
pub struct QuoteVerificationModel {
    pub report: ReportBodyModel,
    pub collateral_fresh: bool,
}

impl View for QuoteVerification {
    type V = QuoteVerificationModel;

    open spec fn view(&self) -> QuoteVerificationModel {
        QuoteVerificationModel { report: self.report@, collateral_fresh: self.collateral_fresh }
    }
}

/// Model of the certificate validator's answer on the legacy path: a channel
/// public key candidate, or the admission outcome to propagate verbatim.
pub open spec fn legacy_verdict_model(verdict: Result<Vec<u8>, NodeAuthResult>) -> Result<
    Seq<u8>,
    NodeAuthResult,
> {
    match verdict {
        Ok(pk) => Ok(pk@),
        Err(e) => Err(e),
    }
}

/// Model of the quote validator's answer: the verification result when the
/// signature chain checked out, `None` when it did not.
pub open spec fn quote_verdict_model(verdict: Option<QuoteVerification>) -> Option<
    QuoteVerificationModel,
> {
    match verdict {
        Some(v) => Some(v@),
        None => None,
    }
}

/// Outcome of the legacy path for a given collaborator answer: a failure is
/// propagated verbatim, a key of any length other than 32 bytes is rejected
/// as malformed, and a 32-byte key is accepted.
pub open spec fn epid_verdict(verdict: Result<Seq<u8>, NodeAuthResult>) -> NodeAuthResult {
    match verdict {
        Err(e) => e,
        Ok(pk) => if pk.len() == PUBLIC_KEY_SIZE {
            NodeAuthResult::Success
        } else {
            NodeAuthResult::MalformedPublicKey
        },
    }
}

/// Outcome of the quote path for a given collaborator answer: an outright
/// verification failure is fatal, and a verified quote is trusted exactly
/// when the policy accepts the attested identity. Collateral freshness plays
/// no part: stale collateral degrades, it does not block.
pub open spec fn dcap_verdict(
    policy: TrustPolicyModel,
    verdict: Option<QuoteVerificationModel>,
) -> NodeAuthResult {
    match verdict {
        None => NodeAuthResult::InvalidCert,
        Some(v) => policy_verdict(policy, v.report.mr_signer, v.report.mr_enclave),
    }
}

/// Legacy path verifier. `cert_verdict` is the certificate validator's
/// answer for the raw certificate bytes; the validator also enforces the
/// trust policy itself, since the legacy scheme carries its own embedded
/// report extension. The returned key is re-validated defensively: the
/// certificate content is attacker-influenced even after signature checks,
/// so a key of the wrong size is rejected as malformed. On success the key
/// is copied verbatim into `pub_key`; on any failure `pub_key` is untouched.
pub fn verify_attestation_epid(
    cert_verdict: Result<Vec<u8>, NodeAuthResult>,
    pub_key: &mut Vec<u8>,
) -> (r: NodeAuthResult)
    ensures
        r == epid_verdict(legacy_verdict_model(cert_verdict)),
        cert_verdict matches Ok(pk) ==> (if pk@.len() == PUBLIC_KEY_SIZE {
            final(pub_key)@ == pk@
        } else {
            final(pub_key)@ == old(pub_key)@
        }),
        cert_verdict matches Err(e) ==> final(pub_key)@ == old(pub_key)@,
{
    match cert_verdict {
        Err(e) => e,
        Ok(pk) => {
            if pk.len() != PUBLIC_KEY_SIZE {
                return NodeAuthResult::MalformedPublicKey;
            }
            *pub_key = pk;
            NodeAuthResult::Success
        },
    }
}

/// Quote path verifier. `quote_verdict` is the quote validator's answer for
/// the quote, the collateral and the trusted timestamp. A failed signature
/// chain is fatal; stale collateral is not. A verified report body is then
/// held to the trust policy, and on acceptance the channel public key is the
/// first 32 bytes of the report's user-data field. On any failure `pub_key`
/// is untouched.
pub fn verify_attestation_dcap(
    quote_verdict: Option<QuoteVerification>,
    policy: &TrustPolicy,
    pub_key: &mut Vec<u8>,
) -> (r: NodeAuthResult)
    requires
        quote_verdict matches Some(v) ==> v@.report.wf(),
    ensures
        r == dcap_verdict(policy@, quote_verdict_model(quote_verdict)),
        quote_verdict matches Some(v) ==> (r == NodeAuthResult::Success ==> final(pub_key)@
            == v.report.report_data@.subrange(0, PUBLIC_KEY_SIZE as int)),
        r != NodeAuthResult::Success ==> final(pub_key)@ == old(pub_key)@,
{
    match quote_verdict {
        None => NodeAuthResult::InvalidCert,
        Some(v) => {
            let verdict = verify_ra_report(&v.report.mr_signer, &v.report.mr_enclave, policy);
            if verdict != NodeAuthResult::Success {
                return verdict;
            }
            let mut key: Vec<u8> = Vec::new();
            let mut i: usize = 0;
            while i < PUBLIC_KEY_SIZE
                invariant
                    i <= PUBLIC_KEY_SIZE,
                    v.report.report_data@.len() == REPORT_DATA_BYTES,
                    key@ == v.report.report_data@.subrange(0, i as int),
                decreases PUBLIC_KEY_SIZE - i,
            {
                key.push(v.report.report_data[i]);
                assert(v.report.report_data@.subrange(0, i + 1)
                    =~= v.report.report_data@.subrange(0, i as int).push(
                    v.report.report_data@[i as int],
                ));
                i = i + 1;
            }
            *pub_key = key;
            NodeAuthResult::Success
        },
    }
}

/// Law: collateral freshness never decides the quote path. Two verified
/// quotes with the same attested report body — one with fresh collateral,
/// one stale — get the same verdict.
pub proof fn lemma_stale_collateral_non_fatal(
    policy: TrustPolicyModel,
    fresh: QuoteVerificationModel,
    stale: QuoteVerificationModel,
)
    requires
        fresh.report == stale.report,
    ensures
        dcap_verdict(policy, Some(fresh)) == dcap_verdict(policy, Some(stale)),
{
}

/// Trusted timestamp handed to the quote validator when live-chain
/// validation is not configured: the fixed default.
pub open spec fn default_block_time_s() -> int {
    0
}

/// The trusted timestamp, in seconds, used without live-chain validation.
/// With live-chain validation configured, the consensus time source supplies
/// it instead.
pub fn get_current_block_time_s() -> (r: i64)
    ensures
        r == default_block_time_s(),
{
    0
}

} // verus!
