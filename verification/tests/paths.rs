use node_admission::attestation::{
    get_current_block_time_s, verify_attestation_dcap, verify_attestation_epid, QuoteVerification,
    ReportBody,
};
use node_admission::outcome::NodeAuthResult;
use node_admission::policy::{verify_ra_report, SigningMethod, TrustPolicy};

fn signer_only_policy() -> TrustPolicy {
    TrustPolicy {
        method: SigningMethod::MrSigner,
        accepted_signers: vec![vec![0x11u8; 32]],
        accepted_enclaves: vec![vec![0x22u8; 32]],
    }
}

fn exact_policy() -> TrustPolicy {
    TrustPolicy { method: SigningMethod::MrEnclave, ..signer_only_policy() }
}

fn report(signer: u8, code: u8) -> ReportBody {
    let mut report_data = vec![0u8; 64];
    for (i, byte) in report_data.iter_mut().enumerate() {
        *byte = i as u8;
    }
    ReportBody { mr_signer: vec![signer; 32], mr_enclave: vec![code; 32], report_data }
}

#[test]
fn policy_rejects_unknown_signer_regardless_of_code() {
    let accepted_code = vec![0x22u8; 32];
    let other_code = vec![0x99u8; 32];
    for policy in [signer_only_policy(), exact_policy()] {
        for code in [&accepted_code, &other_code] {
            assert_eq!(
                verify_ra_report(&vec![0x66u8; 32], code, &policy),
                NodeAuthResult::UnrecognizedSigner
            );
        }
    }
}

#[test]
fn policy_exact_mode_rejects_unknown_code() {
    assert_eq!(
        verify_ra_report(&vec![0x11u8; 32], &vec![0x99u8; 32], &exact_policy()),
        NodeAuthResult::UnrecognizedCodeMeasurement
    );
}

#[test]
fn policy_signer_mode_ignores_code() {
    assert_eq!(
        verify_ra_report(&vec![0x11u8; 32], &vec![0x99u8; 32], &signer_only_policy()),
        NodeAuthResult::Success
    );
}

#[test]
fn policy_exact_mode_accepts_known_pair() {
    assert_eq!(
        verify_ra_report(&vec![0x11u8; 32], &vec![0x22u8; 32], &exact_policy()),
        NodeAuthResult::Success
    );
}

#[test]
fn legacy_accepts_32_byte_key_verbatim() {
    let key: Vec<u8> = (0u8..32).collect();
    let mut out = vec![0u8; 32];
    let r = verify_attestation_epid(Ok(key.clone()), &mut out);
    assert_eq!(r, NodeAuthResult::Success);
    assert_eq!(out, key);
}

#[test]
fn legacy_rejects_short_and_long_keys() {
    for len in [0usize, 31, 33, 64] {
        let mut out = vec![7u8; 32];
        let r = verify_attestation_epid(Ok(vec![1u8; len]), &mut out);
        assert_eq!(r, NodeAuthResult::MalformedPublicKey);
        assert_eq!(out, vec![7u8; 32]);
    }
}

#[test]
fn legacy_propagates_collaborator_failure_verbatim() {
    let mut out = vec![7u8; 32];
    let r = verify_attestation_epid(Err(NodeAuthResult::InvalidCert), &mut out);
    assert_eq!(r, NodeAuthResult::InvalidCert);
    assert_eq!(out, vec![7u8; 32]);
}

#[test]
fn quote_failure_is_invalid_cert() {
    let mut out = vec![7u8; 32];
    let r = verify_attestation_dcap(None, &signer_only_policy(), &mut out);
    assert_eq!(r, NodeAuthResult::InvalidCert);
    assert_eq!(out, vec![7u8; 32]);
}

#[test]
fn quote_stale_collateral_still_succeeds() {
    let verdict = QuoteVerification { report: report(0x11, 0x22), collateral_fresh: false };
    let mut out = vec![0u8; 32];
    let r = verify_attestation_dcap(Some(verdict), &signer_only_policy(), &mut out);
    assert_eq!(r, NodeAuthResult::Success);
    // The channel key is the first 32 bytes of the report's user data.
    let expected: Vec<u8> = (0u8..32).collect();
    assert_eq!(out, expected);
}

#[test]
fn quote_fresh_and_stale_agree() {
    let policy = exact_policy();
    let mut fresh_key = vec![0u8; 32];
    let mut stale_key = vec![0u8; 32];
    let fresh = QuoteVerification { report: report(0x11, 0x22), collateral_fresh: true };
    let stale = QuoteVerification { report: report(0x11, 0x22), collateral_fresh: false };
    let r1 = verify_attestation_dcap(Some(fresh), &policy, &mut fresh_key);
    let r2 = verify_attestation_dcap(Some(stale), &policy, &mut stale_key);
    assert_eq!(r1, r2);
    assert_eq!(fresh_key, stale_key);
}

#[test]
fn quote_propagates_policy_rejection() {
    let verdict = QuoteVerification { report: report(0x66, 0x22), collateral_fresh: true };
    let mut out = vec![7u8; 32];
    let r = verify_attestation_dcap(Some(verdict), &signer_only_policy(), &mut out);
    assert_eq!(r, NodeAuthResult::UnrecognizedSigner);
    assert_eq!(out, vec![7u8; 32]);
}

#[test]
fn default_block_time_is_zero() {
    assert_eq!(get_current_block_time_s(), 0);
}
