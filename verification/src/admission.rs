//! Admission orchestrator.
//!
//! One admission call is a run of a state machine. Every decision — input
//! validation, decoding, routing, the defensive key checks, the trust policy
//! check and the assembly of the released payload — is made here, verified.
//! The work only the host can do (registering and restoring the process-wide
//! out-of-memory safety margin, the consensus block check, certificate and
//! quote validation, seed encryption, panic containment around secret
//! release) is requested through an [`Action`]; the host performs it and
//! hands the outcome back as an [`Event`].
//!
//! The safety margin is handled as a scoped acquisition: every path that
//! leaves a successfully registered margin — success, failure or contained
//! panic — passes through [`AdmissionState::Restoring`] before it reaches
//! [`AdmissionState::Done`], so the margin is released on every exit.

use crate::attestation::{
    default_block_time_s, epid_verdict, get_current_block_time_s, verify_attestation_dcap,
    verify_attestation_epid, QuoteVerification, QuoteVerificationModel, PUBLIC_KEY_SIZE,
};
use crate::bundle::{
    cert_section, collateral_section, quote_section, route, route_spec, split_combined_cert, Route,
};
use crate::outcome::NodeAuthResult;
use crate::policy::{policy_verdict, TrustPolicy, TrustPolicyModel};
use crate::seed::{assemble_seed_payload, seeds_pending, SeedsOutcome, SeedsOutcomeModel};
use vstd::prelude::*;

verus! {

/// Everything one admission call is given up front: the untrusted bundle,
/// the length of the caller's output buffer, the trust policy, and whether
/// live-chain validation is configured.
#[derive(Clone, Debug, PartialEq, Eq)]
pub struct AdmissionConfig {
    pub bundle: Vec<u8>,
    pub out_len: usize,
    pub policy: TrustPolicy,
    pub live_validation: bool,
}

/// Mathematical model of an [`AdmissionConfig`].
pub struct AdmissionConfigModel {
    pub bundle: Seq<u8>,
    pub out_len: int,
    pub policy: TrustPolicyModel,
    pub live_validation: bool,
}

impl View for AdmissionConfig {
    type V = AdmissionConfigModel;

    open spec fn view(&self) -> AdmissionConfigModel {
        AdmissionConfigModel {
            bundle: self.bundle@,
            out_len: self.out_len as int,
            policy: self.policy@,
            live_validation: self.live_validation,
        }
    }
}

/// Where one admission call stands between two host interactions.
#[derive(Debug, PartialEq, Eq)]
pub enum AdmissionState {
    /// Waiting for the safety margin to be registered.
    Registering,
    /// Waiting for the consensus block check of the bundle.
    CheckingBlock,
    /// Waiting for the certificate validator's answer.
    AwaitingLegacy,
    /// Waiting for the quote validator's answer.
    AwaitingQuote,
    /// Waiting for the secret-release phase to finish.
    AwaitingSeeds,
    /// Waiting for the safety margin to be restored; `pending` is the
    /// payload to release, or the failure to report, once it is.
    Restoring { pending: Result<Vec<u8>, NodeAuthResult> },
    /// The call is over: `result` is the one outcome, and `payload` is the
    /// full output buffer's contents exactly when `result` is success.
    Done { result: NodeAuthResult, payload: Option<Vec<u8>> },
}

/// Mathematical model of an [`AdmissionState`].
pub enum AdmissionStateModel {
    Registering,
    CheckingBlock,
    AwaitingLegacy,
    AwaitingQuote,
    AwaitingSeeds,
    Restoring { pending: Result<Seq<u8>, NodeAuthResult> },
    Done { result: NodeAuthResult, payload: Option<Seq<u8>> },
}

impl View for AdmissionState {
    type V = AdmissionStateModel;

    open spec fn view(&self) -> AdmissionStateModel {
        match self {
            AdmissionState::Registering => AdmissionStateModel::Registering,
            AdmissionState::CheckingBlock => AdmissionStateModel::CheckingBlock,
            AdmissionState::AwaitingLegacy => AdmissionStateModel::AwaitingLegacy,
            AdmissionState::AwaitingQuote => AdmissionStateModel::AwaitingQuote,
            AdmissionState::AwaitingSeeds => AdmissionStateModel::AwaitingSeeds,
            AdmissionState::Restoring { pending } => AdmissionStateModel::Restoring {
                pending: match pending {
                    Ok(p) => Ok(p@),
                    Err(e) => Err(*e),
                },
            },
            AdmissionState::Done { result, payload } => AdmissionStateModel::Done {
                result: *result,
                payload: match payload {
                    Some(p) => Some(p@),
                    None => None,
                },
            },
        }
    }
}

/// What the host must do next.
#[derive(Clone, Debug, PartialEq, Eq)]
pub enum Action {
    /// Register the process-wide out-of-memory safety margin.
    RegisterOomMargin,
    /// Check that the bundle is registered in the current verified block.
    CheckBundleInBlock,
    /// Hand the certificate section to the certificate validator.
    ValidateLegacyCert { cert: Vec<u8> },
    /// Hand quote, collateral and trusted timestamp to the quote validator.
    VerifyQuote { quote: Vec<u8>, collateral: Vec<u8>, time_s: i64 },
    /// Encrypt the genesis and then the current seed under `public_key`,
    /// inside a panic-containment boundary.
    EncryptSeeds { public_key: Vec<u8> },
    /// Restore the safety margin registered at the start of the call.
    RestoreOomMargin,
    /// Terminal, after a contained panic: clear the process-wide
    /// out-of-memory flag.
    ClearOomFlag,
    /// Terminal: nothing is left to do.
    Idle,
}

/// Mathematical model of an [`Action`].
pub enum ActionModel {
    RegisterOomMargin,
    CheckBundleInBlock,
    ValidateLegacyCert { cert: Seq<u8> },
    VerifyQuote { quote: Seq<u8>, collateral: Seq<u8>, time_s: int },
    EncryptSeeds { public_key: Seq<u8> },
    RestoreOomMargin,
    ClearOomFlag,
    Idle,
}

impl View for Action {
    type V = ActionModel;

    open spec fn view(&self) -> ActionModel {
        match self {
            Action::RegisterOomMargin => ActionModel::RegisterOomMargin,
            Action::CheckBundleInBlock => ActionModel::CheckBundleInBlock,
            Action::ValidateLegacyCert { cert } => ActionModel::ValidateLegacyCert {
                cert: cert@,
            },
            Action::VerifyQuote { quote, collateral, time_s } => ActionModel::VerifyQuote {
                quote: quote@,
                collateral: collateral@,
                time_s: *time_s as int,
            },
            Action::EncryptSeeds { public_key } => ActionModel::EncryptSeeds {
                public_key: public_key@,
            },
            Action::RestoreOomMargin => ActionModel::RestoreOomMargin,
            Action::ClearOomFlag => ActionModel::ClearOomFlag,
            Action::Idle => ActionModel::Idle,
        }
    }
}

/// What the host hands back after performing an [`Action`].
#[derive(Debug, PartialEq, Eq)]
pub enum Event {
    /// Whether the safety margin was registered.
    MarginRegistered { ok: bool },
    /// Whether the bundle is in the current block, and the consensus time.
    BlockChecked { in_block: bool, block_time_s: i64 },
    /// The certificate validator's answer: a channel key candidate, or the
    /// admission outcome to propagate verbatim.
    LegacyChecked { verdict: Result<Vec<u8>, NodeAuthResult> },
    /// The quote validator's answer: the verified report and the collateral
    /// freshness, or `None` when the signature chain failed to verify.
    QuoteChecked { verdict: Option<QuoteVerification> },
    /// How the secret-release phase ended.
    SeedsDone { outcome: SeedsOutcome },
    /// Whether the safety margin was restored.
    MarginRestored { ok: bool },
}

/// Mathematical model of an [`Event`].
pub enum EventModel {
    MarginRegistered { ok: bool },
    BlockChecked { in_block: bool, block_time_s: int },
    LegacyChecked { verdict: Result<Seq<u8>, NodeAuthResult> },
    QuoteChecked { verdict: Option<QuoteVerificationModel> },
    SeedsDone { outcome: SeedsOutcomeModel },
    MarginRestored { ok: bool },
}

impl View for Event {
    type V = EventModel;

    open spec fn view(&self) -> EventModel {
        match self {
            Event::MarginRegistered { ok } => EventModel::MarginRegistered { ok: *ok },
            Event::BlockChecked { in_block, block_time_s } => EventModel::BlockChecked {
                in_block: *in_block,
                block_time_s: *block_time_s as int,
            },
            Event::LegacyChecked { verdict } => EventModel::LegacyChecked {
                verdict: match verdict {
                    Ok(pk) => Ok(pk@),
                    Err(e) => Err(*e),
                },
            },
            Event::QuoteChecked { verdict } => EventModel::QuoteChecked {
                verdict: match verdict {
                    Some(v) => Some(v@),
                    None => None,
                },
            },
            Event::SeedsDone { outcome } => EventModel::SeedsDone { outcome: outcome@ },
            Event::MarginRestored { ok } => EventModel::MarginRestored { ok: *ok },
        }
    }
}

/// The all-zero channel key a verification path starts from; it leaves the
/// machine only when the certificate validator reports a failure outcome
/// that reads as success, which the routing only tests against success.
pub open spec fn zero_key() -> Seq<u8> {
    Seq::new(PUBLIC_KEY_SIZE as nat, |i: int| 0u8)
}

/// Pointer/length sanity of what crossed the trusted boundary: both buffers
/// non-empty, and the bundle no longer than its 32-bit length field can say.
pub open spec fn input_ok(cfg: AdmissionConfigModel) -> bool {
    &&& cfg.bundle.len() > 0
    &&& cfg.bundle.len() <= u32::MAX
    &&& cfg.out_len > 0
}

/// Which event a state is waiting for.
pub open spec fn accepts(state: AdmissionStateModel, event: EventModel) -> bool {
    match (state, event) {
        (AdmissionStateModel::Registering, EventModel::MarginRegistered { .. }) => true,
        (AdmissionStateModel::CheckingBlock, EventModel::BlockChecked { .. }) => true,
        (AdmissionStateModel::AwaitingLegacy, EventModel::LegacyChecked { .. }) => true,
        (AdmissionStateModel::AwaitingQuote, EventModel::QuoteChecked { .. }) => true,
        (AdmissionStateModel::AwaitingSeeds, EventModel::SeedsDone { .. }) => true,
        (AdmissionStateModel::Restoring { .. }, EventModel::MarginRestored { .. }) => true,
        _ => false,
    }
}

/// What the collaborators' answers are held to: a report body has the field
/// sizes the hardware fixes.
pub open spec fn event_wf(event: EventModel) -> bool {
    match event {
        EventModel::QuoteChecked { verdict } => verdict matches Some(v) ==> v.report.wf(),
        _ => true,
    }
}

/// Decode and route: where a validated bundle sends the machine. A bundle
/// with a non-empty quote and collateral always takes the quote path; a
/// non-empty certificate section alone takes the legacy path; with no
/// evidence at all the call fails without either verifier being invoked.
pub open spec fn routed(cfg: AdmissionConfigModel, time_s: int) -> (AdmissionStateModel, ActionModel) {
    let cert = cert_section(cfg.bundle);
    let quote = quote_section(cfg.bundle);
    let collateral = collateral_section(cfg.bundle);
    match route_spec(cert, quote, collateral) {
        Route::QuotePath => (
            AdmissionStateModel::AwaitingQuote,
            ActionModel::VerifyQuote { quote, collateral, time_s },
        ),
        Route::LegacyPath => (
            AdmissionStateModel::AwaitingLegacy,
            ActionModel::ValidateLegacyCert { cert },
        ),
        Route::NoEvidence => (
            AdmissionStateModel::Restoring { pending: Err(NodeAuthResult::InvalidCert) },
            ActionModel::RestoreOomMargin,
        ),
    }
}

/// The transition relation of the admission machine: the next state and the
/// next action for a state and the event it was waiting for. A pair the
/// state was not waiting for changes nothing.
pub open spec fn next_model(
    cfg: AdmissionConfigModel,
    state: AdmissionStateModel,
    event: EventModel,
) -> (AdmissionStateModel, ActionModel) {
    match (state, event) {
        (AdmissionStateModel::Registering, EventModel::MarginRegistered { ok }) => {
            if !ok {
                (
                    AdmissionStateModel::Done {
                        result: NodeAuthResult::MemorySafetyAllocationError,
                        payload: None,
                    },
                    ActionModel::Idle,
                )
            } else if !input_ok(cfg) {
                (
                    AdmissionStateModel::Restoring { pending: Err(NodeAuthResult::InvalidInput) },
                    ActionModel::RestoreOomMargin,
                )
            } else if cfg.live_validation {
                (AdmissionStateModel::CheckingBlock, ActionModel::CheckBundleInBlock)
            } else {
                routed(cfg, default_block_time_s())
            }
        },
        (AdmissionStateModel::CheckingBlock, EventModel::BlockChecked { in_block, block_time_s }) => {
            if !in_block {
                (
                    AdmissionStateModel::Restoring {
                        pending: Err(NodeAuthResult::SignatureInvalid),
                    },
                    ActionModel::RestoreOomMargin,
                )
            } else {
                routed(cfg, block_time_s)
            }
        },
        (AdmissionStateModel::AwaitingLegacy, EventModel::LegacyChecked { verdict }) => {
            let r = epid_verdict(verdict);
            if r != NodeAuthResult::Success {
                (
                    AdmissionStateModel::Restoring { pending: Err(r) },
                    ActionModel::RestoreOomMargin,
                )
            } else {
                (
                    AdmissionStateModel::AwaitingSeeds,
                    ActionModel::EncryptSeeds {
                        public_key: match verdict {
                            Ok(pk) => pk,
                            Err(_) => zero_key(),
                        },
                    },
                )
            }
        },
        (AdmissionStateModel::AwaitingQuote, EventModel::QuoteChecked { verdict }) => {
            match verdict {
                None => (
                    AdmissionStateModel::Restoring { pending: Err(NodeAuthResult::InvalidCert) },
                    ActionModel::RestoreOomMargin,
                ),
                Some(v) => {
                    let r = policy_verdict(cfg.policy, v.report.mr_signer, v.report.mr_enclave);
                    if r != NodeAuthResult::Success {
                        (
                            AdmissionStateModel::Restoring { pending: Err(r) },
                            ActionModel::RestoreOomMargin,
                        )
                    } else {
                        (
                            AdmissionStateModel::AwaitingSeeds,
                            ActionModel::EncryptSeeds {
                                public_key: v.report.report_data.subrange(
                                    0,
                                    PUBLIC_KEY_SIZE as int,
                                ),
                            },
                        )
                    }
                },
            }
        },
        (AdmissionStateModel::AwaitingSeeds, EventModel::SeedsDone { outcome }) => (
            AdmissionStateModel::Restoring { pending: seeds_pending(outcome, cfg.out_len) },
            ActionModel::RestoreOomMargin,
        ),
        (AdmissionStateModel::Restoring { pending }, EventModel::MarginRestored { ok }) => {
            if !ok {
                (
                    AdmissionStateModel::Done {
                        result: NodeAuthResult::MemorySafetyAllocationError,
                        payload: None,
                    },
                    ActionModel::Idle,
                )
            } else {
                match pending {
                    Ok(payload) => (
                        AdmissionStateModel::Done {
                            result: NodeAuthResult::Success,
                            payload: Some(payload),
                        },
                        ActionModel::Idle,
                    ),
                    Err(e) => (
                        AdmissionStateModel::Done { result: e, payload: None },
                        if e == NodeAuthResult::Panic {
                            ActionModel::ClearOomFlag
                        } else {
                            ActionModel::Idle
                        },
                    ),
                }
            }
        },
        _ => (state, ActionModel::Idle),
    }
}

/// Fills a fresh all-zero channel key buffer.
fn zero_public_key() -> (r: Vec<u8>)
    ensures
        r@ == zero_key(),
{
    let mut v: Vec<u8> = Vec::new();
    let mut i: usize = 0;
    while i < PUBLIC_KEY_SIZE
        invariant
            i <= PUBLIC_KEY_SIZE,
            v@ == zero_key().subrange(0, i as int),
        decreases PUBLIC_KEY_SIZE - i,
    {
        v.push(0u8);
        assert(zero_key().subrange(0, i + 1) =~= zero_key().subrange(0, i as int).push(0u8));
        i = i + 1;
    }
    assert(v@ =~= zero_key());
    v
}

/// Decodes the bundle and routes it to a verification path.
fn route_bundle(cfg: &AdmissionConfig, time_s: i64) -> (r: (AdmissionState, Action))
    ensures
        (r.0@, r.1@) == routed(cfg@, time_s as int),
{
    let (cert, quote, collateral) = split_combined_cert(&cfg.bundle);
    match route(&cert, &quote, &collateral) {
        Route::QuotePath => (
            AdmissionState::AwaitingQuote,
            Action::VerifyQuote { quote, collateral, time_s },
        ),
        Route::LegacyPath => (AdmissionState::AwaitingLegacy, Action::ValidateLegacyCert { cert }),
        Route::NoEvidence => (
            AdmissionState::Restoring { pending: Err(NodeAuthResult::InvalidCert) },
            Action::RestoreOomMargin,
        ),
    }
}

/// Begins one admission call: the machine's first demand on the host is to
/// register the out-of-memory safety margin.
pub fn admission_start() -> (r: (AdmissionState, Action))
    ensures
        r.0@ == AdmissionStateModel::Registering,
        r.1@ == ActionModel::RegisterOomMargin,
{
    (AdmissionState::Registering, Action::RegisterOomMargin)
}

/// Advances one admission call by one host interaction. The result is
/// exactly [`next_model`] of the inputs: the machine is deterministic, so
/// the same bundle and the same collaborator answers always take the same
/// path to the same outcome.
pub fn admission_step(cfg: &AdmissionConfig, state: AdmissionState, event: Event) -> (r: (
    AdmissionState,
    Action,
))
    requires
        accepts(state@, event@),
        event_wf(event@),
    ensures
        (r.0@, r.1@) == next_model(cfg@, state@, event@),
{
    match (state, event) {
        (AdmissionState::Registering, Event::MarginRegistered { ok }) => {
            if !ok {
                (
                    AdmissionState::Done {
                        result: NodeAuthResult::MemorySafetyAllocationError,
                        payload: None,
                    },
                    Action::Idle,
                )
            } else {
                let bundle_len = cfg.bundle.len();
                if bundle_len == 0 || bundle_len > u32::MAX as usize || cfg.out_len == 0 {
                    (
                        AdmissionState::Restoring {
                            pending: Err(NodeAuthResult::InvalidInput),
                        },
                        Action::RestoreOomMargin,
                    )
                } else if cfg.live_validation {
                    (AdmissionState::CheckingBlock, Action::CheckBundleInBlock)
                } else {
                    route_bundle(cfg, get_current_block_time_s())
                }
            }
        },
        (AdmissionState::CheckingBlock, Event::BlockChecked { in_block, block_time_s }) => {
            if !in_block {
                (
                    AdmissionState::Restoring { pending: Err(NodeAuthResult::SignatureInvalid) },
                    Action::RestoreOomMargin,
                )
            } else {
                route_bundle(cfg, block_time_s)
            }
        },
        (AdmissionState::AwaitingLegacy, Event::LegacyChecked { verdict }) => {
            let mut key = zero_public_key();
            let r = verify_attestation_epid(verdict, &mut key);
            if r != NodeAuthResult::Success {
                (AdmissionState::Restoring { pending: Err(r) }, Action::RestoreOomMargin)
            } else {
                (AdmissionState::AwaitingSeeds, Action::EncryptSeeds { public_key: key })
            }
        },
        (AdmissionState::AwaitingQuote, Event::QuoteChecked { verdict }) => {
            let mut key = zero_public_key();
            let r = verify_attestation_dcap(verdict, &cfg.policy, &mut key);
            if r != NodeAuthResult::Success {
                (AdmissionState::Restoring { pending: Err(r) }, Action::RestoreOomMargin)
            } else {
                (AdmissionState::AwaitingSeeds, Action::EncryptSeeds { public_key: key })
            }
        },
        (AdmissionState::AwaitingSeeds, Event::SeedsDone { outcome }) => {
            let pending: Result<Vec<u8>, NodeAuthResult> = match outcome {
                SeedsOutcome::Encrypted { genesis, current } => {
                    match assemble_seed_payload(genesis, &current, cfg.out_len) {
                        Some(p) => Ok(p),
                        None => Err(NodeAuthResult::SeedEncryptionFailed),
                    }
                },
                SeedsOutcome::Failed { variant: _ } => Err(NodeAuthResult::SeedEncryptionFailed),
                SeedsOutcome::Panicked => Err(NodeAuthResult::Panic),
            };
            (AdmissionState::Restoring { pending }, Action::RestoreOomMargin)
        },
        (AdmissionState::Restoring { pending }, Event::MarginRestored { ok }) => {
            if !ok {
                (
                    AdmissionState::Done {
                        result: NodeAuthResult::MemorySafetyAllocationError,
                        payload: None,
                    },
                    Action::Idle,
                )
            } else {
                match pending {
                    Ok(payload) => (
                        AdmissionState::Done {
                            result: NodeAuthResult::Success,
                            payload: Some(payload),
                        },
                        Action::Idle,
                    ),
                    Err(e) => {
                        let action = if e == NodeAuthResult::Panic {
                            Action::ClearOomFlag
                        } else {
                            Action::Idle
                        };
                        (AdmissionState::Done { result: e, payload: None }, action)
                    },
                }
            }
        },
        (other_state, _) => (other_state, Action::Idle),
    }
}

/// The state an admission run reaches from the start state after a sequence
/// of events.
pub open spec fn run_model(cfg: AdmissionConfigModel, events: Seq<EventModel>) -> AdmissionStateModel
    decreases events.len(),
{
    if events.len() == 0 {
        AdmissionStateModel::Registering
    } else {
        next_model(cfg, run_model(cfg, events.drop_last()), events.last()).0
    }
}

/// A failure outcome carried toward the caller never reads as success.
pub open spec fn pending_ok(pending: Result<Seq<u8>, NodeAuthResult>) -> bool {
    pending matches Err(e) ==> e != NodeAuthResult::Success
}

/// A finished call releases a payload exactly when it reports success: no
/// partial success, and nothing released on failure.
pub open spec fn done_consistent(state: AdmissionStateModel) -> bool {
    state matches AdmissionStateModel::Done { result, payload } ==> ((result
        == NodeAuthResult::Success) <==> payload is Some)
}

/// Invariant of every reachable state.
pub open spec fn state_inv(state: AdmissionStateModel) -> bool {
    &&& (state matches AdmissionStateModel::Restoring { pending } ==> pending_ok(pending))
    &&& done_consistent(state)
}

/// Law: one transition preserves the state invariant.
pub proof fn lemma_next_preserves_inv(
    cfg: AdmissionConfigModel,
    state: AdmissionStateModel,
    event: EventModel,
)
    requires
        state_inv(state),
    ensures
        state_inv(next_model(cfg, state, event).0),
{
}

/// Law: every state an admission run can reach satisfies the invariant; in
/// particular a finished run never reports success without the payload, nor
/// a failure with one.
pub proof fn lemma_run_consistent(cfg: AdmissionConfigModel, events: Seq<EventModel>)
    ensures
        state_inv(run_model(cfg, events)),
        done_consistent(run_model(cfg, events)),
    decreases events.len(),
{
    if events.len() > 0 {
        lemma_run_consistent(cfg, events.drop_last());
        lemma_next_preserves_inv(cfg, run_model(cfg, events.drop_last()), events.last());
    }
}

/// Law: the admission machine is a function of the bundle and the
/// collaborator answers alone. Two runs over the same configuration and the
/// same events end in the same state.
pub proof fn lemma_same_inputs_same_outcome(
    cfg1: AdmissionConfigModel,
    cfg2: AdmissionConfigModel,
    events1: Seq<EventModel>,
    events2: Seq<EventModel>,
)
    requires
        cfg1 == cfg2,
        events1 == events2,
    ensures
        run_model(cfg1, events1) == run_model(cfg2, events2),
{
}

/// Law: a bundle that decodes to three empty sections is never routed to
/// either verifier — the machine goes straight to margin restoration — and
/// the finished call reports exactly the no-valid-attestation failure.
pub proof fn lemma_no_evidence_rejected(cfg: AdmissionConfigModel, time_s: int)
    requires
        cert_section(cfg.bundle).len() == 0,
        quote_section(cfg.bundle).len() == 0,
        collateral_section(cfg.bundle).len() == 0,
    ensures
        routed(cfg, time_s).0 == (AdmissionStateModel::Restoring {
            pending: Err::<Seq<u8>, NodeAuthResult>(NodeAuthResult::InvalidCert),
        }),
        routed(cfg, time_s).1 == ActionModel::RestoreOomMargin,
        next_model(cfg, routed(cfg, time_s).0, EventModel::MarginRestored { ok: true }).0 == (
        AdmissionStateModel::Done {
            result: NodeAuthResult::InvalidCert,
            payload: None::<Seq<u8>>,
        }),
{
}

/// Law: a bundle with a non-empty quote and a non-empty collateral always
/// takes the quote path — the legacy verifier is never invoked for it, even
/// when a certificate section is also present.
pub proof fn lemma_quote_path_precedence(cfg: AdmissionConfigModel, time_s: int)
    requires
        quote_section(cfg.bundle).len() > 0,
        collateral_section(cfg.bundle).len() > 0,
    ensures
        routed(cfg, time_s).0 is AwaitingQuote,
        routed(cfg, time_s).1 == (ActionModel::VerifyQuote {
            quote: quote_section(cfg.bundle),
            collateral: collateral_section(cfg.bundle),
            time_s,
        }),
{
}

/// Law: when both seed variants encrypt and together exactly fill the output
/// buffer, the finished call releases the genesis payload immediately
/// followed by the current payload, and reports success.
pub proof fn lemma_success_payload_layout(
    cfg: AdmissionConfigModel,
    genesis: Seq<u8>,
    current: Seq<u8>,
)
    requires
        genesis.len() + current.len() == cfg.out_len,
    ensures
        ({
            let (restoring, _) = next_model(
                cfg,
                AdmissionStateModel::AwaitingSeeds,
                EventModel::SeedsDone {
                    outcome: SeedsOutcomeModel::Encrypted { genesis, current },
                },
            );
            let (done, _) = next_model(cfg, restoring, EventModel::MarginRestored { ok: true });
            done == (AdmissionStateModel::Done {
                result: NodeAuthResult::Success,
                payload: Some(genesis + current),
            })
        }),
{
}

/// Law: when either seed variant fails to encrypt, the finished call reports
/// the collapsed encryption failure and releases nothing.
pub proof fn lemma_encryption_failure_releases_nothing(
    cfg: AdmissionConfigModel,
    outcome: SeedsOutcomeModel,
)
    requires
        outcome matches SeedsOutcomeModel::Failed { .. },
    ensures
        ({
            let (restoring, _) = next_model(
                cfg,
                AdmissionStateModel::AwaitingSeeds,
                EventModel::SeedsDone { outcome },
            );
            let (done, _) = next_model(cfg, restoring, EventModel::MarginRestored { ok: true });
            done == (AdmissionStateModel::Done {
                result: NodeAuthResult::SeedEncryptionFailed,
                payload: None::<Seq<u8>>,
            })
        }),
{
}

} // verus!
