//! Secret release.
//!
//! On a successful verification the cluster shares one secret per seed
//! variant with the admitted node, each encrypted by the seed-encryption
//! collaborator under a key derived from the verified channel public key.
//! This module decides what becomes of the collaborator's answers: the two
//! encrypted payloads are concatenated — genesis first, current second — and
//! accepted only when the concatenation exactly fills the caller's output
//! buffer; any failure collapses to a single outcome and releases nothing.

use crate::outcome::NodeAuthResult;
use vstd::prelude::*;

verus! {

/// The secret classes the cluster shares with an admitted node.
#[derive(Clone, Copy, Debug, PartialEq, Eq, Structural)]
pub enum SeedType {
    /// The genesis-epoch secret.
    Genesis,
    /// The current-epoch secret.
    Current,
}

/// How the secret-release phase ended on the host side.
#[derive(Clone, Debug, PartialEq, Eq)]
pub enum SeedsOutcome {
    /// Both variants were encrypted, in the fixed order genesis, current.
    Encrypted { genesis: Vec<u8>, current: Vec<u8> },
    /// Encrypting `variant` failed, or that variant's secret was absent. The
    /// distinction is kept internally; the public result collapses both.
    Failed { variant: SeedType },
    /// Secret release panicked and the panic was contained at the boundary.
    Panicked,
}

/// Mathematical model of a [`SeedsOutcome`].
pub enum SeedsOutcomeModel {
    Encrypted { genesis: Seq<u8>, current: Seq<u8> },
    Failed { variant: SeedType },
    Panicked,
}

impl View for SeedsOutcome {
    type V = SeedsOutcomeModel;

    open spec fn view(&self) -> SeedsOutcomeModel {
        match self {
            SeedsOutcome::Encrypted { genesis, current } => SeedsOutcomeModel::Encrypted {
                genesis: genesis@,
                current: current@,
            },
            SeedsOutcome::Failed { variant } => SeedsOutcomeModel::Failed { variant: *variant },
            SeedsOutcome::Panicked => SeedsOutcomeModel::Panicked,
        }
    }
}

/// What the admission call will return for a secret-release outcome: the
/// full payload — genesis immediately followed by current — when it exactly
/// fills the output buffer, the collapsed encryption failure otherwise, and
/// the contained-panic outcome for a panic.
pub open spec fn seeds_pending(outcome: SeedsOutcomeModel, out_len: int) -> Result<
    Seq<u8>,
    NodeAuthResult,
> {
    match outcome {
        SeedsOutcomeModel::Encrypted { genesis, current } => if genesis.len() + current.len()
            == out_len {
            Ok(genesis + current)
        } else {
            Err(NodeAuthResult::SeedEncryptionFailed)
        },
        SeedsOutcomeModel::Failed { .. } => Err(NodeAuthResult::SeedEncryptionFailed),
        SeedsOutcomeModel::Panicked => Err(NodeAuthResult::Panic),
    }
}

/// Concatenates the two encrypted seed payloads — genesis first, current
/// second — and yields the concatenation only when it exactly matches the
/// output buffer's length.
pub fn assemble_seed_payload(genesis: Vec<u8>, current: &Vec<u8>, out_len: usize) -> (r: Option<
    Vec<u8>,
>)
    ensures
        genesis@.len() + current@.len() == out_len ==> (r matches Some(p) && p@ == genesis@
            + current@),
        genesis@.len() + current@.len() != out_len ==> r is None,
{
    let genesis_len = genesis.len();
    let current_len = current.len();
    if genesis_len > out_len || current_len != out_len - genesis_len {
        return None;
    }
    let mut payload = genesis;
    let mut i: usize = 0;
    while i < current_len
        invariant
            current_len == current@.len(),
            i <= current_len,
            payload@ == genesis@ + current@.subrange(0, i as int),
        decreases current_len - i,
    {
        payload.push(current[i]);
        assert(genesis@ + current@.subrange(0, i + 1) =~= (genesis@ + current@.subrange(
            0,
            i as int,
        )).push(current@[i as int]));
        i = i + 1;
    }
    assert(payload@ =~= genesis@ + current@);
    Some(payload)
}

} // verus!
