//! Node-admission gate of a confidential-computing cluster.
//!
//! Before a new worker node is trusted with the cluster's shared secret
//! material it must prove, through hardware-backed remote attestation, that it
//! runs genuine trusted code. This library holds the verified core of that
//! gate: decoding the untrusted attestation bundle, routing it to one of two
//! verification paths, checking the attested software identity against a
//! trust policy, extracting the node's channel public key, and gating the
//! release of the encrypted cluster seeds behind a successful verification.
//!
//! The cryptographic collaborators (certificate validation, quote-chain
//! verification, seed encryption, the out-of-memory safety margin and the
//! consensus time source) live outside this library. The admission
//! orchestrator is therefore a state machine: every decision is made here,
//! while the host performs each requested [`admission::Action`] and hands the
//! outcome back as an [`admission::Event`].

pub mod admission;
pub mod attestation;
pub mod bundle;
pub mod outcome;
pub mod policy;
pub mod seed;
