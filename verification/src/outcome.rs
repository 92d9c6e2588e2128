use vstd::prelude::*;

verus! {

/// Outcome of one admission call: either `Success`, or exactly one of a
/// closed set of failure kinds. This is the only channel through which
/// caller-visible failure information flows.
#[derive(Clone, Copy, Debug, PartialEq, Eq, Structural)]
pub enum NodeAuthResult {
    /// The node was verified and the encrypted seed payload was produced.
    Success,
    /// No valid attestation evidence, or the quote chain failed to verify.
    InvalidCert,
    /// The caller handed an empty or oversized buffer across the boundary.
    InvalidInput,
    /// The certificate validator returned a channel key of the wrong size.
    MalformedPublicKey,
    /// The bundle is not registered in the current verified block.
    SignatureInvalid,
    /// The attested signer measurement is outside the accepted set.
    UnrecognizedSigner,
    /// The attested code measurement is outside the accepted set.
    UnrecognizedCodeMeasurement,
    /// Encrypting a seed variant failed, or a variant was absent.
    SeedEncryptionFailed,
    /// The out-of-memory safety margin could not be registered or restored.
    MemorySafetyAllocationError,
    /// Secret release panicked; the panic was contained at the boundary.
    Panic,
}

} // verus!
