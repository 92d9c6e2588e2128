//! Bundle decoder and attestation router.
//!
//! An attestation bundle is one untrusted byte buffer: a 12-byte header of
//! three little-endian `u32` section lengths, followed by that many bytes of
//! identity certificate, attestation quote and verification collateral, in
//! that order. Decoding is deliberately permissive: a buffer shorter than the
//! header, or one whose declared total overflows the buffer, decodes to three
//! empty sections, and only the router's inability to proceed reports an
//! error.

use vstd::prelude::*;

verus! {

/// Number of header bytes: three little-endian `u32` section lengths.
pub const HEADER_BYTES: usize = 12;

/// The unsigned 32-bit value read little-endian from `b` at offset `off`.
pub open spec fn le32_at(b: Seq<u8>, off: int) -> int {
    b[off] + b[off + 1] * 0x100 + b[off + 2] * 0x10000 + b[off + 3] * 0x1000000
}

/// Declared length of the identity-certificate section.
pub open spec fn cert_len(b: Seq<u8>) -> int {
    le32_at(b, 0)
}

/// Declared length of the attestation-quote section.
pub open spec fn quote_len(b: Seq<u8>) -> int {
    le32_at(b, 4)
}

/// Declared length of the verification-collateral section.
pub open spec fn collateral_len(b: Seq<u8>) -> int {
    le32_at(b, 8)
}

/// Total length the header declares: the header itself plus all three
/// sections.
pub open spec fn declared_total(b: Seq<u8>) -> int {
    HEADER_BYTES + cert_len(b) + quote_len(b) + collateral_len(b)
}

/// A bundle decodes to non-empty sections only when it holds a full header
/// and the declared total does not overflow the buffer.
pub open spec fn bundle_well_formed(b: Seq<u8>) -> bool {
    &&& b.len() >= HEADER_BYTES
    &&& declared_total(b) <= b.len()
}

/// The identity-certificate section of a bundle; empty when the bundle is
/// malformed.
pub open spec fn cert_section(b: Seq<u8>) -> Seq<u8> {
    if bundle_well_formed(b) {
        b.subrange(HEADER_BYTES as int, HEADER_BYTES + cert_len(b))
    } else {
        Seq::empty()
    }
}

/// The attestation-quote section of a bundle; empty when the bundle is
/// malformed.
pub open spec fn quote_section(b: Seq<u8>) -> Seq<u8> {
    if bundle_well_formed(b) {
        b.subrange(HEADER_BYTES + cert_len(b), HEADER_BYTES + cert_len(b) + quote_len(b))
    } else {
        Seq::empty()
    }
}

/// The verification-collateral section of a bundle; empty when the bundle is
/// malformed.
pub open spec fn collateral_section(b: Seq<u8>) -> Seq<u8> {
    if bundle_well_formed(b) {
        b.subrange(
            HEADER_BYTES + cert_len(b) + quote_len(b),
            HEADER_BYTES + cert_len(b) + quote_len(b) + collateral_len(b),
        )
    } else {
        Seq::empty()
    }
}

/// Reads the little-endian `u32` at offset `off`.
fn read_le32(b: &Vec<u8>, off: usize) -> (r: u32)
    requires
        off + 4 <= b@.len(),
    ensures
        r == le32_at(b@, off as int),
{
    let n = b.len();
    assert(off + 4 <= n);
    (b[off] as u32) + (b[off + 1] as u32) * 0x100 + (b[off + 2] as u32) * 0x10000 + (b[off + 3]
        as u32) * 0x1000000
}

/// Copies `len` bytes of `b` starting at `start` into an independently owned
/// buffer, so later processing never aliases the untrusted input.
fn copy_section(b: &Vec<u8>, start: usize, len: usize) -> (v: Vec<u8>)
    requires
        start + len <= b@.len(),
    ensures
        v@ == b@.subrange(start as int, start + len),
{
    let n = b.len();
    let mut v: Vec<u8> = Vec::new();
    let mut i: usize = 0;
    while i < len
        invariant
            start + len <= n == b@.len(),
            i <= len,
            v@ == b@.subrange(start as int, start + i),
        decreases len - i,
    {
        v.push(b[start + i]);
        assert(b@.subrange(start as int, start + i + 1) =~= b@.subrange(
            start as int,
            start + i,
        ).push(b@[start + i]));
        i = i + 1;
    }
    v
}

/// Splits one combined bundle buffer into its three sections: identity
/// certificate, attestation quote and verification collateral.
///
/// A buffer shorter than the 12-byte header, or whose declared section
/// lengths overflow the buffer, decodes to three empty sections: decoding
/// fails soft, never out of bounds. The declared total is computed in a
/// widened integer type, so no silent overflow precedes the bounds
/// comparison.
pub fn split_combined_cert(bundle: &Vec<u8>) -> (r: (Vec<u8>, Vec<u8>, Vec<u8>))
    ensures
        r.0@ == cert_section(bundle@),
        r.1@ == quote_section(bundle@),
        r.2@ == collateral_section(bundle@),
        !bundle_well_formed(bundle@) ==> r.0@.len() == 0 && r.1@.len() == 0 && r.2@.len() == 0,
{
    if bundle.len() < HEADER_BYTES {
        return (Vec::new(), Vec::new(), Vec::new());
    }
    let s0 = read_le32(bundle, 0);
    let s1 = read_le32(bundle, 4);
    let s2 = read_le32(bundle, 8);
    let total: u64 = HEADER_BYTES as u64 + s0 as u64 + s1 as u64 + s2 as u64;
    if total > bundle.len() as u64 {
        return (Vec::new(), Vec::new(), Vec::new());
    }
    let cert = copy_section(bundle, HEADER_BYTES, s0 as usize);
    let quote = copy_section(bundle, HEADER_BYTES + s0 as usize, s1 as usize);
    let collateral = copy_section(bundle, HEADER_BYTES + s0 as usize + s1 as usize, s2 as usize);
    (cert, quote, collateral)
}

/// The verification path a decoded bundle is routed to.
#[derive(Clone, Copy, Debug, PartialEq, Eq, Structural)]
pub enum Route {
    /// Current scheme: verify the hardware quote against the collateral.
    QuotePath,
    /// Fallback scheme: verify the self-contained signed certificate.
    LegacyPath,
    /// No attestation evidence was supplied.
    NoEvidence,
}

/// Routing rule: a bundle with a non-empty quote and non-empty collateral
/// always takes the quote path, even when a certificate section is also
/// present; the legacy path is strictly a fallback.
pub open spec fn route_spec(cert: Seq<u8>, quote: Seq<u8>, collateral: Seq<u8>) -> Route {
    if quote.len() > 0 && collateral.len() > 0 {
        Route::QuotePath
    } else if cert.len() > 0 {
        Route::LegacyPath
    } else {
        Route::NoEvidence
    }
}

/// Selects the verification path for three decoded sections.
pub fn route(cert: &Vec<u8>, quote: &Vec<u8>, collateral: &Vec<u8>) -> (r: Route)
    ensures
        r == route_spec(cert@, quote@, collateral@),
        quote@.len() > 0 && collateral@.len() > 0 ==> r == Route::QuotePath,
{
    if quote.len() > 0 && collateral.len() > 0 {
        Route::QuotePath
    } else if cert.len() > 0 {
        Route::LegacyPath
    } else {
        Route::NoEvidence
    }
}

} // verus!
