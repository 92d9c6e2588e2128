use node_admission::bundle::{route, split_combined_cert, Route};

fn bundle(cert: &[u8], quote: &[u8], collateral: &[u8]) -> Vec<u8> {
    let mut b = Vec::new();
    b.extend_from_slice(&(cert.len() as u32).to_le_bytes());
    b.extend_from_slice(&(quote.len() as u32).to_le_bytes());
    b.extend_from_slice(&(collateral.len() as u32).to_le_bytes());
    b.extend_from_slice(cert);
    b.extend_from_slice(quote);
    b.extend_from_slice(collateral);
    b
}

#[test]
fn empty_buffer_decodes_empty() {
    let (c, q, l) = split_combined_cert(&Vec::new());
    assert!(c.is_empty() && q.is_empty() && l.is_empty());
}

#[test]
fn buffers_shorter_than_header_decode_empty() {
    for len in 1..12 {
        let b = vec![0xFFu8; len];
        let (c, q, l) = split_combined_cert(&b);
        assert!(c.is_empty() && q.is_empty() && l.is_empty());
    }
}

#[test]
fn overflowing_declared_lengths_decode_empty() {
    // The header declares one byte more than the buffer holds.
    let mut b = bundle(&[1, 2, 3], &[4], &[5]);
    b.pop();
    let (c, q, l) = split_combined_cert(&b);
    assert!(c.is_empty() && q.is_empty() && l.is_empty());
}

#[test]
fn huge_declared_lengths_decode_empty() {
    // Three maximal section lengths would overflow any 32-bit total; the
    // widened comparison must still fail soft.
    let mut b = vec![0xFFu8; 12];
    b.extend_from_slice(&[1, 2, 3, 4]);
    let (c, q, l) = split_combined_cert(&b);
    assert!(c.is_empty() && q.is_empty() && l.is_empty());
}

#[test]
fn well_formed_bundle_decodes_sections() {
    let b = bundle(&[0xAA, 0xAB], &[0xB1, 0xB2, 0xB3], &[0xC1]);
    let (c, q, l) = split_combined_cert(&b);
    assert_eq!(c, vec![0xAA, 0xAB]);
    assert_eq!(q, vec![0xB1, 0xB2, 0xB3]);
    assert_eq!(l, vec![0xC1]);
}

#[test]
fn trailing_bytes_are_ignored() {
    let mut b = bundle(&[7], &[8], &[9]);
    b.extend_from_slice(&[0xDD, 0xEE]);
    let (c, q, l) = split_combined_cert(&b);
    assert_eq!(c, vec![7]);
    assert_eq!(q, vec![8]);
    assert_eq!(l, vec![9]);
}

#[test]
fn empty_sections_decode_empty() {
    let b = bundle(&[], &[], &[]);
    let (c, q, l) = split_combined_cert(&b);
    assert!(c.is_empty() && q.is_empty() && l.is_empty());
}

#[test]
fn route_prefers_quote_over_legacy() {
    let cert = vec![1u8];
    let quote = vec![2u8];
    let collateral = vec![3u8];
    assert_eq!(route(&cert, &quote, &collateral), Route::QuotePath);
}

#[test]
fn route_takes_legacy_without_collateral() {
    let cert = vec![1u8];
    let quote = vec![2u8];
    assert_eq!(route(&cert, &quote, &Vec::new()), Route::LegacyPath);
    assert_eq!(route(&cert, &Vec::new(), &vec![3u8]), Route::LegacyPath);
    assert_eq!(route(&cert, &Vec::new(), &Vec::new()), Route::LegacyPath);
}

#[test]
fn route_reports_no_evidence() {
    assert_eq!(route(&Vec::new(), &Vec::new(), &Vec::new()), Route::NoEvidence);
    assert_eq!(route(&Vec::new(), &vec![2u8], &Vec::new()), Route::NoEvidence);
    assert_eq!(route(&Vec::new(), &Vec::new(), &vec![3u8]), Route::NoEvidence);
}
