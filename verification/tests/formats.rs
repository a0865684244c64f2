use executor::bytes::{be_u16_at, be_u32_at, be_u64_at, bytes_eq_prefix, read_fixed};
use executor::quote::{parse_signed_quote_min, quote_is_expired, SIGNED_QUOTE_PREFIX};
use executor::request::{parse_request_min, REQ_EXEC_PREFIX};
use executor::ExecError;
use soroban_sdk::testutils::EnvTestConfig;
use soroban_sdk::{Bytes, Env};

fn new_env() -> Env {
    Env::new_with_config(EnvTestConfig {
        capture_snapshot_at_drop: false,
    })
}

/// `EQ01`, then the bytes 4, 5, 6 and so on.
fn counting_quote(env: &Env, len: usize) -> Bytes {
    let mut raw: Vec<u8> = (0..len).map(|i| i as u8).collect();
    raw[..4].copy_from_slice(b"EQ01");
    Bytes::from_slice(env, &raw)
}

#[test]
fn prefixes() {
    assert_eq!(&SIGNED_QUOTE_PREFIX, b"EQ01");
    assert_eq!(&REQ_EXEC_PREFIX, b"ERV1");
}

#[test]
fn prefix_comparison() {
    let env = new_env();
    let b = Bytes::from_array(&env, &[1u8, 2, 3, 4]);
    assert!(bytes_eq_prefix(&b, 0, &[1, 2]));
    assert!(bytes_eq_prefix(&b, 2, &[3, 4]));
    assert!(bytes_eq_prefix(&b, 0, &[1, 2, 3, 4]));
    assert!(bytes_eq_prefix(&b, 4, &[]));
    assert!(!bytes_eq_prefix(&b, 0, &[1, 3]));
    assert!(!bytes_eq_prefix(&b, 3, &[4, 5]));
    assert!(!bytes_eq_prefix(&b, 5, &[]));
}

#[test]
fn fixed_width_fields() {
    let env = new_env();
    let b = Bytes::from_array(&env, &[0u8, 1, 2, 3, 4, 5, 6, 7, 8, 9]);
    assert_eq!(read_fixed::<3>(&b, 4), [4, 5, 6]);
    assert!(read_fixed::<0>(&b, 10).is_empty());
    assert!(read_fixed::<0>(&b, 11).is_empty());
    assert!(read_fixed::<0>(&b, u32::MAX).is_empty());
    assert_eq!(be_u16_at(&b, 1), 0x0102);
    assert_eq!(be_u32_at(&b, 2), 0x0203_0405);
    assert_eq!(be_u64_at(&b, 2), 0x0203_0405_0607_0809);
    let high = Bytes::from_array(&env, &[0xffu8; 8]);
    assert_eq!(be_u16_at(&high, 6), u16::MAX);
    assert_eq!(be_u32_at(&high, 4), u32::MAX);
    assert_eq!(be_u64_at(&high, 0), u64::MAX);
}

#[test]
fn quote_fields() {
    let env = new_env();
    let quote = counting_quote(&env, 90);
    let parsed = parse_signed_quote_min(&env, &quote).ok().unwrap();
    let quoter: Vec<u8> = (4..36).collect();
    let payee: Vec<u8> = (36..68).collect();
    assert_eq!(parsed.quoter_wa32.to_array().to_vec(), quoter);
    assert_eq!(parsed._payee_wa32.to_array().to_vec(), payee);
    assert_eq!(parsed.src_chain, 0x4445);
    assert_eq!(parsed.dst_chain, 0x4647);
    assert_eq!(parsed.expiry, 0x4849_4a4b_4c4d_4e4f);
}

#[test]
fn quote_round_trip() {
    let env = new_env();
    let mut raw: Vec<u8> = b"EQ01".to_vec();
    raw.extend_from_slice(&[0xa1u8; 32]);
    raw.extend_from_slice(&[0xb2u8; 32]);
    raw.extend_from_slice(&0xfffeu16.to_be_bytes());
    raw.extend_from_slice(&3u16.to_be_bytes());
    raw.extend_from_slice(&1_700_000_000u64.to_be_bytes());
    let parsed = parse_signed_quote_min(&env, &Bytes::from_slice(&env, &raw))
        .ok()
        .unwrap();
    let mut written: Vec<u8> = SIGNED_QUOTE_PREFIX.to_vec();
    written.extend_from_slice(&parsed.quoter_wa32.to_array());
    written.extend_from_slice(&parsed._payee_wa32.to_array());
    written.extend_from_slice(&(parsed.src_chain as u16).to_be_bytes());
    written.extend_from_slice(&(parsed.dst_chain as u16).to_be_bytes());
    written.extend_from_slice(&parsed.expiry.to_be_bytes());
    assert_eq!(written, raw);
}

#[test]
fn expiry_is_signed() {
    assert!(!quote_is_expired(0, 0));
    assert!(quote_is_expired(0, 1));
    assert!(!quote_is_expired(1600, 1600));
    assert!(quote_is_expired(1600, 1601));
    assert!(!quote_is_expired(i64::MAX as u64, i64::MAX as u64));
    assert!(quote_is_expired(i64::MAX as u64, i64::MAX as u64 + 1));
    assert!(quote_is_expired(i64::MIN as u64, 0));
    assert!(quote_is_expired(-1i64 as u64, 0));
    assert!(quote_is_expired(u64::MAX, u64::MAX));
}

#[test]
fn quote_refusals() {
    let env = new_env();
    let short = parse_signed_quote_min(&env, &counting_quote(&env, 79));
    assert_eq!(short.err(), Some(ExecError::BadLengths));
    let empty = parse_signed_quote_min(&env, &Bytes::new(&env));
    assert_eq!(empty.err(), Some(ExecError::BadLengths));
    let mut other = counting_quote(&env, 80);
    assert!(parse_signed_quote_min(&env, &other).is_ok());
    other.set(3, b'2');
    let bad = parse_signed_quote_min(&env, &other);
    assert_eq!(bad.err(), Some(ExecError::InvalidQuotePrefix));
}

#[test]
fn request_formats() {
    let env = new_env();
    assert_eq!(parse_request_min(&Bytes::from_array(&env, b"ERV1")), Ok(()));
    assert_eq!(parse_request_min(&Bytes::from_array(&env, b"ERV1xyz")), Ok(()));
    let short = parse_request_min(&Bytes::from_array(&env, b"ERV"));
    assert_eq!(short, Err(ExecError::BadLengths));
    let bad = parse_request_min(&Bytes::from_array(&env, b"ERV2"));
    assert_eq!(bad, Err(ExecError::InvalidRequestPrefix));
}
