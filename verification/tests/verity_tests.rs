use cc_policy::hashing::to_hex;
use cc_policy::verity::{verity_root_hash, VerityError};
use sha2::{Digest, Sha256};

fn hex_string(bytes: &[u8]) -> String {
    let mut s = String::new();
    for b in bytes {
        s.push_str(&format!("{:02x}", b));
    }
    s
}

fn salted_digest(block: &[u8]) -> Vec<u8> {
    let mut buf = vec![0u8; 32];
    buf.extend_from_slice(block);
    buf.resize(32 + 4096, 0);
    Sha256::digest(&buf).to_vec()
}

#[test]
fn verity_rejects_small_file() {
    let data = vec![0u8; 4095];
    assert_eq!(verity_root_hash(&data), Err(VerityError::FileTooSmall));
    let empty: Vec<u8> = Vec::new();
    assert_eq!(verity_root_hash(&empty), Err(VerityError::FileTooSmall));
}

#[test]
fn verity_single_block() {
    let data = vec![7u8; 4096];
    let d0 = salted_digest(&data);
    let root = salted_digest(&d0);
    let expected = hex_string(&root);
    assert_eq!(verity_root_hash(&data).unwrap(), expected);
}

#[test]
fn verity_two_blocks() {
    let mut data = vec![1u8; 4096];
    data.extend_from_slice(&vec![2u8; 4096]);
    let d0 = salted_digest(&data[0..4096]);
    let d1 = salted_digest(&data[4096..8192]);
    let mut level = d0.clone();
    level.extend_from_slice(&d1);
    let root = salted_digest(&level);
    let expected = hex_string(&root);
    assert_eq!(verity_root_hash(&data).unwrap(), expected);
}

#[test]
fn verity_partial_last_block_is_zero_padded() {
    let data = vec![9u8; 5000];
    let d0 = salted_digest(&data[0..4096]);
    let d1 = salted_digest(&data[4096..5000]);
    let mut level = d0.clone();
    level.extend_from_slice(&d1);
    let root = salted_digest(&level);
    assert_eq!(verity_root_hash(&data).unwrap(), hex_string(&root));
}

#[test]
fn verity_stable_across_runs() {
    let data = vec![42u8; 10000];
    let first = verity_root_hash(&data).unwrap();
    let second = verity_root_hash(&data).unwrap();
    assert_eq!(first, second);
}

#[test]
fn hex_encoding() {
    assert_eq!(to_hex(&vec![0xbe, 0xef]), "beef");
    assert_eq!(to_hex(&vec![0x00, 0x0a, 0xff]), "000aff");
    assert_eq!(to_hex(&Vec::new()), "");
}
