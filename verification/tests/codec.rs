use krab::codec::{
    decode_records, decode_vault, encode_records, encode_vault, same_bytes, VaultImage,
};

fn pairs(list: &[(&str, &str)]) -> Vec<(String, String)> {
    list.iter().map(|(d, s)| (d.to_string(), s.to_string())).collect()
}

#[test]
fn an_empty_store_is_a_zero_count() {
    assert_eq!(encode_records(&Vec::new()), Some(vec![0, 0, 0, 0]));
    assert_eq!(decode_records(&[0, 0, 0, 0]), Some(Vec::new()));
}

#[test]
fn a_store_is_laid_out_as_count_and_length_prefixed_texts() {
    let bytes = encode_records(&pairs(&[("ab", "c")])).unwrap();
    assert_eq!(bytes, vec![1, 0, 0, 0, 2, 0, 0, 0, b'a', b'b', 1, 0, 0, 0, b'c']);
}

#[test]
fn texts_are_laid_out_as_utf8() {
    let bytes = encode_records(&pairs(&[("é", "")])).unwrap();
    assert_eq!(bytes, vec![1, 0, 0, 0, 2, 0, 0, 0, 0xc3, 0xa9, 0, 0, 0, 0]);
    assert_eq!(decode_records(&bytes), Some(pairs(&[("é", "")])));
}

#[test]
fn a_store_is_read_back_from_its_layout() {
    let list = pairs(&[("example.com", "s3cr3t!"), ("bank.com", "xyz"), ("", ""), ("ünï", "•")]);
    let bytes = encode_records(&list).unwrap();
    assert_eq!(decode_records(&bytes), Some(list));
}

#[test]
fn malformed_layouts_are_refused() {
    // Too short for a count.
    assert_eq!(decode_records(&[]), None);
    assert_eq!(decode_records(&[1, 0, 0]), None);
    // A count without its records.
    assert_eq!(decode_records(&[1, 0, 0, 0]), None);
    // A text cut short.
    assert_eq!(decode_records(&[1, 0, 0, 0, 2, 0, 0, 0, b'a']), None);
    // A record without its secret.
    assert_eq!(decode_records(&[1, 0, 0, 0, 1, 0, 0, 0, b'a']), None);
    // Bytes left over.
    assert_eq!(decode_records(&[0, 0, 0, 0, 7]), None);
    // A text that is not UTF-8.
    assert_eq!(decode_records(&[1, 0, 0, 0, 1, 0, 0, 0, 0xff, 0, 0, 0, 0]), None);
}

#[test]
fn a_vault_file_is_header_salt_nonce_and_payload() {
    let image = VaultImage { salt: vec![1; 16], nonce: vec![2; 24], sealed: vec![3; 20] };
    let bytes = encode_vault(&image);
    let mut expected = b"KRAB\x01".to_vec();
    expected.extend_from_slice(&[1; 16]);
    expected.extend_from_slice(&[2; 24]);
    expected.extend_from_slice(&[3; 20]);
    assert_eq!(bytes, expected);
    let back = decode_vault(&bytes).unwrap();
    assert_eq!(back.salt, vec![1; 16]);
    assert_eq!(back.nonce, vec![2; 24]);
    assert_eq!(back.sealed, vec![3; 20]);
}

#[test]
fn what_is_no_vault_file_is_refused() {
    assert!(decode_vault(&[]).is_none());
    assert!(decode_vault(b"KRAB\x01").is_none());
    // One byte short of the smallest vault file.
    let mut short = b"KRAB\x01".to_vec();
    short.extend_from_slice(&[0; 55]);
    assert!(decode_vault(&short).is_none());
    short.push(0);
    assert!(decode_vault(&short).is_some());
    // Another layout number, another magic.
    let mut other = short.clone();
    other[4] = 2;
    assert!(decode_vault(&other).is_none());
    let mut magic = short.clone();
    magic[0] = b'k';
    assert!(decode_vault(&magic).is_none());
}

#[test]
fn byte_strings_are_compared_whole() {
    assert!(same_bytes(&[], &[]));
    assert!(same_bytes(&[1, 2, 3], &[1, 2, 3]));
    assert!(!same_bytes(&[1, 2, 3], &[1, 2, 4]));
    assert!(!same_bytes(&[1, 2, 3], &[1, 2]));
}
