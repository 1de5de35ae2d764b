use scc_license::encoding::{decode_payload, encode_payload};
use scc_license::signing::{sign, SIGNING_SECRET};
use scc_license::{compute_signature, verify_signature};

#[test]
fn signature_is_the_keyed_digest_in_hex() {
    assert_eq!(
        compute_signature(b"hello"),
        "658df179c5b82d9a1ca624d11ddd31b364fb800e471fb16f9df184399688a062"
    );
    assert_eq!(
        compute_signature(b""),
        "8b6f9fe92e8208b95b998286f2c6942199e4b72af07e4f62460105e160684a75"
    );
}

#[test]
fn signature_bytes_are_the_digest_of_payload_and_secret() {
    let mut keyed = b"hello".to_vec();
    keyed.extend_from_slice(SIGNING_SECRET.as_bytes());
    let digest = <sha2::Sha256 as sha2::Digest>::digest(&keyed).to_vec();
    assert_eq!(sign(b"hello"), digest);
    assert_eq!(sign(b"hello").len(), 32);
    assert_eq!(hex::encode(sign(b"hello")), compute_signature(b"hello"));
}

#[test]
fn signing_is_deterministic() {
    assert_eq!(compute_signature(b"the same payload"), compute_signature(b"the same payload"));
}

#[test]
fn verify_accepts_the_signature_and_nothing_else() {
    let signature = compute_signature(b"payload");
    assert!(verify_signature(b"payload", &signature));
    assert!(!verify_signature(b"payloae", &signature));
    assert!(!verify_signature(b"payload", &signature.to_uppercase()));
    assert!(!verify_signature(b"payload", &signature[..63]));
    assert!(!verify_signature(b"payload", ""));
    assert!(!verify_signature(b"payload", "payload"));
}

#[test]
fn a_single_changed_bit_changes_the_signature() {
    let payload = b"{\"licensee\":\"Dr. Pablo\"}".to_vec();
    let signature = compute_signature(&payload);
    for position in 0..payload.len() {
        let mut altered = payload.clone();
        altered[position] ^= 1;
        assert_ne!(compute_signature(&altered), signature);
        assert!(!verify_signature(&altered, &signature));
    }
}

#[test]
fn payload_text_is_standard_base64_with_padding() {
    assert_eq!(encode_payload(b"hello"), Some("aGVsbG8=".to_string()));
    assert_eq!(encode_payload(b"hello world~"), Some("aGVsbG8gd29ybGR+".to_string()));
    assert_eq!(encode_payload(b""), Some(String::new()));
    assert_eq!(encode_payload(&[0xfb, 0xff]), Some("+/8=".to_string()));
}

#[test]
fn payload_text_decodes_to_the_bytes() {
    assert_eq!(decode_payload("aGVsbG8="), Some(b"hello".to_vec()));
    assert_eq!(decode_payload(""), Some(Vec::new()));
    assert_eq!(decode_payload("+/8="), Some(vec![0xfb, 0xff]));
}

#[test]
fn payload_encoding_is_lossless() {
    let mut bytes: Vec<u8> = Vec::new();
    for value in 0..=255u8 {
        bytes.push(value);
        let text = encode_payload(&bytes).unwrap();
        assert_eq!(decode_payload(&text), Some(bytes.clone()));
    }
    for text in ["", "AA==", "AAA=", "AAAA", "aGVsbG8gd29ybGR+", "bm90IGpzb24="] {
        let decoded = decode_payload(text).unwrap();
        assert_eq!(encode_payload(&decoded), Some(text.to_string()));
    }
}

#[test]
fn text_that_is_no_canonical_base64_does_not_decode() {
    assert_eq!(decode_payload("aGVsbG8"), None);
    assert_eq!(decode_payload("aGVsbG8=="), None);
    assert_eq!(decode_payload("aGVs!G8="), None);
    assert_eq!(decode_payload("aGVsbG9="), None);
    assert_eq!(decode_payload("aGVs bG8="), None);
    assert_eq!(decode_payload("aGVsbG8=\n"), None);
    assert_eq!(decode_payload("a"), None);
    assert_eq!(decode_payload("\u{e9}A=="), None);
}

#[test]
fn decoding_accepts_only_what_encoding_writes() {
    let symbols = ['A', 'B', 'Q', 'g', 'w', 'x', '0', '9', '+', '/', '=', '-', ' '];
    let mut texts: Vec<String> = vec![String::new()];
    for _ in 0..4 {
        let mut longer = Vec::new();
        for text in &texts {
            for symbol in symbols {
                let mut next = text.clone();
                next.push(symbol);
                longer.push(next);
            }
        }
        for text in &longer {
            for prefix in ["", "aGVs"] {
                let whole = format!("{}{}", prefix, text);
                match decode_payload(&whole) {
                    Some(bytes) => assert_eq!(encode_payload(&bytes), Some(whole)),
                    None => {
                        let canonical = whole.len() % 4 == 0
                            && whole.chars().all(|c| c.is_ascii_alphanumeric() || "+/=".contains(c));
                        if canonical && !whole.contains('=') {
                            panic!("{} should decode", whole);
                        }
                    }
                }
            }
        }
        texts = longer;
    }
}
