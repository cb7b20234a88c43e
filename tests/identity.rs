use bootstrap_node::hex::{decode_hex_bytes, encode_hex, encode_hex_bytes};
use bootstrap_node::identity::{load_or_create, parse_key_file, Identity, IdentityError, KEY_FILE_NAME};

fn bytes_from_hex(s: &str) -> Vec<u8> {
    decode_hex_bytes(s.as_bytes()).unwrap()
}

#[test]
fn hex_encodes_two_lower_case_digits_per_byte() {
    assert_eq!(encode_hex(&[0x00, 0xab, 0x7f, 0xff]), "00ab7fff");
    assert_eq!(encode_hex_bytes(&[0x01, 0xc9]), b"01c9".to_vec());
    assert_eq!(encode_hex(&[]), "");
}

#[test]
fn hex_decodes_either_case() {
    assert_eq!(decode_hex_bytes(b"00AB7f"), Some(vec![0x00, 0xab, 0x7f]));
    assert_eq!(decode_hex_bytes(b""), Some(vec![]));
}

#[test]
fn hex_rejects_odd_length_and_non_digits() {
    assert_eq!(decode_hex_bytes(b"abc"), None);
    assert_eq!(decode_hex_bytes(b"zz"), None);
    assert_eq!(decode_hex_bytes(b"0g"), None);
}

#[test]
fn public_key_matches_ed25519_test_vector() {
    let secret = bytes_from_hex("9d61b19deffd5a60ba844af492ec2cc44449c5697b326919703bac031cae7f60");
    let id = Identity::from_secret(secret.clone());
    assert_eq!(id.secret, secret);
    assert_eq!(
        encode_hex(&id.public),
        "d75a980182b10ab7d54bfed3c964073a0ee172f3daa62325af021a68f707511a"
    );
}

#[test]
fn key_file_holds_hex_and_line_feed() {
    let secret = bytes_from_hex("9d61b19deffd5a60ba844af492ec2cc44449c5697b326919703bac031cae7f60");
    let id = Identity::from_secret(secret);
    let contents = id.key_file_contents();
    assert_eq!(
        contents,
        b"9d61b19deffd5a60ba844af492ec2cc44449c5697b326919703bac031cae7f60\n".to_vec()
    );
    assert_eq!(parse_key_file(&contents), Ok(id.secret.clone()));
}

#[test]
fn key_file_without_line_feed_or_upper_case_is_read() {
    let text = b"9D61B19DEFFD5A60BA844AF492EC2CC44449C5697B326919703BAC031CAE7F60";
    let secret = parse_key_file(text).unwrap();
    assert_eq!(
        encode_hex(&secret),
        "9d61b19deffd5a60ba844af492ec2cc44449c5697b326919703bac031cae7f60"
    );
}

#[test]
fn malformed_key_files_are_rejected() {
    assert_eq!(parse_key_file(b"hello"), Err(IdentityError::Malformed));
    assert_eq!(parse_key_file(b""), Err(IdentityError::Malformed));
    assert_eq!(parse_key_file(b"\n"), Err(IdentityError::Malformed));
    // 31 bytes: valid hex of the wrong length.
    let short = vec![b'a'; 62];
    assert_eq!(parse_key_file(&short), Err(IdentityError::Malformed));
    // Two trailing line feeds.
    let mut two = vec![b'a'; 64];
    two.push(b'\n');
    two.push(b'\n');
    assert_eq!(parse_key_file(&two), Err(IdentityError::Malformed));
}

#[test]
fn fresh_then_reuse_reports_the_same_public_key() {
    let first = load_or_create(None, Identity::create_ephemeral()).unwrap();
    let stored = first.persist.clone().expect("a new key is to be stored");
    let second = load_or_create(Some(stored), Identity::create_ephemeral()).unwrap();
    assert_eq!(second.identity.public, first.identity.public);
    assert_eq!(second.identity.secret, first.identity.secret);
    assert!(second.persist.is_none());
}

#[test]
fn existing_key_is_loaded_and_never_replaced() {
    let stored = b"9d61b19deffd5a60ba844af492ec2cc44449c5697b326919703bac031cae7f60\n".to_vec();
    let a = load_or_create(Some(stored.clone()), Identity::create_ephemeral()).unwrap();
    let b = load_or_create(Some(stored), Identity::create_ephemeral()).unwrap();
    assert!(a.persist.is_none());
    assert_eq!(a.identity.public, b.identity.public);
    assert_eq!(
        encode_hex(&a.identity.public),
        "d75a980182b10ab7d54bfed3c964073a0ee172f3daa62325af021a68f707511a"
    );
}

#[test]
fn malformed_stored_key_is_an_identity_error() {
    let r = load_or_create(Some(b"not a key".to_vec()), Identity::create_ephemeral());
    assert!(matches!(r, Err(IdentityError::Malformed)));
}

#[test]
fn ephemeral_identities_differ() {
    let a = Identity::create_ephemeral();
    let b = Identity::create_ephemeral();
    assert_eq!(a.secret.len(), 32);
    assert_eq!(a.public.len(), 32);
    assert_ne!(a.public, b.public);
}

#[test]
fn key_file_name_is_private_key() {
    assert_eq!(KEY_FILE_NAME, "private_key");
}
