use ss_cipher::aead::AeadCipher;
use ss_cipher::random::is_all_zero;
use ss_cipher::stream::StreamCipher;
use ss_cipher::{available_ciphers, derive_session_subkey, openssl_bytes_to_key, random_iv_or_salt, Cipher, CipherKind};

fn hex(b: &[u8]) -> String {
    b.iter().map(|x| format!("{:02x}", x)).collect()
}

#[test]
fn legacy_key_known_answer() {
    let mut key = [0u8; 16];
    openssl_bytes_to_key(b"password", &mut key);
    assert_eq!(hex(&key), "5f4dcc3b5aa765d61d8327deb882cf99");
}

#[test]
fn legacy_key_is_prefix_stable() {
    let mut short = [0u8; 16];
    let mut long = [0u8; 32];
    let mut odd = [0u8; 21];
    openssl_bytes_to_key(b"password", &mut short);
    openssl_bytes_to_key(b"password", &mut long);
    openssl_bytes_to_key(b"password", &mut odd);
    assert_eq!(&long[..16], &short[..]);
    assert_eq!(&odd[..], &long[..21]);
    assert_ne!(&long[16..], &long[..16]);
}

#[test]
fn legacy_key_of_empty_length() {
    let mut key: [u8; 0] = [];
    openssl_bytes_to_key(b"password", &mut key);
    assert!(key.is_empty());
}

#[test]
fn session_subkey_depends_on_salt() {
    let key = [2u8; 16];
    let a = derive_session_subkey(&key, &[1u8; 16]);
    let b = derive_session_subkey(&key, &[1u8; 16]);
    let c = derive_session_subkey(&key, &[9u8; 16]);
    assert_eq!(a.len(), 16);
    assert_eq!(a, b);
    assert_ne!(a, c);
    assert_ne!(&a[..], &key[..]);
    let long = derive_session_subkey(&[2u8; 32], &[1u8; 32]);
    assert_eq!(long.len(), 32);
}

#[test]
fn random_on_empty_buffer() {
    let mut buf: [u8; 0] = [];
    random_iv_or_salt(&mut buf);
    assert!(buf.is_empty());
}

#[test]
fn random_is_never_all_zero() {
    for _ in 0..1000 {
        let mut buf = [0u8; 1];
        random_iv_or_salt(&mut buf);
        assert!(!is_all_zero(&buf));
    }
    let mut a = [0u8; 32];
    let mut b = [0u8; 32];
    random_iv_or_salt(&mut a);
    random_iv_or_salt(&mut b);
    assert!(!is_all_zero(&a));
    assert_ne!(a, b);
}

#[test]
fn all_zero_check() {
    assert!(is_all_zero(&[]));
    assert!(is_all_zero(&[0, 0, 0]));
    assert!(!is_all_zero(&[0, 0, 1]));
}

#[test]
fn catalog_lists_constructible_kinds() {
    let names = available_ciphers();
    assert_eq!(names, vec!["plain", "none", "chacha20-ietf", "aes-128-gcm", "aes-256-gcm", "chacha20-ietf-poly1305"]);
    let kinds = [
        CipherKind::NONE,
        CipherKind::NONE,
        CipherKind::CHACHA20,
        CipherKind::AES_128_GCM,
        CipherKind::AES_256_GCM,
        CipherKind::CHACHA20_POLY1305,
    ];
    for kind in kinds {
        let key = vec![1u8; kind.key_len()];
        let iv = vec![2u8; kind.iv_or_salt_len()];
        let c = Cipher::new(kind, &key, &iv);
        assert_eq!(c.kind(), kind);
        assert_eq!(c.tag_len(), kind.tag_len());
    }
}

#[test]
fn aes_128_gcm_known_answer() {
    let mut c = AeadCipher::new(CipherKind::AES_128_GCM, &[0u8; 16]);
    let mut buf = [0u8; 32];
    c.encrypt(&mut buf);
    assert_eq!(hex(&buf[..16]), "0388dace60b6a392f328c2b971b2fe78");
    assert_eq!(hex(&buf[16..]), "ab6e47d42cec13bdf53a67b21257bddf");
    let mut empty = [0u8; 16];
    let mut c = AeadCipher::new(CipherKind::AES_128_GCM, &[0u8; 16]);
    c.encrypt(&mut empty);
    assert_eq!(hex(&empty), "58e2fccefa7e3061367f1d57a4e7455a");
}

#[test]
fn aes_256_gcm_known_answer() {
    let mut c = AeadCipher::new(CipherKind::AES_256_GCM, &[0u8; 32]);
    let mut buf = [0u8; 32];
    c.encrypt(&mut buf);
    assert_eq!(hex(&buf[..16]), "cea7403d4d606b6e074ec5d3baf39d18");
    assert_eq!(hex(&buf[16..]), "d0d1c8a799996bf0265b98b5d48ab919");
    let mut empty = [0u8; 16];
    let mut c = AeadCipher::new(CipherKind::AES_256_GCM, &[0u8; 32]);
    c.encrypt(&mut empty);
    assert_eq!(hex(&empty), "530f8afbc74536b9a963b4f1c4cb738b");
}

#[test]
fn aead_nonce_advances() {
    let mut c = AeadCipher::new(CipherKind::AES_128_GCM, &[0u8; 16]);
    let mut first = [0u8; 16];
    let mut second = [0u8; 16];
    c.encrypt(&mut first);
    c.encrypt(&mut second);
    assert_ne!(first, second);
}

#[test]
fn chacha20_known_keystream() {
    let key: Vec<u8> = (0u8..32).collect();
    let iv = [0u8, 0, 0, 9, 0, 0, 0, 0x4a, 0, 0, 0, 0];
    let mut c = StreamCipher::new(CipherKind::CHACHA20, &key, &iv);
    let mut skip = [0u8; 64];
    c.apply(&mut skip);
    let mut block = [0u8; 16];
    c.apply(&mut block);
    assert_eq!(hex(&block), "10f1e7e4d13b5915500fdd1fa32071c4");
}
