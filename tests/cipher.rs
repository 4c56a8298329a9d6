use ss_cipher::{Cipher, CipherCategory, CipherKind};

#[test]
fn test_cipher_new_none() {
    let key = [2u8; 16];
    let salt = [1u8; 16];
    let kind = CipherKind::NONE;

    let cipher = Cipher::new(kind, &key, &salt);
    assert_eq!(cipher.tag_len(), 0);
}

#[test]
fn test_cipher_new_aead() {
    let key = [2u8; 16];
    let salt = [1u8; 16];
    let kind = CipherKind::AES_128_GCM;

    let cipher = Cipher::new(kind, &key, &salt);
    assert_eq!(cipher.tag_len(), 16);
}

#[test]
fn test_cipher_new_stream() {
    let key = [2u8; 32];
    let iv = [1u8; 12];
    let kind = CipherKind::CHACHA20;

    let cipher = Cipher::new(kind, &key, &iv);
    assert_eq!(cipher.tag_len(), 0);
}

fn require_send<C: Send>() {}

fn require_sync<C: Sync>() {}

#[test]
fn test_send() {
    require_send::<Cipher>();
}

#[test]
fn test_sync() {
    require_sync::<Cipher>();
}

#[test]
fn plain_cipher_is_identity() {
    let mut enc = Cipher::new(CipherKind::NONE, &[], &[]);
    let mut dec = Cipher::new(CipherKind::NONE, &[], &[]);
    assert_eq!(enc.category(), CipherCategory::Plain);
    assert_eq!(enc.kind(), CipherKind::NONE);
    let original = b"hello, plain world".to_vec();
    let mut pkt = original.clone();
    enc.encrypt_packet(&mut pkt);
    assert_eq!(pkt, original);
    assert!(dec.decrypt_packet(&mut pkt));
    assert_eq!(pkt, original);
    let mut empty: Vec<u8> = Vec::new();
    enc.encrypt_packet(&mut empty);
    assert!(dec.decrypt_packet(&mut empty));
    assert!(empty.is_empty());
}

#[test]
fn categories_and_kinds_of_built_ciphers() {
    let s = Cipher::new(CipherKind::CHACHA20, &[7u8; 32], &[9u8; 12]);
    assert_eq!(s.category(), CipherCategory::Stream);
    assert_eq!(s.kind(), CipherKind::CHACHA20);
    let a = Cipher::new(CipherKind::AES_128_GCM, &[7u8; 16], &[9u8; 16]);
    assert_eq!(a.category(), CipherCategory::Aead);
    assert_eq!(a.kind(), CipherKind::AES_128_GCM);
}

fn sealed_packets(key: &[u8], salt: &[u8], packets: &[&[u8]]) -> Vec<Vec<u8>> {
    let mut c = Cipher::new(CipherKind::AES_128_GCM, key, salt);
    let mut out = Vec::new();
    for p in packets {
        let mut buf = p.to_vec();
        buf.extend_from_slice(&[0u8; 16]);
        c.encrypt_packet(&mut buf);
        out.push(buf);
    }
    out
}

#[test]
fn aead_is_deterministic() {
    let key = [3u8; 16];
    let salt = [4u8; 16];
    let packets: [&[u8]; 3] = [b"first", b"second packet", b""];
    let a = sealed_packets(&key, &salt, &packets);
    let b = sealed_packets(&key, &salt, &packets);
    assert_eq!(a, b);
    assert_eq!(a[0].len(), 5 + 16);
    assert_ne!(&a[0][..5], b"first");
    let other_salt = sealed_packets(&key, &[5u8; 16], &packets);
    assert_ne!(a, other_salt);
}

#[test]
fn aead_round_trip() {
    let key = [3u8; 16];
    let salt = [4u8; 16];
    let mut enc = Cipher::new(CipherKind::AES_128_GCM, &key, &salt);
    let mut dec = Cipher::new(CipherKind::AES_128_GCM, &key, &salt);
    for text in [&b"one"[..], &b"two, a little longer"[..], &b""[..]] {
        let mut buf = text.to_vec();
        buf.extend_from_slice(&[0u8; 16]);
        enc.encrypt_packet(&mut buf);
        assert!(dec.decrypt_packet(&mut buf));
        assert_eq!(&buf[..text.len()], text);
    }
}

#[test]
fn aes_256_gcm_round_trip() {
    let key = [11u8; 32];
    let salt = [12u8; 32];
    let mut enc = Cipher::new(CipherKind::AES_256_GCM, &key, &salt);
    let mut dec = Cipher::new(CipherKind::AES_256_GCM, &key, &salt);
    assert_eq!(enc.tag_len(), 16);
    for text in [&b"wide key"[..], &b""[..]] {
        let mut buf = text.to_vec();
        buf.extend_from_slice(&[0u8; 16]);
        enc.encrypt_packet(&mut buf);
        assert_ne!(&buf[text.len()..], &[0u8; 16][..]);
        assert!(dec.decrypt_packet(&mut buf));
        assert_eq!(&buf[..text.len()], text);
    }
}

#[test]
fn chacha20_poly1305_round_trip_and_tamper() {
    let key = [13u8; 32];
    let salt = [14u8; 32];
    let mut enc = Cipher::new(CipherKind::CHACHA20_POLY1305, &key, &salt);
    let mut dec = Cipher::new(CipherKind::CHACHA20_POLY1305, &key, &salt);
    assert_eq!(enc.tag_len(), 16);
    let text = b"poly1305 sealed packet";
    let mut buf = text.to_vec();
    buf.extend_from_slice(&[0u8; 16]);
    enc.encrypt_packet(&mut buf);
    assert_ne!(&buf[..text.len()], &text[..]);
    let mut tampered = buf.clone();
    tampered[3] ^= 0x10;
    let mut other = Cipher::new(CipherKind::CHACHA20_POLY1305, &key, &salt);
    assert!(!other.decrypt_packet(&mut tampered));
    assert!(dec.decrypt_packet(&mut buf));
    assert_eq!(&buf[..text.len()], &text[..]);
}

#[test]
fn stream_round_trip() {
    let key = [5u8; 32];
    let iv = [6u8; 12];
    let mut enc = Cipher::new(CipherKind::CHACHA20, &key, &iv);
    let mut dec = Cipher::new(CipherKind::CHACHA20, &key, &iv);
    let texts: [&[u8]; 3] = [b"stream data", b"more stream data across blocks of the keystream, longer than sixty-four bytes in all", b"x"];
    for text in texts {
        let mut buf = text.to_vec();
        enc.encrypt_packet(&mut buf);
        assert_eq!(buf.len(), text.len());
        assert_ne!(&buf[..], text);
        assert!(dec.decrypt_packet(&mut buf));
        assert_eq!(&buf[..], text);
    }
}

#[test]
fn aead_detects_every_flipped_bit() {
    let key = [8u8; 16];
    let salt = [9u8; 16];
    let mut sealed = b"tamper".to_vec();
    sealed.extend_from_slice(&[0u8; 16]);
    Cipher::new(CipherKind::AES_128_GCM, &key, &salt).encrypt_packet(&mut sealed);
    for byte in 0..sealed.len() {
        for bit in 0..8 {
            let mut buf = sealed.clone();
            buf[byte] ^= 1 << bit;
            let mut dec = Cipher::new(CipherKind::AES_128_GCM, &key, &salt);
            assert!(!dec.decrypt_packet(&mut buf));
        }
    }
    let mut dec = Cipher::new(CipherKind::AES_128_GCM, &key, &salt);
    let mut buf = sealed.clone();
    assert!(dec.decrypt_packet(&mut buf));
    assert_eq!(&buf[..6], b"tamper");
}

#[test]
fn aead_rejects_packet_under_wrong_key() {
    let mut sealed = b"secret".to_vec();
    sealed.extend_from_slice(&[0u8; 16]);
    Cipher::new(CipherKind::AES_128_GCM, &[1u8; 16], &[2u8; 16]).encrypt_packet(&mut sealed);
    let mut dec = Cipher::new(CipherKind::AES_128_GCM, &[1u8; 16], &[3u8; 16]);
    assert!(!dec.decrypt_packet(&mut sealed));
}
