use vstd::prelude::*;
use crate::copy_bytes;
use crate::kind::{CipherCategory, CipherKind};

verus! {

/// AES-128-GCM's sealed message, ciphertext then sixteen-byte tag, of
/// `plaintext` under `key` and `nonce`, with no associated data.
pub uninterp spec fn aes128gcm_seal(key: Seq<u8>, nonce: Seq<u8>, plaintext: Seq<u8>) -> Seq<u8>;

/// Longest message that the AEAD ciphers take, 2^36 bytes (the limit of
/// AES-GCM).
pub open spec fn aead_max_len() -> nat {
    0x10_0000_0000
}

/// Relies on aes_gcm::Aes128Gcm (KeyInit::new_from_slice,
/// AeadInPlace::encrypt_in_place_detached): the first `plain_len` bytes are
/// replaced by their ciphertext and the tag is written after them. It refuses
/// exactly the messages over 2^36 bytes, before touching the buffer.
#[verifier::external_body]
fn aes128gcm_seal_in_place(key: &[u8], nonce: &[u8], buf: &mut [u8], plain_len: usize) -> (r: bool)
    requires
        key@.len() == 16,
        nonce@.len() == 12,
        plain_len + 16 == old(buf)@.len(),
    ensures
        final(buf)@.len() == old(buf)@.len(),
        r ==> final(buf)@ == aes128gcm_seal(key@, nonce@, old(buf)@.take(plain_len as int)),
        !r ==> final(buf)@ == old(buf)@,
        r == (plain_len <= aead_max_len()),
{
    let c = match <aes_gcm::Aes128Gcm as aes_gcm::KeyInit>::new_from_slice(key) {
        Ok(c) => c,
        Err(_) => return false,
    };
    let (msg, tag_out) = buf.split_at_mut(plain_len);
    let nonce = aes_gcm::Nonce::from_slice(nonce);
    match aes_gcm::AeadInPlace::encrypt_in_place_detached(&c, nonce, &[], msg) {
        Ok(tag) => {
            tag_out.copy_from_slice(&tag);
            true
        },
        Err(_) => false,
    }
}

/// Relies on aes_gcm::Aes128Gcm (KeyInit::new_from_slice,
/// AeadInPlace::decrypt_in_place_detached): the tag is recomputed over the
/// ciphertext and the call succeeds exactly when it matches the trailing
/// sixteen bytes, after which the keystream is taken off. So it accepts
/// exactly the sealed messages of its key and nonce (up to 2^36 bytes of
/// plaintext), and then leaves their plaintext in front.
#[verifier::external_body]
fn aes128gcm_open_in_place(key: &[u8], nonce: &[u8], buf: &mut [u8], plain_len: usize) -> (r: bool)
    requires
        key@.len() == 16,
        nonce@.len() == 12,
        plain_len + 16 == old(buf)@.len(),
    ensures
        final(buf)@.len() == old(buf)@.len(),
        r ==> aes128gcm_seal(key@, nonce@, final(buf)@.take(plain_len as int)) == old(buf)@,
        forall|p: Seq<u8>|
            p.len() == plain_len && plain_len <= aead_max_len() && #[trigger] aes128gcm_seal(
                key@,
                nonce@,
                p,
            ) == old(buf)@ ==> r && final(buf)@.take(plain_len as int) == p,
{
    let c = match <aes_gcm::Aes128Gcm as aes_gcm::KeyInit>::new_from_slice(key) {
        Ok(c) => c,
        Err(_) => return false,
    };
    let (msg, tag) = buf.split_at_mut(plain_len);
    let nonce = aes_gcm::Nonce::from_slice(nonce);
    let tag = aes_gcm::Tag::from_slice(tag);
    aes_gcm::AeadInPlace::decrypt_in_place_detached(&c, nonce, &[], msg, tag).is_ok()
}

/// AES-256-GCM's sealed message, ciphertext then sixteen-byte tag, of
/// `plaintext` under `key` and `nonce`, with no associated data.
pub uninterp spec fn aes256gcm_seal(key: Seq<u8>, nonce: Seq<u8>, plaintext: Seq<u8>) -> Seq<u8>;

/// Relies on aes_gcm::Aes256Gcm (KeyInit::new_from_slice,
/// AeadInPlace::encrypt_in_place_detached), as for the 128-bit key above.
#[verifier::external_body]
fn aes256gcm_seal_in_place(key: &[u8], nonce: &[u8], buf: &mut [u8], plain_len: usize) -> (r: bool)
    requires
        key@.len() == 32,
        nonce@.len() == 12,
        plain_len + 16 == old(buf)@.len(),
    ensures
        final(buf)@.len() == old(buf)@.len(),
        r ==> final(buf)@ == aes256gcm_seal(key@, nonce@, old(buf)@.take(plain_len as int)),
        !r ==> final(buf)@ == old(buf)@,
        r == (plain_len <= aead_max_len()),
{
    let c = match <aes_gcm::Aes256Gcm as aes_gcm::KeyInit>::new_from_slice(key) {
        Ok(c) => c,
        Err(_) => return false,
    };
    let (msg, tag_out) = buf.split_at_mut(plain_len);
    let nonce = aes_gcm::Nonce::from_slice(nonce);
    match aes_gcm::AeadInPlace::encrypt_in_place_detached(&c, nonce, &[], msg) {
        Ok(tag) => {
            tag_out.copy_from_slice(&tag);
            true
        },
        Err(_) => false,
    }
}

/// Relies on aes_gcm::Aes256Gcm (KeyInit::new_from_slice,
/// AeadInPlace::decrypt_in_place_detached), as for the 128-bit key above.
#[verifier::external_body]
fn aes256gcm_open_in_place(key: &[u8], nonce: &[u8], buf: &mut [u8], plain_len: usize) -> (r: bool)
    requires
        key@.len() == 32,
        nonce@.len() == 12,
        plain_len + 16 == old(buf)@.len(),
    ensures
        final(buf)@.len() == old(buf)@.len(),
        r ==> aes256gcm_seal(key@, nonce@, final(buf)@.take(plain_len as int)) == old(buf)@,
        forall|p: Seq<u8>|
            p.len() == plain_len && plain_len <= aead_max_len() && #[trigger] aes256gcm_seal(
                key@,
                nonce@,
                p,
            ) == old(buf)@ ==> r && final(buf)@.take(plain_len as int) == p,
{
    let c = match <aes_gcm::Aes256Gcm as aes_gcm::KeyInit>::new_from_slice(key) {
        Ok(c) => c,
        Err(_) => return false,
    };
    let (msg, tag) = buf.split_at_mut(plain_len);
    let nonce = aes_gcm::Nonce::from_slice(nonce);
    let tag = aes_gcm::Tag::from_slice(tag);
    aes_gcm::AeadInPlace::decrypt_in_place_detached(&c, nonce, &[], msg, tag).is_ok()
}

/// ChaCha20-Poly1305's (RFC 8439) sealed message, ciphertext then
/// sixteen-byte tag, of `plaintext` under `key` and `nonce`, with no
/// associated data.
pub uninterp spec fn chachapoly_seal(key: Seq<u8>, nonce: Seq<u8>, plaintext: Seq<u8>) -> Seq<u8>;

/// Relies on chacha20poly1305::ChaCha20Poly1305 (KeyInit::new_from_slice,
/// AeadInPlace::encrypt_in_place_detached): the first `plain_len` bytes are
/// replaced by their ciphertext and the tag is written after them. It
/// refuses only messages of 2^32 - 1 blocks or more, far beyond 2^36 bytes.
#[verifier::external_body]
fn chachapoly_seal_in_place(key: &[u8], nonce: &[u8], buf: &mut [u8], plain_len: usize)
    requires
        key@.len() == 32,
        nonce@.len() == 12,
        plain_len + 16 == old(buf)@.len(),
        plain_len <= aead_max_len(),
    ensures
        final(buf)@.len() == old(buf)@.len(),
        final(buf)@ == chachapoly_seal(key@, nonce@, old(buf)@.take(plain_len as int)),
{
    let c = match <chacha20poly1305::ChaCha20Poly1305 as chacha20poly1305::KeyInit>::new_from_slice(key) {
        Ok(c) => c,
        Err(_) => return,
    };
    let (msg, tag_out) = buf.split_at_mut(plain_len);
    let nonce = chacha20poly1305::Nonce::from_slice(nonce);
    if let Ok(tag) = chacha20poly1305::AeadInPlace::encrypt_in_place_detached(&c, nonce, &[], msg) {
        tag_out.copy_from_slice(&tag);
    }
}

/// Relies on chacha20poly1305::ChaCha20Poly1305 (KeyInit::new_from_slice,
/// AeadInPlace::decrypt_in_place_detached): the Poly1305 tag is recomputed
/// over the ciphertext and the call succeeds exactly when it matches the
/// trailing sixteen bytes, after which the keystream is taken off. So it
/// accepts exactly the sealed messages of its key and nonce, and then leaves
/// their plaintext in front.
#[verifier::external_body]
fn chachapoly_open_in_place(key: &[u8], nonce: &[u8], buf: &mut [u8], plain_len: usize) -> (r: bool)
    requires
        key@.len() == 32,
        nonce@.len() == 12,
        plain_len + 16 == old(buf)@.len(),
        plain_len <= aead_max_len(),
    ensures
        final(buf)@.len() == old(buf)@.len(),
        r ==> chachapoly_seal(key@, nonce@, final(buf)@.take(plain_len as int)) == old(buf)@,
        forall|p: Seq<u8>|
            p.len() == plain_len && #[trigger] chachapoly_seal(key@, nonce@, p) == old(buf)@
                ==> r && final(buf)@.take(plain_len as int) == p,
{
    let c = match <chacha20poly1305::ChaCha20Poly1305 as chacha20poly1305::KeyInit>::new_from_slice(key) {
        Ok(c) => c,
        Err(_) => return false,
    };
    let (msg, tag) = buf.split_at_mut(plain_len);
    let nonce = chacha20poly1305::Nonce::from_slice(nonce);
    let tag = chacha20poly1305::Tag::from_slice(tag);
    chacha20poly1305::AeadInPlace::decrypt_in_place_detached(&c, nonce, &[], msg, tag).is_ok()
}

/// The sealed message of `kind`.
pub open spec fn aead_seal(kind: CipherKind, key: Seq<u8>, nonce: Seq<u8>, plaintext: Seq<u8>) -> Seq<u8> {
    match kind {
        CipherKind::AES_256_GCM => aes256gcm_seal(key, nonce, plaintext),
        CipherKind::CHACHA20_POLY1305 => chachapoly_seal(key, nonce, plaintext),
        _ => aes128gcm_seal(key, nonce, plaintext),
    }
}

/// The twelve-byte nonce of packet number `counter`: the counter in
/// little-endian order, padded with zeros.
pub open spec fn nonce_of(counter: u64) -> Seq<u8> {
    Seq::new(12, |i: int| if i < 8 { ((counter >> (8 * i) as u64) & 0xff) as u8 } else { 0u8 })
}

/// The counter of the packet after `counter`.
pub open spec fn next_counter(counter: u64) -> u64 {
    if counter == u64::MAX { 0 } else { (counter + 1) as u64 }
}

/// An AEAD cipher: each packet is sealed under the session subkey with the
/// next nonce of a counter that starts at zero.
pub struct AeadCipher {
    kind: CipherKind,
    key: Vec<u8>,
    counter: u64,
}

impl AeadCipher {
    pub closed spec fn spec_kind(&self) -> CipherKind {
        self.kind
    }

    pub closed spec fn spec_key(&self) -> Seq<u8> {
        self.key@
    }

    /// Number of packets handled so far (modulo 2^64).
    pub closed spec fn spec_counter(&self) -> u64 {
        self.counter
    }

    pub open spec fn wf(&self) -> bool {
        &&& self.spec_kind().spec_category() == CipherCategory::Aead
        &&& self.spec_key().len() == self.spec_kind().spec_key_len()
    }

    /// The state after one packet: same key, next nonce.
    pub open spec fn advances_to(self, next: Self) -> bool {
        &&& next.wf()
        &&& next.spec_kind() == self.spec_kind()
        &&& next.spec_key() == self.spec_key()
        &&& next.spec_counter() == next_counter(self.spec_counter())
    }

    /// The effect of sealing one packet whose last sixteen bytes are room for
    /// the tag.
    pub open spec fn seals(self, next: Self, input: Seq<u8>, output: Seq<u8>) -> bool {
        let plain = input.take(input.len() - 16);
        &&& self.advances_to(next)
        &&& output.len() == input.len()
        &&& plain.len() <= aead_max_len() ==> output == aead_seal(
            self.spec_kind(),
            self.spec_key(),
            nonce_of(self.spec_counter()),
            plain,
        )
        &&& plain.len() > aead_max_len() ==> output == input
    }

    /// The effect of opening one sealed packet; `ok` tells whether it was
    /// authentic.
    pub open spec fn opens(self, next: Self, input: Seq<u8>, output: Seq<u8>, ok: bool) -> bool {
        let plain_len = input.len() - 16;
        let key = self.spec_key();
        let nonce = nonce_of(self.spec_counter());
        &&& self.advances_to(next)
        &&& output.len() == input.len()
        &&& ok ==> aead_seal(self.spec_kind(), key, nonce, output.take(plain_len)) == input
        &&& forall|p: Seq<u8>|
            p.len() == plain_len && plain_len <= aead_max_len() && #[trigger] aead_seal(
                self.spec_kind(),
                key,
                nonce,
                p,
            ) == input ==> ok && output.take(plain_len) == p
    }

    /// An AEAD cipher of `kind` under `subkey`, at nonce zero.
    pub fn new(kind: CipherKind, subkey: &[u8]) -> (r: AeadCipher)
        requires
            kind.spec_category() == CipherCategory::Aead,
            subkey@.len() == kind.spec_key_len(),
        ensures
            r.wf(),
            r.spec_kind() == kind,
            r.spec_key() == subkey@,
            r.spec_counter() == 0,
    {
        AeadCipher { kind, key: copy_bytes(subkey), counter: 0 }
    }

    pub fn kind(&self) -> (r: CipherKind)
        ensures
            r == self.spec_kind(),
    {
        self.kind
    }

    pub fn tag_len(&self) -> (r: usize)
        requires
            self.wf(),
        ensures
            r == self.spec_kind().spec_tag_len(),
    {
        16
    }

    fn nonce(&self) -> (r: Vec<u8>)
        ensures
            r@ == nonce_of(self.counter),
    {
        let mut r: Vec<u8> = Vec::new();
        let mut i: u64 = 0;
        while i < 12
            invariant
                i <= 12,
                r@.len() == i,
                forall|k: int| 0 <= k < i ==> #[trigger] r@[k] == nonce_of(self.counter)[k],
            decreases 12 - i,
        {
            if i < 8 {
                r.push(((self.counter >> (8 * i)) & 0xff) as u8);
            } else {
                r.push(0u8);
            }
            i = i + 1;
        }
        assert(r@ =~= nonce_of(self.counter));
        r
    }

    fn advance(&mut self)
        ensures
            final(self).kind == old(self).kind,
            final(self).key@ == old(self).key@,
            final(self).counter == next_counter(old(self).counter),
    {
        if self.counter == u64::MAX {
            self.counter = 0;
        } else {
            self.counter = self.counter + 1;
        }
    }

    /// Seals the plaintext in front of `data`; the tag goes to its last
    /// sixteen bytes.
    pub fn encrypt(&mut self, data: &mut [u8])
        requires
            old(self).wf(),
            old(data)@.len() >= 16,
        ensures
            old(self).seals(*final(self), old(data)@, final(data)@),
    {
        let nonce = self.nonce();
        let plain_len = data.len() - 16;
        match self.kind {
            CipherKind::AES_256_GCM => {
                let _ = aes256gcm_seal_in_place(self.key.as_slice(), nonce.as_slice(), data, plain_len);
            },
            CipherKind::CHACHA20_POLY1305 => {
                if plain_len as u64 <= 0x10_0000_0000 {
                    chachapoly_seal_in_place(self.key.as_slice(), nonce.as_slice(), data, plain_len);
                }
            },
            _ => {
                let _ = aes128gcm_seal_in_place(self.key.as_slice(), nonce.as_slice(), data, plain_len);
            },
        }
        self.advance();
    }

    /// Opens the sealed packet in `data`, leaving the plaintext in front;
    /// returns whether the tag was authentic.
    pub fn decrypt(&mut self, data: &mut [u8]) -> (ok: bool)
        requires
            old(self).wf(),
            old(data)@.len() >= 16,
        ensures
            old(self).opens(*final(self), old(data)@, final(data)@, ok),
    {
        let nonce = self.nonce();
        let plain_len = data.len() - 16;
        let ok = match self.kind {
            CipherKind::AES_256_GCM => aes256gcm_open_in_place(
                self.key.as_slice(),
                nonce.as_slice(),
                data,
                plain_len,
            ),
            CipherKind::CHACHA20_POLY1305 => if plain_len as u64 <= 0x10_0000_0000 {
                chachapoly_open_in_place(self.key.as_slice(), nonce.as_slice(), data, plain_len)
            } else {
                false
            },
            _ => aes128gcm_open_in_place(self.key.as_slice(), nonce.as_slice(), data, plain_len),
        };
        self.advance();
        ok
    }
}

} // verus!
