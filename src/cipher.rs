use vstd::prelude::*;
use crate::aead::AeadCipher;
use crate::kdf::{derive_session_subkey, session_subkey};
use crate::kind::{CipherCategory, CipherKind};
use crate::stream::{keystream_reach, xor_bytes, StreamCipher};

verus! {

/// The no-op transform.
pub struct DummyCipher {}

impl DummyCipher {
    pub fn new() -> (r: DummyCipher) {
        DummyCipher {  }
    }
}

/// Unified interface of ciphers: exactly one of the three transforms,
/// chosen at construction.
pub enum Cipher {
    Dummy(DummyCipher),
    Stream(StreamCipher),
    Aead(AeadCipher),
}

impl Cipher {
    pub open spec fn wf(self) -> bool {
        match self {
            Cipher::Dummy(_) => true,
            Cipher::Stream(c) => c.wf(),
            Cipher::Aead(c) => c.wf(),
        }
    }

    pub open spec fn spec_kind(self) -> CipherKind {
        match self {
            Cipher::Dummy(_) => CipherKind::NONE,
            Cipher::Stream(c) => c.spec_kind(),
            Cipher::Aead(c) => c.spec_kind(),
        }
    }

    pub open spec fn spec_category(self) -> CipherCategory {
        match self {
            Cipher::Dummy(_) => CipherCategory::Plain,
            Cipher::Stream(_) => CipherCategory::Stream,
            Cipher::Aead(_) => CipherCategory::Aead,
        }
    }

    pub open spec fn spec_tag_len(self) -> nat {
        match self {
            Cipher::Aead(c) => c.spec_kind().spec_tag_len(),
            _ => 0,
        }
    }

    /// A cipher just built from `kind`, `key` and `iv_or_salt`: a stream
    /// cipher at the start of its keystream, an AEAD cipher under the
    /// session subkey at nonce zero.
    pub open spec fn is_fresh(self, kind: CipherKind, key: Seq<u8>, iv_or_salt: Seq<u8>) -> bool {
        match kind.spec_category() {
            CipherCategory::Plain => self is Dummy,
            CipherCategory::Stream => match self {
                Cipher::Stream(c) => {
                    &&& c.wf()
                    &&& c.spec_kind() == kind
                    &&& c.spec_key() == key
                    &&& c.spec_iv() == iv_or_salt
                    &&& c.spec_position() == 0
                },
                _ => false,
            },
            CipherCategory::Aead => match self {
                Cipher::Aead(c) => {
                    &&& c.wf()
                    &&& c.spec_kind() == kind
                    &&& c.spec_key() == session_subkey(key, iv_or_salt)
                    &&& c.spec_counter() == 0
                },
                _ => false,
            },
        }
    }

    /// Both hold the same transform with the same key material at the same
    /// point of their keystream or nonce sequence.
    pub open spec fn same_state(self, other: Cipher) -> bool {
        match (self, other) {
            (Cipher::Dummy(_), Cipher::Dummy(_)) => true,
            (Cipher::Stream(a), Cipher::Stream(b)) => {
                &&& a.spec_kind() == b.spec_kind()
                &&& a.spec_key() == b.spec_key()
                &&& a.spec_iv() == b.spec_iv()
                &&& a.spec_position() == b.spec_position()
            },
            (Cipher::Aead(a), Cipher::Aead(b)) => {
                &&& a.spec_kind() == b.spec_kind()
                &&& a.spec_key() == b.spec_key()
                &&& a.spec_counter() == b.spec_counter()
            },
            _ => false,
        }
    }

    /// Encrypting the packet `input` gives `output` and moves the cipher to `next`.
    pub open spec fn encrypts(self, next: Cipher, input: Seq<u8>, output: Seq<u8>) -> bool {
        match (self, next) {
            (Cipher::Dummy(_), Cipher::Dummy(_)) => output == input,
            (Cipher::Stream(a), Cipher::Stream(b)) => a.applies(b, input, output),
            (Cipher::Aead(a), Cipher::Aead(b)) => a.seals(b, input, output),
            _ => false,
        }
    }

    /// Decrypting the packet `input` gives `output`, reports `ok` and moves
    /// the cipher to `next`.
    pub open spec fn decrypts(self, next: Cipher, input: Seq<u8>, output: Seq<u8>, ok: bool) -> bool {
        match (self, next) {
            (Cipher::Dummy(_), Cipher::Dummy(_)) => output == input && ok,
            (Cipher::Stream(a), Cipher::Stream(b)) => a.applies(b, input, output) && ok,
            (Cipher::Aead(a), Cipher::Aead(b)) => a.opens(b, input, output, ok),
            _ => false,
        }
    }

    /// Create a new Cipher of `kind`.
    ///
    /// - Stream ciphers initialize with the IV
    /// - AEAD ciphers initialize with the subkey derived under the salt
    pub fn new(kind: CipherKind, key: &[u8], iv_or_salt: &[u8]) -> (r: Cipher)
        requires
            kind.spec_category() != CipherCategory::Plain ==> key@.len() == kind.spec_key_len(),
            kind.spec_category() == CipherCategory::Stream ==> iv_or_salt@.len()
                == kind.spec_iv_or_salt_len(),
        ensures
            r.wf(),
            r.is_fresh(kind, key@, iv_or_salt@),
    {
        match kind.category() {
            CipherCategory::Plain => Cipher::Dummy(DummyCipher::new()),
            CipherCategory::Stream => Cipher::Stream(StreamCipher::new(kind, key, iv_or_salt)),
            CipherCategory::Aead => {
                let subkey = derive_session_subkey(key, iv_or_salt);
                Cipher::Aead(AeadCipher::new(kind, subkey.as_slice()))
            },
        }
    }

    /// Get the `CipherCategory` of the current cipher.
    pub fn category(&self) -> (r: CipherCategory)
        ensures
            r == self.spec_category(),
    {
        match self {
            Cipher::Dummy(_) => CipherCategory::Plain,
            Cipher::Stream(_) => CipherCategory::Stream,
            Cipher::Aead(_) => CipherCategory::Aead,
        }
    }

    /// Get the `CipherKind` of the current cipher.
    pub fn kind(&self) -> (r: CipherKind)
        ensures
            r == self.spec_kind(),
    {
        match self {
            Cipher::Dummy(_) => CipherKind::NONE,
            Cipher::Stream(c) => c.kind(),
            Cipher::Aead(c) => c.kind(),
        }
    }

    /// Get the tag length of AEAD ciphers (zero for the others).
    pub fn tag_len(&self) -> (r: usize)
        requires
            self.wf(),
        ensures
            r == self.spec_tag_len(),
    {
        match self {
            Cipher::Dummy(_) => 0,
            Cipher::Stream(_) => 0,
            Cipher::Aead(c) => c.tag_len(),
        }
    }

    /// Encrypt a packet in place.
    ///
    /// - Stream ciphers: input and output have the same size
    /// - AEAD ciphers: the last `tag_len()` bytes of `pkt` receive the tag
    pub fn encrypt_packet(&mut self, pkt: &mut [u8])
        requires
            old(self).wf(),
            old(pkt)@.len() >= old(self).spec_tag_len(),
        ensures
            old(self).encrypts(*final(self), old(pkt)@, final(pkt)@),
            final(self).wf(),
    {
        match self {
            Cipher::Dummy(_) => {},
            Cipher::Stream(c) => c.apply(pkt),
            Cipher::Aead(c) => c.encrypt(pkt),
        }
    }

    /// Decrypt a packet in place; returns whether it was authentic.
    ///
    /// - Stream ciphers: input and output have the same size
    /// - AEAD ciphers: the plaintext is the first `len - tag_len()` bytes
    #[must_use]
    pub fn decrypt_packet(&mut self, pkt: &mut [u8]) -> (ok: bool)
        requires
            old(self).wf(),
            old(pkt)@.len() >= old(self).spec_tag_len(),
        ensures
            old(self).decrypts(*final(self), old(pkt)@, final(pkt)@, ok),
            final(self).wf(),
    {
        match self {
            Cipher::Dummy(_) => true,
            Cipher::Stream(c) => {
                c.apply(pkt);
                true
            },
            Cipher::Aead(c) => c.decrypt(pkt),
        }
    }
}

/// The no-op cipher has no tag, leaves every packet as it was and accepts
/// every packet.
pub proof fn lemma_plain_is_identity(
    c: Cipher,
    next: Cipher,
    input: Seq<u8>,
    output: Seq<u8>,
    ok: bool,
)
    requires
        c.wf(),
        c.spec_kind() == CipherKind::NONE,
    ensures
        c.spec_tag_len() == 0,
        c.encrypts(next, input, output) ==> output == input,
        c.decrypts(next, input, output, ok) ==> output == input && ok,
{
}

/// Two ciphers built from the same kind, key and IV or salt start in the
/// same state.
pub proof fn lemma_fresh_same_state(
    a: Cipher,
    b: Cipher,
    kind: CipherKind,
    key: Seq<u8>,
    iv_or_salt: Seq<u8>,
)
    requires
        a.is_fresh(kind, key, iv_or_salt),
        b.is_fresh(kind, key, iv_or_salt),
    ensures
        a.same_state(b),
{
}

/// Two AEAD ciphers in the same state seal the same packet to the same bytes
/// and stay in the same state, so fed the same packets they agree on every
/// one.
pub proof fn lemma_aead_deterministic(
    a: Cipher,
    a_next: Cipher,
    b: Cipher,
    b_next: Cipher,
    input: Seq<u8>,
    out_a: Seq<u8>,
    out_b: Seq<u8>,
)
    requires
        a.wf(),
        a.spec_category() == CipherCategory::Aead,
        a.same_state(b),
        input.len() >= a.spec_tag_len(),
        a.encrypts(a_next, input, out_a),
        b.encrypts(b_next, input, out_b),
    ensures
        out_a == out_b,
        a_next.same_state(b_next),
{
}

proof fn lemma_xor_twice(data: Seq<u8>, pad: Seq<u8>)
    ensures
        xor_bytes(xor_bytes(data, pad), pad) == data,
{
    assert forall|i: int| 0 <= i < data.len() implies #[trigger] xor_bytes(
        xor_bytes(data, pad),
        pad,
    )[i] == data[i] by {
        let x = data[i];
        let y = pad[i];
        assert((x ^ y) ^ y == x) by (bit_vector);
    }
    assert(xor_bytes(xor_bytes(data, pad), pad) =~= data);
}

/// A packet encrypted by one cipher and decrypted by another built from the
/// same kind, key and IV or salt comes back as it was, and is accepted
/// (for packets that fit the keystream that is sure to last, 2^32 bytes).
pub proof fn lemma_round_trip(
    kind: CipherKind,
    key: Seq<u8>,
    iv_or_salt: Seq<u8>,
    a: Cipher,
    a_next: Cipher,
    b: Cipher,
    b_next: Cipher,
    packet: Seq<u8>,
    sealed: Seq<u8>,
    opened: Seq<u8>,
    ok: bool,
)
    requires
        a.is_fresh(kind, key, iv_or_salt),
        b.is_fresh(kind, key, iv_or_salt),
        packet.len() >= a.spec_tag_len(),
        packet.len() <= keystream_reach(),
        a.encrypts(a_next, packet, sealed),
        b.decrypts(b_next, sealed, opened, ok),
    ensures
        ok,
        opened.take(packet.len() - a.spec_tag_len()) == packet.take(
            packet.len() - a.spec_tag_len(),
        ),
{
    match (a, a_next, b, b_next) {
        (Cipher::Stream(sa), Cipher::Stream(_), Cipher::Stream(sb), Cipher::Stream(_)) => {
            let pad = crate::stream::chacha20_keystream(sa.spec_key(), sa.spec_iv(), 0, packet.len());
            if packet.len() > 0 {
                assert(sealed == xor_bytes(packet, pad));
                assert(opened == xor_bytes(sealed, pad));
                lemma_xor_twice(packet, pad);
            } else {
                assert(opened =~= packet);
            }
            assert(opened.take(packet.len() as int) =~= packet.take(packet.len() as int));
        },
        (Cipher::Aead(ca), Cipher::Aead(_), Cipher::Aead(cb), Cipher::Aead(_)) => {
            let plain = packet.take(packet.len() - 16);
            assert(sealed == crate::aead::aead_seal(
                ca.spec_kind(),
                ca.spec_key(),
                crate::aead::nonce_of(0),
                plain,
            ));
        },
        _ => {},
    }
}

} // verus!
