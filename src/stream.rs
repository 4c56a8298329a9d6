use vstd::prelude::*;
use crate::copy_bytes;
use crate::kind::CipherKind;

verus! {

/// The `len` bytes of the ChaCha20 (IETF) keystream of `key` and `iv` that
/// start at byte `offset`.
pub uninterp spec fn chacha20_keystream(key: Seq<u8>, iv: Seq<u8>, offset: nat, len: nat) -> Seq<u8>;

/// Byte-wise exclusive or, as long as `data`.
pub open spec fn xor_bytes(data: Seq<u8>, pad: Seq<u8>) -> Seq<u8> {
    Seq::new(data.len(), |i: int| data[i] ^ pad[i])
}

/// Largest keystream position up to which the keystream is sure to last.
pub open spec fn keystream_reach() -> nat {
    0x1_0000_0000
}

/// Relies on chacha20::ChaCha20 (KeyIvInit::new_from_slices,
/// StreamCipherSeek::try_seek, StreamCipher::try_apply_keystream): the buffer
/// is xored with the keystream from `offset` on. The 32-bit block counter
/// covers the first 2^38 bytes, so positions below 2^32 never run out; on a
/// refusal the buffer is left as it was.
#[verifier::external_body]
fn chacha20_apply(key: &[u8], iv: &[u8], offset: u64, buf: &mut [u8]) -> (r: bool)
    requires
        key@.len() == 32,
        iv@.len() == 12,
    ensures
        r ==> final(buf)@ == xor_bytes(
            old(buf)@,
            chacha20_keystream(key@, iv@, offset as nat, old(buf)@.len()),
        ),
        !r ==> final(buf)@ == old(buf)@,
        offset + old(buf)@.len() <= keystream_reach() ==> r,
{
    let mut c = match <chacha20::ChaCha20 as chacha20::cipher::KeyIvInit>::new_from_slices(key, iv) {
        Ok(c) => c,
        Err(_) => return false,
    };
    if chacha20::cipher::StreamCipherSeek::try_seek(&mut c, offset).is_err() {
        return false;
    }
    chacha20::cipher::StreamCipher::try_apply_keystream(&mut c, buf).is_ok()
}

/// A stream cipher: the data is xored with the keystream of its key and IV,
/// going on where the previous packet stopped.
pub struct StreamCipher {
    kind: CipherKind,
    key: Vec<u8>,
    iv: Vec<u8>,
    position: u64,
}

impl StreamCipher {
    pub closed spec fn spec_kind(&self) -> CipherKind {
        self.kind
    }

    pub closed spec fn spec_key(&self) -> Seq<u8> {
        self.key@
    }

    pub closed spec fn spec_iv(&self) -> Seq<u8> {
        self.iv@
    }

    /// How many keystream bytes earlier packets used.
    pub closed spec fn spec_position(&self) -> nat {
        self.position as nat
    }

    pub open spec fn wf(&self) -> bool {
        &&& self.spec_kind() == CipherKind::CHACHA20
        &&& self.spec_key().len() == 32
        &&& self.spec_iv().len() == 12
    }

    /// The effect of one packet: xored with the keystream at the current
    /// position, which moves past it; or, where the keystream has run out,
    /// nothing changes.
    pub open spec fn applies(self, next: Self, input: Seq<u8>, output: Seq<u8>) -> bool {
        &&& next.wf()
        &&& next.spec_kind() == self.spec_kind()
        &&& next.spec_key() == self.spec_key()
        &&& next.spec_iv() == self.spec_iv()
        &&& output.len() == input.len()
        &&& (output == xor_bytes(
            input,
            chacha20_keystream(self.spec_key(), self.spec_iv(), self.spec_position(), input.len()),
        ) && next.spec_position() == self.spec_position() + input.len()
            || output == input && next.spec_position() == self.spec_position())
        &&& (self.spec_position() + input.len() <= keystream_reach() ==> next.spec_position()
            == self.spec_position() + input.len())
    }

    /// A stream cipher of `kind` at the start of the keystream of `key` and `iv`.
    pub fn new(kind: CipherKind, key: &[u8], iv: &[u8]) -> (r: StreamCipher)
        requires
            kind == CipherKind::CHACHA20,
            key@.len() == 32,
            iv@.len() == 12,
        ensures
            r.wf(),
            r.spec_kind() == kind,
            r.spec_key() == key@,
            r.spec_iv() == iv@,
            r.spec_position() == 0,
    {
        StreamCipher { kind, key: copy_bytes(key), iv: copy_bytes(iv), position: 0 }
    }

    pub fn kind(&self) -> (r: CipherKind)
        ensures
            r == self.spec_kind(),
    {
        self.kind
    }

    /// Xors `data` with the next bytes of the keystream.
    pub fn apply(&mut self, data: &mut [u8])
        requires
            old(self).wf(),
        ensures
            old(self).applies(*final(self), old(data)@, final(data)@),
    {
        let len = data.len() as u64;
        if len > u64::MAX - self.position {
            return;
        }
        if chacha20_apply(self.key.as_slice(), self.iv.as_slice(), self.position, data) {
            self.position = self.position + len;
        }
    }
}

} // verus!
