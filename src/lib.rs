use vstd::prelude::*;

pub mod aead;
pub mod cipher;
pub mod kdf;
pub mod kind;
pub mod random;
pub mod stream;

pub use cipher::{Cipher, DummyCipher};
pub use kdf::{derive_session_subkey, openssl_bytes_to_key};
pub use kind::{available_ciphers, CipherCategory, CipherKind};
pub use random::random_iv_or_salt;

verus! {

/// An owned copy of a byte slice.
pub(crate) fn copy_bytes(s: &[u8]) -> (r: Vec<u8>)
    ensures
        r@ == s@,
{
    let mut r: Vec<u8> = Vec::new();
    let mut i: usize = 0;
    while i < s.len()
        invariant
            i <= s@.len(),
            r@ == s@.take(i as int),
        decreases s@.len() - i,
    {
        r.push(s[i]);
        i = i + 1;
        assert(r@ =~= s@.take(i as int));
    }
    assert(r@ =~= s@);
    r
}

} // verus!
