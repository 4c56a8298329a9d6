use vstd::prelude::*;

verus! {

/// The MD5 digest of a byte string.
pub uninterp spec fn md5_of(data: Seq<u8>) -> Seq<u8>;

/// Relies on md5::Md5 (Digest::new, update, finalize): feeding `prefix` and
/// then `data` yields the digest of their concatenation, sixteen bytes long.
#[verifier::external_body]
fn md5_concat(prefix: &[u8], data: &[u8]) -> (r: Vec<u8>)
    ensures
        r@ == md5_of(prefix@ + data@),
        r@.len() == 16,
{
    let mut m = <md5::Md5 as md5::Digest>::new();
    md5::Digest::update(&mut m, prefix);
    md5::Digest::update(&mut m, data);
    md5::Digest::finalize(m).to_vec()
}

/// Block `i` of the password chain: `D0 = MD5(password)`,
/// `Di = MD5(D(i-1) ++ password)`.
pub open spec fn legacy_block(password: Seq<u8>, i: nat) -> Seq<u8>
    decreases i,
{
    if i == 0 {
        md5_of(password)
    } else {
        md5_of(legacy_block(password, (i - 1) as nat) + password)
    }
}

/// The first `len` bytes of `D0 ++ D1 ++ D2 ++ ...`.
pub open spec fn legacy_key(password: Seq<u8>, len: nat) -> Seq<u8> {
    Seq::new(len, |j: int| legacy_block(password, (j / 16) as nat)[j % 16])
}

/// A longer key derived from a password starts with every shorter one.
pub proof fn lemma_legacy_key_prefix(password: Seq<u8>, short: nat, long: nat)
    requires
        short <= long,
    ensures
        legacy_key(password, long).take(short as int) == legacy_key(password, short),
{
    assert(legacy_key(password, long).take(short as int) =~= legacy_key(password, short));
}

proof fn lemma_block_index(b: int, j: int)
    requires
        0 <= b,
        0 <= j < 16,
    ensures
        (16 * b + j) / 16 == b,
        (16 * b + j) % 16 == j,
{
    assert((16 * b + j) / 16 == b && (16 * b + j) % 16 == j) by (nonlinear_arith)
        requires
            0 <= b,
            0 <= j < 16,
    ;
}

/// Key derivation of OpenSSL's EVP_BytesToKey with MD5, one round and no
/// salt: fills `key` with the start of the password chain.
pub fn openssl_bytes_to_key(password: &[u8], key: &mut [u8])
    ensures
        final(key)@ == legacy_key(password@, old(key)@.len()),
{
    let key_len = key.len();
    let mut last: Vec<u8> = Vec::new();
    let mut offset: usize = 0;
    let mut blocks: usize = 0;
    while offset < key_len
        invariant
            key@.len() == key_len,
            key_len == old(key)@.len(),
            offset == 16 * blocks,
            offset <= key_len,
            blocks == 0 ==> last@ == Seq::<u8>::empty(),
            blocks > 0 ==> last@ == legacy_block(password@, (blocks - 1) as nat),
            forall|j: int|
                0 <= j < offset ==> #[trigger] key@[j] == legacy_key(password@, key_len as nat)[j],
        decreases key_len - offset,
    {
        let digest = md5_concat(last.as_slice(), password);
        proof {
            if blocks == 0 {
                assert(last@ + password@ =~= password@);
            }
            assert(digest@ == legacy_block(password@, blocks as nat));
        }
        let amt: usize = if key_len - offset < 16 { key_len - offset } else { 16 };
        let mut j: usize = 0;
        while j < amt
            invariant
                key@.len() == key_len,
                offset == 16 * blocks,
                offset + amt <= key_len,
                amt <= 16,
                j <= amt,
                digest@ == legacy_block(password@, blocks as nat),
                digest@.len() == 16,
                forall|i: int|
                    0 <= i < offset + j ==> #[trigger] key@[i] == legacy_key(password@, key_len as nat)[i],
            decreases amt - j,
        {
            proof {
                lemma_block_index(blocks as int, j as int);
            }
            key[offset + j] = digest[j];
            j = j + 1;
        }
        offset = offset + amt;
        if amt < 16 {
            assert(key@ =~= legacy_key(password@, key_len as nat));
            return;
        }
        blocks = blocks + 1;
        last = digest;
    }
    assert(key@ =~= legacy_key(password@, key_len as nat));
}

/// The sixty-four bytes that HKDF with SHA-1 expands from a salt, input key
/// material and context string.
pub uninterp spec fn hkdf_sha1_okm(salt: Seq<u8>, ikm: Seq<u8>, info: Seq<u8>) -> Seq<u8>;

/// Relies on hkdf::Hkdf::<sha1::Sha1> (new, expand): extraction takes any
/// salt and key material, and expansion refuses only outputs longer than
/// 255 SHA-1 digests, so sixty-four bytes always come out.
#[verifier::external_body]
fn hkdf_sha1_expand(salt: &[u8], ikm: &[u8], info: &[u8]) -> (r: Option<Vec<u8>>)
    ensures
        r is Some,
        r matches Some(v) ==> v@ == hkdf_sha1_okm(salt@, ikm@, info@) && v@.len() == 64,
{
    let hk = hkdf::Hkdf::<sha1::Sha1>::new(Some(salt), ikm);
    let mut okm = vec![0u8; 64];
    match hk.expand(info, &mut okm) {
        Ok(()) => Some(okm),
        Err(_) => None,
    }
}

/// Longest master key that the subkey derivation serves.
pub const MAX_KEY_LEN: usize = 64;

/// The context string of the subkey derivation, `ss-subkey`.
pub open spec fn subkey_info() -> Seq<u8> {
    seq![115u8, 115u8, 45u8, 115u8, 117u8, 98u8, 107u8, 101u8, 121u8]
}

/// The per-session subkey: HKDF-SHA1 of the master key under the salt,
/// cut to the master key's length.
pub open spec fn session_subkey(key: Seq<u8>, salt: Seq<u8>) -> Seq<u8> {
    hkdf_sha1_okm(salt, key, subkey_info()).take(key.len() as int)
}

/// Derives the per-session subkey of an AEAD cipher from the master key and
/// the connection's salt.
pub fn derive_session_subkey(key: &[u8], salt: &[u8]) -> (r: Vec<u8>)
    requires
        key@.len() <= MAX_KEY_LEN,
    ensures
        r@ == session_subkey(key@, salt@),
        r@.len() == key@.len(),
{
    let info: Vec<u8> = vec![115u8, 115u8, 45u8, 115u8, 117u8, 98u8, 107u8, 101u8, 121u8];
    assert(info@ =~= subkey_info());
    let okm = match hkdf_sha1_expand(salt, key, info.as_slice()) {
        Some(v) => v,
        None => Vec::new(),
    };
    let mut r: Vec<u8> = Vec::new();
    let mut i: usize = 0;
    while i < key.len()
        invariant
            okm@ == hkdf_sha1_okm(salt@, key@, subkey_info()),
            okm@.len() == 64,
            key@.len() <= 64,
            i <= key@.len(),
            r@ == okm@.take(i as int),
        decreases key@.len() - i,
    {
        r.push(okm[i]);
        i = i + 1;
        assert(r@ =~= okm@.take(i as int));
    }
    r
}

} // verus!
