use vstd::prelude::*;

verus! {

/// Relies on rand::thread_rng and rand::Rng::fill: the buffer is overwritten
/// in place with bytes of the thread-local CSPRNG; its length stays.
#[verifier::external_body]
fn fill_from_thread_rng(buf: &mut [u8])
    ensures
        final(buf)@.len() == old(buf)@.len(),
{
    rand::Rng::fill(&mut rand::thread_rng(), buf)
}

/// Every byte is zero.
pub open spec fn all_zero(s: Seq<u8>) -> bool {
    forall|i: int| 0 <= i < s.len() ==> s[i] == 0
}

/// Whether every byte of `buf` is zero.
pub fn is_all_zero(buf: &[u8]) -> (r: bool)
    ensures
        r == all_zero(buf@),
{
    let mut i: usize = 0;
    while i < buf.len()
        invariant
            i <= buf@.len(),
            forall|k: int| 0 <= k < i ==> buf@[k] == 0,
        decreases buf@.len() - i,
    {
        if buf[i] != 0 {
            return false;
        }
        i = i + 1;
    }
    true
}

/// Most draws made before giving up on the generator.
const MAX_DRAWS: u64 = 0xffff_ffff_ffff_ffff;

/// Generate random bytes into `iv_or_salt`, never all zero.
///
/// An empty buffer is left alone. Otherwise bytes are drawn again while the
/// draw is all zero; should the generator yield zeros for every one of
/// `MAX_DRAWS` draws, the first byte is set to one, so that an all-zero IV
/// or salt never leaves this function.
pub fn random_iv_or_salt(iv_or_salt: &mut [u8])
    ensures
        final(iv_or_salt)@.len() == old(iv_or_salt)@.len(),
        old(iv_or_salt)@.len() == 0 ==> final(iv_or_salt)@ == old(iv_or_salt)@,
        old(iv_or_salt)@.len() > 0 ==> !all_zero(final(iv_or_salt)@),
{
    if iv_or_salt.len() == 0 {
        return;
    }
    fill_from_thread_rng(iv_or_salt);
    let mut draws: u64 = 1;
    while draws < MAX_DRAWS && is_all_zero(iv_or_salt)
        invariant
            iv_or_salt@.len() == old(iv_or_salt)@.len(),
            iv_or_salt@.len() > 0,
        decreases MAX_DRAWS - draws,
    {
        fill_from_thread_rng(iv_or_salt);
        draws = draws + 1;
    }
    if is_all_zero(iv_or_salt) {
        iv_or_salt[0] = 1;
        assert(iv_or_salt@[0] != 0);
    }
}

} // verus!
