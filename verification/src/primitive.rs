//! A compact nonce counter for the 12-byte ChaCha20-Poly1305 nonce form:
//! a 96-bit value kept in a machine word, advanced by one per use and
//! read out as big-endian bytes.

use vstd::arithmetic::div_mod::lemma_div_denominator;
use vstd::prelude::*;

use crate::nonce_counter::pow256;

verus! {

/// Width of a ChaCha20-Poly1305 nonce in bytes.
pub const CHACHA_NONCE_LEN: usize = 12;

/// The largest value a 12-byte counter can reach.
pub const MAX_CHACHA_NONCE: u128 = 0xffff_ffff_ffff_ffff_ffff_ffff;

/// The low 96 bits of a value as 12 big-endian bytes.
pub open spec fn be12(x: u128) -> Seq<u8> {
    Seq::new(CHACHA_NONCE_LEN as nat, |i: int| ((x as int / pow256((11 - i) as nat) as int) % 256) as u8)
}

/// A monotonic 96-bit nonce counter.
#[derive(Debug, Clone, Copy)]
pub struct NonceCounter {
    value: u128,
}

impl View for NonceCounter {
    type V = u128;

    closed spec fn view(&self) -> u128 {
        self.value
    }
}

impl NonceCounter {
    /// A counter starting at the given value.
    pub fn with_initial(initial_value: u128) -> (r: Self)
        ensures
            r@ == initial_value,
    {
        Self { value: initial_value }
    }

    /// Advances the counter by one.  A counter at the top of its 96-bit
    /// range cannot advance: the caller must rotate the key first.
    pub fn advance(&mut self)
        requires
            old(self)@ < MAX_CHACHA_NONCE,
        ensures
            final(self)@ == old(self)@ + 1,
    {
        self.value = self.value + 1;
    }

    /// The counter as a 12-byte big-endian nonce.
    pub fn as_bytes(self) -> (r: Vec<u8>)
        ensures
            r@ == be12(self@),
    {
        let ghost x = self.value as int;
        let mut out: Vec<u8> = Vec::new();
        let mut rev: Vec<u8> = Vec::new();
        let mut v = self.value;
        let mut k: usize = 0;
        proof {
            assert(pow256(0) == 1);
        }
        while k < CHACHA_NONCE_LEN
            invariant
                k <= CHACHA_NONCE_LEN,
                x == self.value as int,
                x >= 0,
                v as int == x / pow256(k as nat) as int,
                rev@.len() == k,
                forall|j: int| 0 <= j < k ==> rev@[j] == be12(self@)[11 - j],
            decreases CHACHA_NONCE_LEN - k,
        {
            rev.push((v % 256) as u8);
            proof {
                assert(pow256((k + 1) as nat) == 256 * pow256(k as nat));
                assert(pow256(k as nat) > 0) by {
                    lemma_pow256_pos(k as nat);
                }
                lemma_div_denominator(x, pow256(k as nat) as int, 256);
                assert(pow256(k as nat) * 256 == 256 * pow256(k as nat)) by (nonlinear_arith);
            }
            v = v / 256;
            k = k + 1;
        }
        let mut i: usize = 0;
        while i < CHACHA_NONCE_LEN
            invariant
                i <= CHACHA_NONCE_LEN,
                rev@.len() == CHACHA_NONCE_LEN,
                out@.len() == i,
                forall|j: int| 0 <= j < rev@.len() ==> rev@[j] == be12(self@)[11 - j],
                forall|j: int| 0 <= j < i ==> out@[j] == be12(self@)[j],
            decreases CHACHA_NONCE_LEN - i,
        {
            out.push(rev[CHACHA_NONCE_LEN - 1 - i]);
            i = i + 1;
        }
        assert(out@ =~= be12(self@));
        out
    }
}

impl Default for NonceCounter {
    /// A counter starting at zero.
    fn default() -> (r: Self)
        ensures
            r@ == 0,
    {
        Self { value: 0 }
    }
}

proof fn lemma_pow256_pos(n: nat)
    ensures
        pow256(n) > 0,
    decreases n,
{
    if n > 0 {
        lemma_pow256_pos((n - 1) as nat);
    }
}

} // verus!
