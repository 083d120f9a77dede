//! Monotonic 24-byte nonce counter for the XChaCha20-Poly1305 cipher.
//!
//! The counter advances once per encryption under a given key and never
//! repeats a value: each step raises the first byte (starting from the
//! least-significant end) that has not yet reached its maximum, so the
//! little-endian numeric value of the counter strictly increases.  When
//! every byte is saturated the counter refuses to advance
//! (`NonceExhausted`) instead of wrapping around, because nonce reuse under
//! one key breaks the cipher's confidentiality.

use vstd::bytes::{lemma_auto_spec_u64_to_from_le_bytes, spec_u64_to_le_bytes, u64_to_le_bytes};
use vstd::prelude::*;

verus! {

/// Width of an XChaCha20-Poly1305 nonce in bytes.
pub const NONCE_LEN: usize = 24;

#[derive(Debug, Clone, Copy, PartialEq, Eq, Structural)]
pub enum NonceError {
    /// The slice used to initialize the counter must be exactly 24 bytes.
    IncorrectNonceLength,
    /// Every byte is saturated; the counter cannot advance again.
    NonceExhausted,
}

/// True when every byte of the counter is at its maximum.
pub open spec fn nonce_spent(s: Seq<u8>) -> bool {
    forall|i: int| 0 <= i < s.len() ==> s[i] == 255
}

/// Index of the first byte that has not reached its maximum.
pub open spec fn first_free(s: Seq<u8>) -> int
    decreases s.len(),
{
    if s.len() == 0 {
        0
    } else if s[0] != 255 {
        0
    } else {
        1 + first_free(s.drop_first())
    }
}

/// The counter after one step: the first non-saturated byte is raised by
/// one and every other byte keeps its value.
pub open spec fn advanced(s: Seq<u8>) -> Seq<u8> {
    s.update(first_free(s), (s[first_free(s)] + 1) as u8)
}

/// The all-zero counter value a fresh key starts from.
pub open spec fn zero_nonce() -> Seq<u8> {
    Seq::new(NONCE_LEN as nat, |i: int| 0u8)
}

/// The counter state that stands for the `n`-th use of a long-lived
/// key: the index in the low eight bytes, zeroes above.  Reseeding a
/// re-unwrapped key from a persisted, strictly growing index keeps its
/// nonces unique across sessions.
pub open spec fn index_nonce(n: u64) -> Seq<u8> {
    spec_u64_to_le_bytes(n) + Seq::new((NONCE_LEN - 8) as nat, |i: int| 0u8)
}

/// Distinct indices seed distinct counter states: the index occupies
/// the low eight bytes and is recoverable from them, so wraps seeded
/// from a strictly growing index never share a nonce.
pub proof fn lemma_index_nonce_injective(a: u64, b: u64)
    requires
        a != b,
    ensures
        index_nonce(a) != index_nonce(b),
{
    lemma_auto_spec_u64_to_from_le_bytes();
    if index_nonce(a) == index_nonce(b) {
        assert(index_nonce(a).subrange(0, 8) =~= spec_u64_to_le_bytes(a));
        assert(index_nonce(b).subrange(0, 8) =~= spec_u64_to_le_bytes(b));
        assert(vstd::bytes::spec_u64_from_le_bytes(spec_u64_to_le_bytes(a)) == a);
        assert(vstd::bytes::spec_u64_from_le_bytes(spec_u64_to_le_bytes(b)) == b);
    }
}

/// An index-seeded counter is far from spent, before and after one
/// step: its high bytes are zero.
pub proof fn lemma_index_nonce_fresh(n: u64)
    ensures
        index_nonce(n).len() == NONCE_LEN,
        !nonce_spent(index_nonce(n)),
        !nonce_spent(advanced(index_nonce(n))),
{
    lemma_auto_spec_u64_to_from_le_bytes();
    let s = index_nonce(n);
    assert(s[8] == 0);
    lemma_first_free_in_range(s, 8);
    assert(advanced(s)[23] == 0);
}

/// Powers of 256, the weight of each byte position.
pub open spec fn pow256(n: nat) -> nat
    decreases n,
{
    if n == 0 {
        1
    } else {
        256 * pow256((n - 1) as nat)
    }
}

proof fn lemma_pow256_positive(n: nat)
    ensures
        pow256(n) >= 1,
    decreases n,
{
    if n > 0 {
        lemma_pow256_positive((n - 1) as nat);
    }
}

/// The counter read as a little-endian number.
pub open spec fn counter_value(s: Seq<u8>) -> nat
    decreases s.len(),
{
    if s.len() == 0 {
        0
    } else {
        (s[0] + 256 * counter_value(s.drop_first())) as nat
    }
}

#[derive(Debug)]
pub struct NonceCounter {
    inner: Vec<u8>,
}

impl Clone for NonceCounter {
    fn clone(&self) -> (r: Self)
        ensures
            r@ == self@,
    {
        let r = NonceCounter { inner: self.inner.clone() };
        assert(r@ =~= self@);
        r
    }
}

impl View for NonceCounter {
    type V = Seq<u8>;

    closed spec fn view(&self) -> Seq<u8> {
        self.inner@
    }
}

impl NonceCounter {
    /// Well-formed counters hold exactly one nonce width of bytes.
    pub open spec fn wf(&self) -> bool {
        self@.len() == NONCE_LEN
    }

    /// Builds a counter from exactly 24 bytes; any other length is
    /// rejected.
    pub fn new(value: &[u8]) -> (r: Result<Self, NonceError>)
        ensures
            value@.len() == NONCE_LEN ==> (r matches Ok(c) && c@ == value@ && c.wf()),
            value@.len() != NONCE_LEN ==> (r matches Err(e)
                && e == NonceError::IncorrectNonceLength),
    {
        if value.len() == NONCE_LEN {
            let mut inner: Vec<u8> = Vec::new();
            let mut i: usize = 0;
            while i < NONCE_LEN
                invariant
                    i <= NONCE_LEN,
                    value@.len() == NONCE_LEN,
                    inner@ == value@.subrange(0, i as int),
                decreases NONCE_LEN - i,
            {
                inner.push(value[i]);
                i = i + 1;
                assert(inner@ == value@.subrange(0, i as int));
            }
            assert(inner@ == value@);
            Ok(NonceCounter { inner })
        } else {
            Err(NonceError::IncorrectNonceLength)
        }
    }

    /// The current counter bytes; a pure read.
    pub fn get_value(&self) -> (r: Vec<u8>)
        ensures
            r@ == self@,
    {
        self.inner.clone()
    }

    /// Advances the counter, or reports `NonceExhausted` when every byte
    /// is already at its maximum; on failure the counter is untouched.
    pub fn increment(&mut self) -> (r: Result<(), NonceError>)
        requires
            old(self).wf(),
        ensures
            final(self).wf(),
            nonce_spent(old(self)@) ==> (r matches Err(e) && e == NonceError::NonceExhausted
                && final(self)@ == old(self)@),
            !nonce_spent(old(self)@) ==> (r matches Ok(u) && final(self)@ == advanced(
                old(self)@,
            )),
    {
        let ghost s = old(self)@;
        let idx = first_free_index(&self.inner);
        if idx == NONCE_LEN {
            assert(nonce_spent(s));
            Err(NonceError::NonceExhausted)
        } else {
            proof {
                lemma_first_free_at(s, idx as int);
            }
            let byte = self.inner[idx];
            self.inner[idx] = byte + 1;
            assert(self@ =~= advanced(s));
            assert(!nonce_spent(s));
            Ok(())
        }
    }
}

impl NonceCounter {
    /// The counter state for the `n`-th use of a long-lived key; used
    /// to reseed a re-unwrapped key so that its nonces advance past
    /// every earlier use.
    pub fn from_index(n: u64) -> (r: Self)
        ensures
            r@ == index_nonce(n),
            r.wf(),
    {
        proof {
            lemma_auto_spec_u64_to_from_le_bytes();
        }
        let mut inner = u64_to_le_bytes(n);
        let mut i: usize = 0;
        while i < NONCE_LEN - 8
            invariant
                i <= NONCE_LEN - 8,
                inner@ == spec_u64_to_le_bytes(n) + Seq::new(i as nat, |j: int| 0u8),
            decreases NONCE_LEN - 8 - i,
        {
            inner.push(0);
            i = i + 1;
            assert(inner@ =~= spec_u64_to_le_bytes(n) + Seq::new(i as nat, |j: int| 0u8));
        }
        NonceCounter { inner }
    }
}

/// Index of the first byte below the maximum, or the length when every
/// byte is saturated.
fn first_free_index(v: &Vec<u8>) -> (r: usize)
    ensures
        r <= v@.len(),
        forall|j: int| 0 <= j < r ==> v@[j] == 255,
        r < v@.len() ==> v@[r as int] != 255,
{
    let mut i: usize = 0;
    while i < v.len()
        invariant
            i <= v@.len(),
            forall|j: int| 0 <= j < i ==> v@[j] == 255,
        decreases v@.len() - i,
    {
        if v[i] != 255 {
            return i;
        }
        i = i + 1;
    }
    i
}

impl Default for NonceCounter {
    /// A fresh counter of 24 zero bytes.
    fn default() -> (r: Self)
        ensures
            r.wf(),
            r@ == zero_nonce(),
            counter_value(r@) == 0,
    {
        let mut inner: Vec<u8> = Vec::new();
        let mut i: usize = 0;
        while i < NONCE_LEN
            invariant
                i <= NONCE_LEN,
                inner@ == Seq::new(i as nat, |j: int| 0u8),
            decreases NONCE_LEN - i,
        {
            inner.push(0);
            i = i + 1;
            assert(inner@ =~= Seq::new(i as nat, |j: int| 0u8));
        }
        let r = NonceCounter { inner };
        proof {
            lemma_zero_counter_value(r@);
        }
        r
    }
}

/// Characterizes `first_free`: it is the index of the first byte below the
/// maximum.
pub proof fn lemma_first_free_at(s: Seq<u8>, i: int)
    requires
        0 <= i < s.len(),
        s[i] != 255,
        forall|j: int| 0 <= j < i ==> s[j] == 255,
    ensures
        first_free(s) == i,
    decreases i,
{
    if i > 0 {
        let rest = s.drop_first();
        assert(rest[i - 1] == s[i]);
        assert(forall|j: int| 0 <= j < i - 1 ==> rest[j] == s[j + 1] && s[j + 1] == 255);
        lemma_first_free_at(rest, i - 1);
    }
}

/// A sequence of all-zero bytes reads as the number zero.
proof fn lemma_zero_counter_value(s: Seq<u8>)
    requires
        forall|i: int| 0 <= i < s.len() ==> s[i] == 0,
    ensures
        counter_value(s) == 0,
    decreases s.len(),
{
    if s.len() > 0 {
        lemma_zero_counter_value(s.drop_first());
    }
}

/// Raising the byte at position `i` by one raises the counter's value by
/// exactly `256^i`.
proof fn lemma_counter_value_update(s: Seq<u8>, i: int)
    requires
        0 <= i < s.len(),
        s[i] != 255,
    ensures
        counter_value(s.update(i, (s[i] + 1) as u8)) == counter_value(s) + pow256(i as nat),
    decreases i,
{
    let t = s.update(i, (s[i] + 1) as u8);
    if i == 0 {
        assert(t.drop_first() =~= s.drop_first());
        assert(counter_value(t) == (t[0] + 256 * counter_value(t.drop_first())) as nat);
    } else {
        assert(t.drop_first() =~= s.drop_first().update(i - 1, (s[i] + 1) as u8));
        assert(s.drop_first()[i - 1] == s[i]);
        lemma_counter_value_update(s.drop_first(), i - 1);
        assert(t[0] == s[0]);
        assert(counter_value(t) == (t[0] + 256 * counter_value(t.drop_first())) as nat);
        assert(counter_value(t) == s[0] + 256 * (counter_value(s.drop_first()) + pow256(
            (i - 1) as nat,
        )));
        assert(256 * (counter_value(s.drop_first()) + pow256((i - 1) as nat)) == 256
            * counter_value(s.drop_first()) + 256 * pow256((i - 1) as nat));
        assert(pow256(i as nat) == 256 * pow256((i - 1) as nat));
    }
}

/// One step of the counter strictly increases its numeric value.
pub proof fn lemma_advanced_increases(s: Seq<u8>)
    requires
        s.len() > 0,
        !nonce_spent(s),
    ensures
        counter_value(advanced(s)) > counter_value(s),
{
    let i = choose|i: int| 0 <= i < s.len() && s[i] != 255;
    lemma_first_free_in_range(s, i);
    lemma_counter_value_update(s, first_free(s));
    lemma_pow256_positive(first_free(s) as nat);
}

/// While some byte is below the maximum, `first_free` lands on a byte
/// below the maximum.
proof fn lemma_first_free_in_range(s: Seq<u8>, w: int)
    requires
        0 <= w < s.len(),
        s[w] != 255,
    ensures
        0 <= first_free(s) <= w,
        s[first_free(s)] != 255,
    decreases w,
{
    if s[0] != 255 {
    } else {
        let rest = s.drop_first();
        assert(rest[w - 1] == s[w]);
        lemma_first_free_in_range(rest, w - 1);
        assert(s[first_free(s)] == rest[first_free(rest)]);
    }
}

/// Nonce monotonicity: along any run of encryptions under one key, the
/// counter states - each one step of `advanced` past the last, exactly
/// as `increment` leaves them - are pairwise distinct, so no nonce is
/// ever used twice under that key.
pub proof fn lemma_nonce_monotonicity(states: Seq<Seq<u8>>)
    requires
        forall|i: int| 0 <= i < states.len() ==> (#[trigger] states[i]).len() == NONCE_LEN,
        forall|i: int|
            0 <= i < states.len() - 1 ==> !nonce_spent(#[trigger] states[i]) && states[i + 1]
                == advanced(states[i]),
    ensures
        forall|i: int, j: int| 0 <= i < j < states.len() ==> states[i] != states[j],
{
    assert forall|i: int|
        0 <= i < states.len() - 1 implies counter_value(#[trigger] states[i]) < counter_value(
        states[i + 1],
    ) by {
        lemma_advanced_increases(states[i]);
    }
    lemma_increasing_nonces_distinct(states);
}

/// Counters whose values strictly increase along a sequence of states are
/// pairwise distinct: no nonce is ever used twice.
pub proof fn lemma_increasing_nonces_distinct(ns: Seq<Seq<u8>>)
    requires
        forall|i: int|
            0 <= i < ns.len() - 1 ==> counter_value(#[trigger] ns[i]) < counter_value(ns[i + 1]),
    ensures
        forall|i: int, j: int| 0 <= i < j < ns.len() ==> ns[i] != ns[j],
{
    assert forall|i: int, j: int| 0 <= i < j < ns.len() implies ns[i] != ns[j] by {
        lemma_value_chain(ns, i, j);
    }
}

/// Transitivity of the strict increase along the chain of states.
proof fn lemma_value_chain(ns: Seq<Seq<u8>>, i: int, j: int)
    requires
        forall|k: int|
            0 <= k < ns.len() - 1 ==> counter_value(#[trigger] ns[k]) < counter_value(ns[k + 1]),
        0 <= i < j < ns.len(),
    ensures
        counter_value(ns[i]) < counter_value(ns[j]),
    decreases j - i,
{
    if j > i + 1 {
        lemma_value_chain(ns, i, j - 1);
    }
}

} // verus!
