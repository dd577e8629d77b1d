use std::collections::VecDeque;
use vstd::arithmetic::div_mod::{lemma_fundamental_div_mod, lemma_fundamental_div_mod_converse};
use vstd::prelude::*;

verus! {

/// One advance of a ring: the front element moves to the back.
pub open spec fn rotate_once<T>(s: Seq<T>) -> Seq<T> {
    s.drop_first().push(s[0])
}

/// The ring's sequence after `k` advances.
pub open spec fn rotated<T>(s: Seq<T>, k: nat) -> Seq<T>
    decreases k,
{
    if k == 0 {
        s
    } else {
        rotate_once(rotated(s, (k - 1) as nat))
    }
}

/// A non-empty circular sequence with a cursor on its front element.
pub struct Ring<T> {
    inner: VecDeque<T>,
}

impl<T> View for Ring<T> {
    type V = Seq<T>;

    /// The elements, starting at the cursor.
    closed spec fn view(&self) -> Seq<T> {
        self.inner@
    }
}

impl<T: Copy> Ring<T> {
    /// A ring is never empty.
    pub open spec fn wf(&self) -> bool {
        self@.len() > 0
    }

    /// Builds a ring over `ts` in order, with the cursor on the first element;
    /// `None` when `ts` is empty.
    pub fn from_iter(ts: Vec<T>) -> (r: Option<Self>)
        ensures
            r is None <==> ts@.len() == 0,
            r matches Some(ring) ==> ring.wf() && ring@ == ts@,
    {
        let mut inner: VecDeque<T> = VecDeque::new();
        let mut i: usize = 0;
        while i < ts.len()
            invariant
                i <= ts@.len(),
                inner@ == ts@.subrange(0, i as int),
            decreases ts@.len() - i,
        {
            inner.push_back(ts[i]);
            i = i + 1;
            assert(inner@ =~= ts@.subrange(0, i as int));
        }
        assert(inner@ =~= ts@);
        if inner.len() == 0 {
            return None;
        }
        Some(Ring { inner })
    }

    /// The element under the cursor.
    pub fn current(&self) -> (r: T)
        requires
            self.wf(),
        ensures
            r == self@[0],
    {
        self.inner[0]
    }

    /// Moves the cursor one place forward, wrapping from the last element to
    /// the first, and returns the new current element.
    pub fn next(&mut self) -> (r: T)
        requires
            old(self).wf(),
        ensures
            final(self).wf(),
            final(self)@ == rotate_once(old(self)@),
            r == final(self)@[0],
    {
        let first = self.inner.pop_front();
        match first {
            Some(x) => self.inner.push_back(x),
            None => {},
        }
        assert(self.inner@ =~= rotate_once(old(self)@));
        self.inner[0]
    }
}

/// After `k` advances the ring starts at its element `k mod n`, followed by the
/// rest in their original circular order.
pub proof fn lemma_rotated_is_shift<T>(s: Seq<T>, k: nat)
    requires
        s.len() > 0,
    ensures
        rotated(s, k) == s.subrange((k % s.len()) as int, s.len() as int) + s.subrange(
            0,
            (k % s.len()) as int,
        ),
    decreases k,
{
    let n = s.len() as int;
    if k == 0 {
        assert(s.subrange(0, n) + s.subrange(0, 0) =~= s);
    } else {
        let j = (k - 1) as nat;
        lemma_rotated_is_shift(s, j);
        let r = (j % s.len()) as int;
        lemma_fundamental_div_mod(j as int, n);
        let q = j as int / n;
        assert(j as int == q * n + r) by (nonlinear_arith)
            requires
                j as int == n * (j as int / n) + j as int % n,
                q == j as int / n,
                r == j as int % n,
        ;
        let prev = s.subrange(r, n) + s.subrange(0, r);
        assert(rotated(s, k) == rotate_once(prev));
        if r + 1 < n {
            lemma_fundamental_div_mod_converse(k as int, n, q, r + 1);
            assert(rotate_once(prev) =~= s.subrange(r + 1, n) + s.subrange(0, r + 1));
        } else {
            assert(k as int == (q + 1) * n + 0) by (nonlinear_arith)
                requires
                    k as int == q * n + r + 1,
                    r + 1 == n,
            ;
            lemma_fundamental_div_mod_converse(k as int, n, q + 1, 0);
            assert(rotate_once(prev) =~= s.subrange(0, n) + s.subrange(0, 0));
        }
    }
}

/// Advancing a ring as many times as it has elements brings it back to where
/// it started.
pub proof fn lemma_advance_full_cycle<T: Copy>(ring: Ring<T>)
    requires
        ring.wf(),
    ensures
        rotated(ring@, ring@.len()) == ring@,
{
    let s = ring@;
    lemma_rotated_is_shift(s, s.len());
    lemma_fundamental_div_mod_converse(s.len() as int, s.len() as int, 1, 0);
    assert(s.subrange(0, s.len() as int) + s.subrange(0, 0) =~= s);
}

/// However often a ring is advanced, its current element is one of the
/// elements it was built from: after `k` advances it is element `k mod n`.
pub proof fn lemma_advance_stays_in_set<T: Copy>(ring: Ring<T>, k: nat)
    requires
        ring.wf(),
    ensures
        rotated(ring@, k)[0] == ring@[(k % ring@.len()) as int],
        ring@.contains(rotated(ring@, k)[0]),
        rotated(ring@, k).len() == ring@.len(),
{
    let s = ring@;
    lemma_rotated_is_shift(s, k);
    let r = (k % s.len()) as int;
    assert(rotated(s, k)[0] == s[r]);
}

/// A ring of one element never changes on an advance.
pub proof fn lemma_single_element_fixed<T: Copy>(ring: Ring<T>, k: nat)
    requires
        ring.wf(),
        ring@.len() == 1,
    ensures
        rotated(ring@, k) == ring@,
        rotated(ring@, k)[0] == ring@[0],
{
    let s = ring@;
    lemma_rotated_is_shift(s, k);
    lemma_fundamental_div_mod(k as int, 1);
    assert(s.subrange(0, 1) + s.subrange(0, 0) =~= s);
}

} // verus!
