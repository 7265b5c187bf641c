//! Position-keyed group-marker counters.
//!
//! `left[i]` is how many group-open markers render immediately before
//! predicate `i`; `right[i]` how many group-close markers render there
//! (close markers at positions at or past the end of the predicate list
//! flush at the end of the clause). Keeping counts by absolute position
//! lets several nested groups share a boundary without an explicit tree.

use vstd::prelude::*;

verus! {

/// The count recorded at position `i`: positions outside the vector hold 0.
pub open spec fn count_at(s: Seq<usize>, i: int) -> usize {
    if 0 <= i < s.len() {
        s[i]
    } else {
        0
    }
}

/// `s` extended with zero counts so that position `n - 1` exists.
pub open spec fn pad_to(s: Seq<usize>, n: int) -> Seq<usize> {
    if s.len() >= n {
        s
    } else {
        s + Seq::new((n - s.len()) as nat, |j: int| 0usize)
    }
}

/// The counters with `count` more recorded at position `i`.
pub open spec fn bump_by(s: Seq<usize>, i: int, count: usize) -> Seq<usize>
    recommends
        0 <= i,
        count_at(s, i) + count <= usize::MAX,
{
    pad_to(s, i + 1).update(i, (count_at(s, i) + count) as usize)
}

/// The counters with position `i` cleared to zero.
pub open spec fn clear_at(s: Seq<usize>, i: int) -> Seq<usize> {
    if 0 <= i < s.len() {
        s.update(i, 0usize)
    } else {
        s
    }
}

/// The total of all recorded counts.
pub open spec fn sum_counts(s: Seq<usize>) -> nat
    decreases s.len(),
{
    if s.len() == 0 {
        0
    } else {
        sum_counts(s.drop_last()) + s.last() as nat
    }
}

/// Group-open and group-close counts, keyed by predicate position.
pub struct Bracket {
    pub left: Vec<usize>,
    pub right: Vec<usize>,
}

impl Bracket {
    /// The open-marker count rendered before position `i`.
    pub open spec fn left_at(&self, i: int) -> usize {
        count_at(self.left@, i)
    }

    /// The close-marker count rendered before position `i`.
    pub open spec fn right_at(&self, i: int) -> usize {
        count_at(self.right@, i)
    }

    /// A tracker with no group markers recorded.
    pub fn new() -> (r: Self)
        ensures
            r.left@ == Seq::<usize>::empty(),
            r.right@ == Seq::<usize>::empty(),
    {
        Bracket { left: Vec::new(), right: Vec::new() }
    }

    /// Records `count` more open markers at position `index`.
    pub fn inc_left_count(&mut self, index: usize, count: usize)
        requires
            index < usize::MAX,
            count_at(old(self).left@, index as int) + count <= usize::MAX,
        ensures
            final(self).left@ == bump_by(old(self).left@, index as int, count),
            final(self).right == old(self).right,
    {
        grow_to(&mut self.left, index + 1);
        let cur = self.left[index];
        self.left[index] = cur + count;
    }

    /// Records `count` more close markers at position `index`.
    pub fn inc_right_count(&mut self, index: usize, count: usize)
        requires
            index < usize::MAX,
            count_at(old(self).right@, index as int) + count <= usize::MAX,
        ensures
            final(self).right@ == bump_by(old(self).right@, index as int, count),
            final(self).left == old(self).left,
    {
        grow_to(&mut self.right, index + 1);
        let cur = self.right[index];
        self.right[index] = cur + count;
    }

    /// Records one more open marker at position `index`.
    pub fn inc_left(&mut self, index: usize)
        requires
            index < usize::MAX,
            count_at(old(self).left@, index as int) < usize::MAX,
        ensures
            final(self).left@ == bump_by(old(self).left@, index as int, 1),
            final(self).right == old(self).right,
    {
        self.inc_left_count(index, 1);
    }

    /// Records one more close marker at position `index`.
    pub fn inc_right(&mut self, index: usize)
        requires
            index < usize::MAX,
            count_at(old(self).right@, index as int) < usize::MAX,
        ensures
            final(self).right@ == bump_by(old(self).right@, index as int, 1),
            final(self).left == old(self).left,
    {
        self.inc_right_count(index, 1);
    }

    /// Takes all open markers recorded at position `index`, leaving none.
    pub fn dec_all_left(&mut self, index: usize) -> (r: usize)
        ensures
            r == old(self).left_at(index as int),
            final(self).left@ == clear_at(old(self).left@, index as int),
            final(self).right == old(self).right,
    {
        if index < self.left.len() {
            let r = self.left[index];
            self.left[index] = 0;
            r
        } else {
            0
        }
    }

    /// Takes all close markers recorded at position `index`, leaving none.
    pub fn dec_all_right(&mut self, index: usize) -> (r: usize)
        ensures
            r == old(self).right_at(index as int),
            final(self).right@ == clear_at(old(self).right@, index as int),
            final(self).left == old(self).left,
    {
        if index < self.right.len() {
            let r = self.right[index];
            self.right[index] = 0;
            r
        } else {
            0
        }
    }

    /// Reads the open-marker count at position `index` without changing it.
    pub fn get_left(&self, index: usize) -> (r: usize)
        ensures
            r == self.left_at(index as int),
    {
        if index < self.left.len() {
            self.left[index]
        } else {
            0
        }
    }

    /// Reads the close-marker count at position `index` without changing it.
    pub fn get_right(&self, index: usize) -> (r: usize)
        ensures
            r == self.right_at(index as int),
    {
        if index < self.right.len() {
            self.right[index]
        } else {
            0
        }
    }
}

/// Extends `v` with zero counts until position `n - 1` exists.
fn grow_to(v: &mut Vec<usize>, n: usize)
    ensures
        final(v)@ == pad_to(old(v)@, n as int),
{
    while v.len() < n
        invariant
            v@.len() <= n || v@ == old(v)@,
            v@ == pad_to(old(v)@, v@.len() as int),
        decreases n - v@.len(),
    {
        v.push(0);
        assert(v@ =~= pad_to(old(v)@, v@.len() as int));
    }
    assert(v@ =~= pad_to(old(v)@, n as int));
}

/// Adding `count` at one position raises the total by exactly `count`.
pub proof fn lemma_sum_bump(s: Seq<usize>, i: int, count: usize)
    requires
        0 <= i,
        count_at(s, i) + count <= usize::MAX,
    ensures
        sum_counts(bump_by(s, i, count)) == sum_counts(s) + count,
{
    lemma_sum_pad(s, i + 1);
    lemma_sum_update(pad_to(s, i + 1), i, (count_at(s, i) + count) as usize);
    assert(count_at(pad_to(s, i + 1), i) == count_at(s, i));
}

/// Padding with zero counts does not change the total.
pub proof fn lemma_sum_pad(s: Seq<usize>, n: int)
    ensures
        sum_counts(pad_to(s, n)) == sum_counts(s),
    decreases n - s.len(),
{
    if s.len() < n {
        let t = s.push(0usize);
        assert(t.drop_last() =~= s);
        assert(sum_counts(t) == sum_counts(s));
        lemma_sum_pad(t, n);
        assert(pad_to(s, n) =~= pad_to(t, n));
    } else {
        assert(pad_to(s, n) == s);
    }
}

/// Replacing the count at one position shifts the total by the difference.
pub proof fn lemma_sum_update(s: Seq<usize>, i: int, x: usize)
    requires
        0 <= i < s.len(),
    ensures
        sum_counts(s.update(i, x)) == sum_counts(s) - s[i] + x,
    decreases s.len(),
{
    let t = s.update(i, x);
    if i == s.len() - 1 {
        assert(t.drop_last() =~= s.drop_last());
        assert(t.last() == x);
    } else {
        lemma_sum_update(s.drop_last(), i, x);
        assert(t.drop_last() =~= s.drop_last().update(i, x));
        assert(t.last() == s.last());
    }
}

} // verus!
