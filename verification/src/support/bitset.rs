//! A growable bitmap over unsigned indices, stored as 32-bit buckets.
//!
//! `set(true, i)` grows the storage to cover `i`; `get(i)` treats bits past
//! the storage as implicit zeros; the count of ones is maintained exactly, so
//! `count_ones() + count_zeros() == len()` holds after every operation.

use vstd::prelude::*;

verus! {

/// Whether bit `q` of the word `w` is one.
pub open spec fn bit_at(w: u32, q: u32) -> bool {
    (w >> q) & 1u32 == 1u32
}

/// How many entries of `s` are true.
pub open spec fn count_trues(s: Seq<bool>) -> nat
    decreases s.len(),
{
    if s.len() == 0 {
        0
    } else {
        count_trues(s.drop_last()) + if s.last() {
            1nat
        } else {
            0nat
        }
    }
}

/// `s` extended with trailing false bits up to length `n` (unchanged when it
/// is already that long).
pub open spec fn padded(s: Seq<bool>, n: int) -> Seq<bool> {
    if s.len() >= n {
        s
    } else {
        s + Seq::new((n - s.len()) as nat, |j: int| false)
    }
}

/// Splitting a sequence splits its count of ones.
pub proof fn lemma_count_trues_add(a: Seq<bool>, b: Seq<bool>)
    ensures
        count_trues(a + b) == count_trues(a) + count_trues(b),
    decreases b.len(),
{
    if b.len() == 0 {
        assert(a + b =~= a);
    } else {
        assert((a + b).drop_last() =~= a + b.drop_last());
        lemma_count_trues_add(a, b.drop_last());
    }
}

/// No sequence holds more ones than entries.
pub proof fn lemma_count_trues_le_len(s: Seq<bool>)
    ensures
        count_trues(s) <= s.len(),
    decreases s.len(),
{
    if s.len() != 0 {
        lemma_count_trues_le_len(s.drop_last());
    }
}

/// A sequence with a false entry holds strictly fewer ones than entries.
pub proof fn lemma_count_trues_lt_len(s: Seq<bool>, i: int)
    requires
        0 <= i < s.len(),
        !s[i],
    ensures
        count_trues(s) < s.len(),
    decreases s.len(),
{
    if i == s.len() - 1 {
        lemma_count_trues_le_len(s.drop_last());
    } else {
        lemma_count_trues_lt_len(s.drop_last(), i);
    }
}

/// A sequence with a true entry holds at least one one.
pub proof fn lemma_count_trues_pos(s: Seq<bool>, i: int)
    requires
        0 <= i < s.len(),
        s[i],
    ensures
        count_trues(s) >= 1,
    decreases s.len(),
{
    if i < s.len() - 1 {
        lemma_count_trues_pos(s.drop_last(), i);
    }
}

/// Updating one entry moves the count of ones by exactly the change of that
/// entry.
pub proof fn lemma_count_trues_update(s: Seq<bool>, i: int, b: bool)
    requires
        0 <= i < s.len(),
    ensures
        count_trues(s.update(i, b)) == count_trues(s) - (if s[i] {
            1int
        } else {
            0int
        }) + (if b {
            1int
        } else {
            0int
        }),
    decreases s.len(),
{
    if i == s.len() - 1 {
        assert(s.update(i, b).drop_last() =~= s.drop_last());
    } else {
        assert(s.update(i, b).drop_last() =~= s.drop_last().update(i, b));
        lemma_count_trues_update(s.drop_last(), i, b);
    }
}

/// A sequence of false entries holds no ones.
pub proof fn lemma_count_trues_falses(s: Seq<bool>)
    requires
        forall|i: int| 0 <= i < s.len() ==> !s[i],
    ensures
        count_trues(s) == 0,
    decreases s.len(),
{
    if s.len() != 0 {
        lemma_count_trues_falses(s.drop_last());
    }
}

/// Law: a write is read back. `set(val, index)` leaves the view that its
/// contract states; at position `index` that view holds exactly `val`, and
/// `get(index)` returns the view at that position (false past its length).
pub proof fn lemma_set_then_get(pre: Seq<bool>, index: int, val: bool)
    requires
        0 <= index,
    ensures
        val ==> index < padded(pre, (index / 32 + 1) * 32).len() && padded(
            pre,
            (index / 32 + 1) * 32,
        ).update(index, true)[index],
        !val && index < pre.len() ==> !pre.update(index, false)[index],
{
    vstd::arithmetic::div_mod::lemma_fundamental_div_mod(index, 32);
}

proof fn lemma_word_set_bit(w: u32, p: u32)
    by (bit_vector)
    requires
        p < 32,
    ensures
        forall|q: u32|
            q < 32 ==> #[trigger] bit_at(w | (1u32 << p), q) == if q == p {
                true
            } else {
                bit_at(w, q)
            },
{
}

proof fn lemma_word_clear_bit(w: u32, p: u32)
    by (bit_vector)
    requires
        p < 32,
    ensures
        forall|q: u32|
            q < 32 ==> #[trigger] bit_at(w & !(1u32 << p), q) == if q == p {
                false
            } else {
                bit_at(w, q)
            },
{
}

proof fn lemma_word_zero_bits()
    by (bit_vector)
    ensures
        forall|q: u32| !#[trigger] bit_at(0u32, q),
{
}

proof fn lemma_word_nonzero_bit_from(w: u32, q: u32)
    requires
        q < 32,
        w >> q != 0,
    ensures
        exists|p: u32| p < 32 && #[trigger] bit_at(w, p),
    decreases 32 - q,
{
    if (w >> q) & 1u32 == 1u32 {
        assert(bit_at(w, q));
    } else {
        assert(q < 31 && w >> (q + 1) != 0) by (bit_vector)
            requires
                q < 32,
                w >> q != 0,
                (w >> q) & 1u32 != 1u32,
        ;
        lemma_word_nonzero_bit_from(w, (q + 1) as u32);
    }
}

proof fn lemma_word_nonzero_bit(w: u32)
    requires
        w != 0,
    ensures
        exists|q: u32| q < 32 && #[trigger] bit_at(w, q),
{
    assert(w >> 0u32 == w) by (bit_vector);
    lemma_word_nonzero_bit_from(w, 0);
}

/// The bits of `s` written as characters, one `'1'` or `'0'` per bit.
pub open spec fn bit_chars(s: Seq<bool>) -> Seq<char> {
    Seq::new(
        s.len(),
        |i: int|
            if s[i] {
                '1'
            } else {
                '0'
            },
    )
}

/// Relies on String::push: appends exactly the given character at the end.
#[verifier::external_body]
fn push_char(s: &mut String, c: char)
    ensures
        final(s)@ == old(s)@.push(c),
{
    s.push(c);
}

/// A logical bit vector of unbounded length, backed by 32-bit buckets.
pub struct BitSet {
    count_ones: usize,
    buckets: Vec<u32>,
}

impl BitSet {
    /// The logical bits, one per position of the backing buckets.
    pub closed spec fn view(&self) -> Seq<bool> {
        Seq::new(
            (self.buckets@.len() * 32) as nat,
            |i: int| bit_at(self.buckets@[i / 32], (i % 32) as u32),
        )
    }

    /// The maintained count of ones matches the view, and the total number
    /// of addressable bits fits the machine word.
    pub closed spec fn wf(&self) -> bool {
        &&& self.count_ones == count_trues(self@)
        &&& self.buckets@.len() * 32 <= usize::MAX
    }

    pub fn new() -> (b: Self)
        ensures
            b@ == Seq::<bool>::empty(),
            b.wf(),
    {
        let b = Self { count_ones: 0, buckets: Vec::new() };
        proof {
            assert(b@ =~= Seq::<bool>::empty());
        }
        b
    }

    /// The total number of addressable bits: always a whole number of
    /// buckets.
    pub fn len(&self) -> (n: usize)
        requires
            self.wf(),
        ensures
            n == self@.len(),
            n % 32 == 0,
    {
        self.buckets.len() * 32
    }

    /// Reads bit `index`; a bit past the storage is an implicit zero.
    pub fn get(&self, index: usize) -> (b: bool)
        ensures
            b == (index < self@.len() && self@[index as int]),
    {
        let num_bucket = index / 32;
        if num_bucket >= self.buckets.len() {
            return false;
        }
        let bit_pos: u32 = (index % 32) as u32;
        (self.buckets[num_bucket] >> bit_pos) & 1u32 == 1u32
    }

    /// Writes bit `index`. Setting a bit grows the storage to cover it;
    /// clearing a bit past the storage is a no-op, since that bit is already
    /// an implicit zero.
    pub fn set(&mut self, val: bool, index: usize)
        requires
            old(self).wf(),
            index < usize::MAX - 31,
        ensures
            final(self).wf(),
            val ==> final(self)@ == padded(old(self)@, (index / 32 + 1) * 32).update(
                index as int,
                true,
            ),
            !val && index < old(self)@.len() ==> final(self)@ == old(self)@.update(
                index as int,
                false,
            ),
            !val && index >= old(self)@.len() ==> final(self)@ == old(self)@,
    {
        proof {
            vstd::arithmetic::div_mod::lemma_fundamental_div_mod(index as int, 32);
        }
        let num_bucket = index / 32;
        let bit_pos: u32 = (index % 32) as u32;
        if val {
            let ghost pre = self@;
            if num_bucket >= self.buckets.len() {
                let ghost orig_buckets = self.buckets@;
                while self.buckets.len() < num_bucket + 1
                    invariant
                        num_bucket < usize::MAX / 32,
                        self.count_ones == old(self).count_ones,
                        self.buckets@.len() >= orig_buckets.len(),
                        self.buckets@.len() <= num_bucket + 1,
                        forall|j: int|
                            0 <= j < orig_buckets.len() ==> self.buckets@[j] == orig_buckets[j],
                        forall|j: int|
                            orig_buckets.len() <= j < self.buckets@.len() ==> self.buckets@[j]
                                == 0,
                    decreases num_bucket + 1 - self.buckets@.len(),
                {
                    self.buckets.push(0);
                }
                proof {
                    lemma_word_zero_bits();
                    assert(self.buckets@.len() * 32 <= usize::MAX);
                    assert(self@ =~= padded(pre, (index / 32 + 1) * 32));
                    lemma_count_trues_add(
                        pre,
                        Seq::new((self@.len() - pre.len()) as nat, |j: int| false),
                    );
                    assert(pre + Seq::new((self@.len() - pre.len()) as nat, |j: int| false) =~= self@);
                    lemma_count_trues_falses(
                        Seq::new((self@.len() - pre.len()) as nat, |j: int| false),
                    );
                }
            }
            let ghost grown = self@;
            proof {
                assert(grown == padded(pre, (index / 32 + 1) * 32));
                assert(count_trues(grown) == count_trues(pre));
            }
            let w = self.buckets[num_bucket];
            if (w >> bit_pos) & 1u32 == 1u32 {
                proof {
                    assert(grown.update(index as int, true) =~= grown);
                }
            } else {
                self.buckets[num_bucket] = w | (1u32 << bit_pos);
                proof {
                    lemma_word_set_bit(w, bit_pos);
                    assert(self@ =~= grown.update(index as int, true));
                    lemma_count_trues_update(grown, index as int, true);
                    lemma_count_trues_lt_len(grown, index as int);
                    assert(self.count_ones < grown.len() <= usize::MAX);
                }
                self.count_ones = self.count_ones + 1;
            }
        } else {
            if num_bucket < self.buckets.len() {
                let w = self.buckets[num_bucket];
                if (w >> bit_pos) & 1u32 == 1u32 {
                    let ghost pre = self@;
                    self.buckets[num_bucket] = w & !(1u32 << bit_pos);
                    proof {
                        lemma_word_clear_bit(w, bit_pos);
                        assert(self@ =~= pre.update(index as int, false));
                        lemma_count_trues_update(pre, index as int, false);
                        lemma_count_trues_pos(pre, index as int);
                    }
                    self.count_ones = self.count_ones - 1;
                } else {
                    proof {
                        assert(self@.update(index as int, false) =~= self@);
                    }
                }
            }
        }
    }

    /// How many bits are one.
    pub fn count_ones(&self) -> (n: usize)
        requires
            self.wf(),
        ensures
            n == count_trues(self@),
    {
        self.count_ones
    }

    /// How many addressable bits are zero.
    pub fn count_zeros(&self) -> (n: usize)
        requires
            self.wf(),
        ensures
            n == self@.len() - count_trues(self@),
    {
        proof {
            lemma_count_trues_le_len(self@);
        }
        self.buckets.len() * 32 - self.count_ones
    }

    /// The bits written as text, lowest index first: `'1'` for a one bit,
    /// `'0'` for a zero bit.
    pub fn to_string(&self) -> (s: String)
        requires
            self.wf(),
        ensures
            s@ == bit_chars(self@),
    {
        let mut s = String::new();
        let n = self.len();
        let mut i: usize = 0;
        while i < n
            invariant
                self.wf(),
                n == self@.len(),
                0 <= i <= n,
                s@ == bit_chars(self@.take(i as int)),
            decreases n - i,
        {
            if self.get(i) {
                push_char(&mut s, '1');
            } else {
                push_char(&mut s, '0');
            }
            proof {
                assert(bit_chars(self@.take(i + 1)) =~= bit_chars(self@.take(i as int)).push(
                    if self@[i as int] {
                        '1'
                    } else {
                        '0'
                    },
                ));
            }
            i = i + 1;
        }
        proof {
            assert(self@.take(n as int) =~= self@);
        }
        s
    }

    /// Drops trailing all-zero buckets: the view shrinks to the shortest
    /// whole number of buckets that still covers every one bit.
    pub fn shirnk_zero(&mut self)
        requires
            old(self).wf(),
        ensures
            final(self).wf(),
            final(self)@.len() <= old(self)@.len(),
            final(self)@ == old(self)@.take(final(self)@.len() as int),
            final(self)@.len() % 32 == 0,
            forall|j: int| final(self)@.len() <= j < old(self)@.len() ==> !old(self)@[j],
            final(self)@.len() > 0 ==> exists|j: int|
                final(self)@.len() - 32 <= j < final(self)@.len() && final(self)@[j],
    {
        while self.buckets.len() > 0 && self.buckets[self.buckets.len() - 1] == 0
            invariant
                old(self).wf(),
                self.count_ones == old(self).count_ones,
                self.buckets@.len() <= old(self).buckets@.len(),
                self.buckets@ == old(self).buckets@.take(self.buckets@.len() as int),
                forall|j: int|
                    self.buckets@.len() <= j < old(self).buckets@.len() ==> old(self).buckets@[j] == 0,
            decreases self.buckets@.len(),
        {
            self.buckets.pop();
        }
        proof {
            lemma_word_zero_bits();
            assert(self@ =~= old(self)@.take(self@.len() as int));
            assert(old(self)@ =~= self@ + old(self)@.skip(self@.len() as int));
            lemma_count_trues_add(self@, old(self)@.skip(self@.len() as int));
            lemma_count_trues_falses(old(self)@.skip(self@.len() as int));
            if self.buckets@.len() > 0 {
                let w = self.buckets@.last();
                lemma_word_nonzero_bit(w);
                let q = choose|q: u32| q < 32 && #[trigger] bit_at(w, q);
                assert(self@[(self.buckets@.len() - 1) * 32 + q]);
            }
        }
    }
}

} // verus!
