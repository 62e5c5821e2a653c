use vstd::prelude::*;

verus! {

use vstd::arithmetic::div_mod::{lemma_fundamental_div_mod, lemma_div_pos_is_pos, lemma_mod_bound};
use crate::error::Error;
use crate::pattern::{Density, Length, Sequence, MAX_STEPS};

/// Number of onset (`true`) steps in a pattern.
pub open spec fn ones(s: Seq<bool>) -> int
    decreases s.len(),
{
    if s.len() == 0 {
        0
    } else {
        (if s[0] {
            1int
        } else {
            0int
        }) + ones(s.drop_first())
    }
}

/// `n` copies of `s`, one after the other.
pub open spec fn repeat_seq(n: int, s: Seq<bool>) -> Seq<bool>
    decreases n,
{
    if n <= 0 {
        Seq::empty()
    } else {
        repeat_seq(n - 1, s) + s
    }
}

/// The interleaving at the heart of Bjorklund's algorithm.  `a` and `b`
/// are the patterns built for the two previous levels, `divisor` and
/// `rem` the dividend and divisor of the current level of the
/// Euclidean-GCD-like reduction.  Each level nests `divisor / rem` copies
/// of `a` followed by one copy of `b`; the reduction stops when the next
/// remainder reaches one or zero, appending the final divisor as the last
/// count.
pub open spec fn bj_fold(a: Seq<bool>, b: Seq<bool>, divisor: int, rem: int) -> Seq<bool>
    decreases rem,
{
    if rem <= 0 {
        Seq::empty()
    } else {
        let count = divisor / rem;
        let next = divisor % rem;
        let merged = repeat_seq(count, a) + b;
        if next <= 1 {
            repeat_seq(rem, merged) + (if next == 1 {
                a
            } else {
                Seq::empty()
            })
        } else {
            bj_fold(merged, a, rem, next)
        }
    }
}

/// Index of the first onset of `s`; the length of `s` when it has none.
pub open spec fn first_true(s: Seq<bool>) -> int
    decreases s.len(),
{
    if s.len() == 0 {
        0
    } else if s[0] {
        0
    } else {
        1 + first_true(s.drop_first())
    }
}

/// `s` rotated left by `k` places.
pub open spec fn rotate_left_seq(s: Seq<bool>, k: int) -> Seq<bool> {
    s.subrange(k, s.len() as int) + s.subrange(0, k)
}

/// The Euclidean onset pattern for `density` onsets over `length` steps:
/// all rests when the density is zero, otherwise Bjorklund's interleaving
/// of one-step patterns, rotated left so the pattern starts on an onset.
pub open spec fn euclid_seq(density: int, length: int) -> Seq<bool> {
    if density <= 0 {
        Seq::new(length as nat, |i: int| false)
    } else {
        let p = bj_fold(seq![false], seq![true], length - density, density);
        rotate_left_seq(p, first_true(p))
    }
}

/// Onsets add up over concatenation.
proof fn lemma_ones_concat(a: Seq<bool>, b: Seq<bool>)
    ensures
        ones(a + b) == ones(a) + ones(b),
    decreases a.len(),
{
    if a.len() == 0 {
        assert(a + b =~= b);
    } else {
        assert((a + b).drop_first() =~= a.drop_first() + b);
        lemma_ones_concat(a.drop_first(), b);
    }
}

/// Length and onset count of a repetition.
proof fn lemma_repeat_counts(n: int, s: Seq<bool>)
    requires
        n >= 0,
    ensures
        repeat_seq(n, s).len() == n * s.len(),
        ones(repeat_seq(n, s)) == n * ones(s),
    decreases n,
{
    if n == 0 {
    } else {
        lemma_repeat_counts(n - 1, s);
        lemma_ones_concat(repeat_seq(n - 1, s), s);
        assert((n - 1) * s.len() + s.len() == n * s.len()) by (nonlinear_arith);
        assert((n - 1) * ones(s) + ones(s) == n * ones(s)) by (nonlinear_arith);
    }
}

/// Length and onset count of the interleaving: each copy of `a` and `b`
/// keeps its steps and onsets, so the result carries `divisor` copies of
/// `a` and `rem` copies of `b`.
proof fn lemma_bj_fold_counts(a: Seq<bool>, b: Seq<bool>, divisor: int, rem: int)
    requires
        1 <= rem,
        0 <= divisor,
    ensures
        bj_fold(a, b, divisor, rem).len() == divisor * a.len() + rem * b.len(),
        ones(bj_fold(a, b, divisor, rem)) == divisor * ones(a) + rem * ones(b),
    decreases rem,
{
    let count = divisor / rem;
    let next = divisor % rem;
    lemma_fundamental_div_mod(divisor, rem);
    lemma_div_pos_is_pos(divisor, rem);
    lemma_mod_bound(divisor, rem);
    let merged = repeat_seq(count, a) + b;
    lemma_repeat_counts(count, a);
    lemma_ones_concat(repeat_seq(count, a), b);
    let al = a.len() as int;
    let bl = b.len() as int;
    let ao = ones(a);
    let bo = ones(b);
    if next <= 1 {
        let tail = if next == 1 {
            a
        } else {
            Seq::<bool>::empty()
        };
        assert(bj_fold(a, b, divisor, rem) == repeat_seq(rem, merged) + tail);
        lemma_repeat_counts(rem, merged);
        if next == 1 {
            lemma_ones_concat(repeat_seq(rem, merged), a);
        } else {
            assert(repeat_seq(rem, merged) + tail =~= repeat_seq(rem, merged));
            assert(ones(Seq::<bool>::empty()) == 0);
        }
        assert(tail.len() == next * a.len() && ones(tail) == next * ones(a))
            by (nonlinear_arith)
            requires
                0 <= next <= 1,
                next == 1 ==> tail == a,
                next == 0 ==> tail.len() == 0 && ones(tail) == 0,
        ;
        assert(bj_fold(a, b, divisor, rem).len() == rem * merged.len() + next * a.len());
        assert(ones(bj_fold(a, b, divisor, rem)) == rem * ones(merged) + next * ones(a));
        assert(rem * (count * al + bl) + next * al == divisor * al + rem * bl) by (nonlinear_arith)
            requires
                divisor == rem * count + next,
        ;
        assert(rem * (count * ao + bo) + next * ao == divisor * ao + rem * bo) by (nonlinear_arith)
            requires
                divisor == rem * count + next,
        ;
    } else {
        lemma_bj_fold_counts(merged, a, rem, next);
        assert(rem * (count * al + bl) + next * al == divisor * al + rem * bl) by (nonlinear_arith)
            requires
                divisor == rem * count + next,
        ;
        assert(rem * (count * ao + bo) + next * ao == divisor * ao + rem * bo) by (nonlinear_arith)
            requires
                divisor == rem * count + next,
        ;
    }
}

/// A pattern with an onset has a first one: it lies within the pattern,
/// and only rests come before it.
proof fn lemma_first_true(s: Seq<bool>)
    requires
        ones(s) > 0,
    ensures
        0 <= first_true(s) < s.len(),
        s[first_true(s)],
        forall|j: int| 0 <= j < first_true(s) ==> !s[j],
    decreases s.len(),
{
    if s[0] {
    } else {
        lemma_first_true(s.drop_first());
        assert forall|j: int| 0 <= j < first_true(s) implies !s[j] by {
            if j >= 1 {
                assert(!s.drop_first()[j - 1]);
            }
        }
    }
}

/// Onsets split across a cut of the pattern.
proof fn lemma_ones_split(s: Seq<bool>, k: int)
    requires
        0 <= k <= s.len(),
    ensures
        ones(s) == ones(s.subrange(0, k)) + ones(s.subrange(k, s.len() as int)),
{
    assert(s =~= s.subrange(0, k) + s.subrange(k, s.len() as int));
    lemma_ones_concat(s.subrange(0, k), s.subrange(k, s.len() as int));
}

/// For every density and length with `0 <= density <= length`, the
/// Euclidean pattern has exactly `length` steps and `density` onsets, and
/// begins with an onset whenever the density is positive.
pub proof fn lemma_euclid_onsets(density: int, length: int)
    requires
        0 <= density <= length,
    ensures
        euclid_seq(density, length).len() == length,
        ones(euclid_seq(density, length)) == density,
        density > 0 ==> euclid_seq(density, length)[0],
{
    if density <= 0 {
        lemma_ones_all_false(length);
    } else {
        let a = seq![false];
        let b = seq![true];
        assert(ones(Seq::<bool>::empty()) == 0);
        assert(a.drop_first() =~= Seq::<bool>::empty());
        assert(b.drop_first() =~= Seq::<bool>::empty());
        assert(ones(a) == 0);
        assert(ones(b) == 1);
        lemma_bj_fold_counts(a, b, length - density, density);
        let p = bj_fold(a, b, length - density, density);
        assert(p.len() == length);
        assert(ones(p) == density);
        lemma_first_true(p);
        let k = first_true(p);
        lemma_ones_split(p, k);
        lemma_ones_concat(p.subrange(k, p.len() as int), p.subrange(0, k));
    }
}

/// The all-rest pattern has no onsets.
proof fn lemma_ones_all_false(n: int)
    requires
        n >= 0,
    ensures
        ones(Seq::new(n as nat, |i: int| false)) == 0,
    decreases n,
{
    if n > 0 {
        assert(Seq::new(n as nat, |i: int| false).drop_first() =~= Seq::new(
            (n - 1) as nat,
            |i: int| false,
        ));
        lemma_ones_all_false(n - 1);
    }
}

/// Append every step of `src` to `dst`.
fn append_all(dst: &mut Vec<bool>, src: &Vec<bool>)
    ensures
        final(dst)@ == old(dst)@ + src@,
{
    let ghost orig = dst@;
    let mut j: usize = 0;
    proof {
        assert(orig + src@.subrange(0, 0) =~= orig);
    }
    while j < src.len()
        invariant
            j <= src@.len(),
            dst@ == orig + src@.subrange(0, j as int),
        decreases src@.len() - j,
    {
        dst.push(src[j]);
        proof {
            assert(orig + src@.subrange(0, j as int) + seq![src@[j as int]] =~= orig
                + src@.subrange(0, (j + 1) as int));
        }
        j = j + 1;
    }
    proof {
        assert(src@.subrange(0, src@.len() as int) =~= src@);
    }
}

/// Append `n` copies of `src` to `dst`.
fn append_repeats(dst: &mut Vec<bool>, src: &Vec<bool>, n: u32)
    ensures
        final(dst)@ == old(dst)@ + repeat_seq(n as int, src@),
{
    let ghost orig = dst@;
    let mut i: u32 = 0;
    proof {
        assert(orig + repeat_seq(0, src@) =~= orig);
    }
    while i < n
        invariant
            i <= n,
            dst@ == orig + repeat_seq(i as int, src@),
        decreases n - i,
    {
        append_all(dst, src);
        proof {
            assert(repeat_seq((i + 1) as int, src@) == repeat_seq(i as int, src@) + src@);
            assert(orig + repeat_seq(i as int, src@) + src@ =~= orig + repeat_seq(
                (i + 1) as int,
                src@,
            ));
        }
        i = i + 1;
    }
}

/// One level of Bjorklund's interleaving, recursing down the remainders.
fn bj_expand(a: Vec<bool>, b: Vec<bool>, divisor: u32, rem: u32) -> (r: Vec<bool>)
    requires
        rem >= 1,
    ensures
        r@ == bj_fold(a@, b@, divisor as int, rem as int),
    decreases rem,
{
    let count: u32 = divisor / rem;
    let next: u32 = divisor % rem;
    let mut merged: Vec<bool> = Vec::new();
    append_repeats(&mut merged, &a, count);
    append_all(&mut merged, &b);
    proof {
        assert(merged@ =~= repeat_seq(count as int, a@) + b@);
    }
    if next <= 1 {
        let mut out: Vec<bool> = Vec::new();
        append_repeats(&mut out, &merged, rem);
        if next == 1 {
            append_all(&mut out, &a);
            proof {
                assert(out@ =~= repeat_seq(rem as int, merged@) + a@);
            }
        } else {
            proof {
                assert(out@ =~= repeat_seq(rem as int, merged@) + Seq::<bool>::empty());
            }
        }
        out
    } else {
        bj_expand(merged, a, rem, next)
    }
}

/// Fill `sequence` with the Euclidean onset pattern for `density` onsets
/// over `length` steps: onsets as evenly spaced as possible, rotated so
/// the pattern starts on an onset.  A zero length, a length above the
/// capacity or a density above the length is rejected, and the sequence
/// is left as it was.
pub fn euclid(d: Density, l: Length, sequence: &mut Sequence) -> (r: Result<(), Error>)
    ensures
        r is Ok <==> (1 <= l.0 <= MAX_STEPS && d.0 <= l.0),
        r is Ok ==> final(sequence)@ == euclid_seq(d.0 as int, l.0 as int)
            && final(sequence).wf(),
        r is Err ==> *final(sequence) == *old(sequence) && r == Err::<(), Error>(Error::Pattern),
{
    if l.0 < 1 || l.0 > (MAX_STEPS as u32) || d.0 > l.0 {
        return Err(Error::Pattern);
    }
    if d.0 == 0 {
        let mut steps: Vec<bool> = Vec::new();
        let mut i: u32 = 0;
        proof {
            assert(steps@ =~= Seq::new(0nat, |k: int| false));
        }
        while i < l.0
            invariant
                i <= l.0,
                steps@ == Seq::new(i as nat, |k: int| false),
            decreases l.0 - i,
        {
            steps.push(false);
            proof {
                assert(steps@ =~= Seq::new((i + 1) as nat, |k: int| false));
            }
            i = i + 1;
        }
        sequence.steps = steps;
        return Ok(());
    }
    let mut a: Vec<bool> = Vec::new();
    a.push(false);
    let mut b: Vec<bool> = Vec::new();
    b.push(true);
    proof {
        assert(a@ =~= seq![false]);
        assert(b@ =~= seq![true]);
    }
    let pattern = bj_expand(a, b, l.0 - d.0, d.0);
    proof {
        assert(ones(Seq::<bool>::empty()) == 0);
        assert(seq![false].drop_first() =~= Seq::<bool>::empty());
        assert(seq![true].drop_first() =~= Seq::<bool>::empty());
        assert(ones(seq![false]) == 0);
        assert(ones(seq![true]) == 1);
        lemma_bj_fold_counts(seq![false], seq![true], (l.0 - d.0) as int, d.0 as int);
        assert(ones(pattern@) == d.0);
        lemma_first_true(pattern@);
    }
    let n: usize = pattern.len();
    let mut idx: usize = 0;
    while !pattern[idx]
        invariant
            0 <= idx <= first_true(pattern@),
            first_true(pattern@) < pattern@.len(),
            pattern@.len() == n,
            forall|j: int| 0 <= j < first_true(pattern@) ==> !pattern@[j],
            pattern@[first_true(pattern@)],
        decreases n - idx,
    {
        idx = idx + 1;
    }
    let mut rotated: Vec<bool> = Vec::new();
    let mut j: usize = idx;
    proof {
        assert(rotated@ =~= pattern@.subrange(idx as int, idx as int));
    }
    while j < n
        invariant
            idx <= j <= n,
            n == pattern@.len(),
            rotated@ == pattern@.subrange(idx as int, j as int),
        decreases n - j,
    {
        rotated.push(pattern[j]);
        proof {
            assert(pattern@.subrange(idx as int, j as int) + seq![pattern@[j as int]]
                =~= pattern@.subrange(idx as int, (j + 1) as int));
        }
        j = j + 1;
    }
    let mut j2: usize = 0;
    proof {
        assert(rotated@ + pattern@.subrange(0, 0) =~= rotated@);
    }
    let ghost tail = pattern@.subrange(idx as int, n as int);
    while j2 < idx
        invariant
            j2 <= idx,
            idx <= n,
            n == pattern@.len(),
            rotated@ == tail + pattern@.subrange(0, j2 as int),
        decreases idx - j2,
    {
        rotated.push(pattern[j2]);
        proof {
            assert(tail + pattern@.subrange(0, j2 as int) + seq![pattern@[j2 as int]] =~= tail
                + pattern@.subrange(0, (j2 + 1) as int));
        }
        j2 = j2 + 1;
    }
    sequence.steps = rotated;
    proof {
        assert(idx as int == first_true(pattern@));
        assert(sequence@ == rotate_left_seq(pattern@, first_true(pattern@)));
    }
    Ok(())
}

} // verus!
