//! Normalisation of user-drawn lift curves: a curve with too few samples is
//! padded by repeating its last sample, and one with too many is thinned by
//! keeping every other sample until it is short enough.
use vstd::prelude::*;

verus! {

pub const MIN_PROFILE_POINTS: usize = 36;

pub const MAX_PROFILE_POINTS: usize = 360;

/// `s` padded to `MIN_PROFILE_POINTS` samples with copies of its last
/// sample, or of `empty_fill` when `s` is empty.
pub open spec fn padded<T>(s: Seq<T>, empty_fill: T) -> Seq<T> {
    if s.len() >= MIN_PROFILE_POINTS {
        s
    } else {
        let last = if s.len() > 0 {
            s.last()
        } else {
            empty_fill
        };
        s + Seq::new((MIN_PROFILE_POINTS - s.len()) as nat, |i: int| last)
    }
}

/// The samples at even positions (first, third, ...).
pub open spec fn every_other<T>(s: Seq<T>) -> Seq<T> {
    Seq::new(((s.len() + 1) / 2) as nat, |i: int| s[2 * i])
}

/// `s` halved with `every_other` until it has at most
/// `MAX_PROFILE_POINTS` samples.
pub open spec fn thinned<T>(s: Seq<T>) -> Seq<T>
    decreases s.len(),
{
    if s.len() > MAX_PROFILE_POINTS {
        thinned(every_other(s))
    } else {
        s
    }
}

pub open spec fn normalized_lifts<T>(s: Seq<T>, empty_fill: T) -> Seq<T> {
    thinned(padded(s, empty_fill))
}

fn every_other_vec<T: Copy>(v: &Vec<T>) -> (out: Vec<T>)
    ensures
        out@ == every_other(v@),
{
    let n = v.len();
    let m = n / 2 + n % 2;
    let mut out: Vec<T> = Vec::new();
    let mut k: usize = 0;
    while k < m
        invariant
            n == v@.len(),
            m == (n + 1) / 2,
            k <= m,
            out@.len() == k,
            forall|j: int| 0 <= j < k ==> out@[j] == v@[2 * j],
        decreases m - k,
    {
        out.push(v[2 * k]);
        k = k + 1;
    }
    assert(out@ =~= every_other(v@));
    out
}

/// Pads or thins `lifts` to between `MIN_PROFILE_POINTS` and
/// `MAX_PROFILE_POINTS` samples; `empty_fill` pads an empty curve.
pub fn normalize_lift_samples<T: Copy>(lifts: &[T], empty_fill: T) -> (out: Vec<T>)
    ensures
        out@ == normalized_lifts(lifts@, empty_fill),
{
    let n = lifts.len();
    let mut v: Vec<T> = Vec::new();
    let mut i: usize = 0;
    while i < n
        invariant
            n == lifts@.len(),
            i <= n,
            v@ =~= lifts@.take(i as int),
        decreases n - i,
    {
        v.push(lifts[i]);
        i = i + 1;
    }
    assert(v@ =~= lifts@);
    if v.len() < MIN_PROFILE_POINTS {
        let last = if v.len() > 0 {
            v[v.len() - 1]
        } else {
            empty_fill
        };
        let ghost start = v@;
        while v.len() < MIN_PROFILE_POINTS
            invariant
                start.len() < MIN_PROFILE_POINTS,
                start.len() <= v@.len() <= MIN_PROFILE_POINTS,
                v@.take(start.len() as int) =~= start,
                forall|j: int| start.len() <= j < v@.len() ==> v@[j] == last,
            decreases MIN_PROFILE_POINTS - v@.len(),
        {
            v.push(last);
        }
        assert(v@ =~= padded(lifts@, empty_fill));
    }
    assert(v@ == padded(lifts@, empty_fill));
    while v.len() > MAX_PROFILE_POINTS
        invariant
            thinned(v@) == normalized_lifts(lifts@, empty_fill),
        decreases v@.len(),
    {
        v = every_other_vec(&v);
    }
    v
}

/// Normalised curves have between `MIN_PROFILE_POINTS` and
/// `MAX_PROFILE_POINTS` samples, whatever the input.
pub proof fn lemma_normalized_length<T>(s: Seq<T>, empty_fill: T)
    ensures
        MIN_PROFILE_POINTS <= normalized_lifts(s, empty_fill).len() <= MAX_PROFILE_POINTS,
{
    lemma_thinned_length(padded(s, empty_fill));
}

proof fn lemma_thinned_length<T>(s: Seq<T>)
    requires
        s.len() >= MIN_PROFILE_POINTS,
    ensures
        MIN_PROFILE_POINTS <= thinned(s).len() <= MAX_PROFILE_POINTS,
    decreases s.len(),
{
    if s.len() > MAX_PROFILE_POINTS {
        lemma_thinned_length(every_other(s));
    }
}

/// A curve that already has an acceptable number of samples is left as it
/// is.
pub proof fn lemma_normalized_keeps_acceptable<T>(s: Seq<T>, empty_fill: T)
    requires
        MIN_PROFILE_POINTS <= s.len() <= MAX_PROFILE_POINTS,
    ensures
        normalized_lifts(s, empty_fill) == s,
{
}

/// Every sample of a normalised curve is a sample of the input, or
/// `empty_fill` when the input was empty.
pub proof fn lemma_normalized_samples_from_input<T>(s: Seq<T>, empty_fill: T, i: int)
    requires
        0 <= i < normalized_lifts(s, empty_fill).len(),
    ensures
        s.len() > 0 ==> s.contains(normalized_lifts(s, empty_fill)[i]),
        s.len() == 0 ==> normalized_lifts(s, empty_fill)[i] == empty_fill,
{
    let p = padded(s, empty_fill);
    lemma_thinned_from(p, i);
    let j = choose|j: int| 0 <= j < p.len() && thinned(p)[i] == p[j];
    if s.len() > 0 {
        if j < s.len() {
            assert(s[j] == p[j]);
        } else {
            assert(p[j] == s[s.len() - 1]);
        }
    }
}

proof fn lemma_thinned_from<T>(s: Seq<T>, i: int)
    requires
        0 <= i < thinned(s).len(),
    ensures
        exists|j: int| 0 <= j < s.len() && thinned(s)[i] == s[j],
    decreases s.len(),
{
    if s.len() > MAX_PROFILE_POINTS {
        let e = every_other(s);
        lemma_thinned_from(e, i);
        let j = choose|j: int| 0 <= j < e.len() && thinned(e)[i] == e[j];
        assert(thinned(s)[i] == s[2 * j]);
    } else {
        assert(thinned(s)[i] == s[i]);
    }
}

} // verus!
