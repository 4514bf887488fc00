//! Widening a 32-bit cycle-counter reading into a 64-bit logical time.

use vstd::prelude::*;

verus! {

/// Number of distinct values of the 32-bit hardware counter.
pub open spec fn wrap_period() -> int {
    0x1_0000_0000
}

/// The 64-bit reading that follows `last` when the counter shows `cyccnt`:
/// a counter value below the low half of `last` means that the counter
/// wrapped once, and the high half advances (itself wrapping).
pub open spec fn extended(last: u64, cyccnt: u32) -> u64 {
    let high = last as int / wrap_period();
    let low = last as int % wrap_period();
    let h = if (cyccnt as int) < low {
        (high + 1) % wrap_period()
    } else {
        high
    };
    (h * wrap_period() + cyccnt as int) as u64
}

proof fn lemma_split(x: u64)
    ensures
        (x >> 32u64) as u32 as int == x as int / wrap_period(),
        x as u32 as int == x as int % wrap_period(),
{
    assert((x >> 32u64) as u32 == x / 0x1_0000_0000u64 && x as u32 == x % 0x1_0000_0000u64)
        by (bit_vector);
}

proof fn lemma_join(h: u32, n: u32)
    ensures
        (((h as u64) << 32u64) | (n as u64)) as int == h as int * wrap_period() + n as int,
{
    assert(((h as u64) << 32u64) | (n as u64) == (h as u64) * 0x1_0000_0000u64 + (n as u64))
        by (bit_vector);
}

/// The 64-bit reading that follows `last` when the 32-bit counter shows `cyccnt`.
pub fn extend_reading(last: u64, cyccnt: u32) -> (r: u64)
    ensures
        r == extended(last, cyccnt),
{
    let mut high = (last >> 32) as u32;
    let low = last as u32;
    proof {
        lemma_split(last);
    }
    // The counter passed its largest value since `last` was taken.
    if cyccnt < low {
        high = high.wrapping_add(1);
    }
    proof {
        lemma_join(high, cyccnt);
    }
    ((high as u64) << 32) | (cyccnt as u64)
}

/// The readings produced by extending `vs` one after another, starting from `last`.
pub open spec fn readings(last: u64, vs: Seq<u32>) -> Seq<u64>
    decreases vs.len(),
{
    if vs.len() == 0 {
        seq![]
    } else {
        let r = extended(last, vs[0]);
        seq![r].add(readings(r, vs.skip(1)))
    }
}

/// One step of widening: when the true counter value `t` lies at most one wrap
/// period past `last`, shows `cyccnt` in its low 32 bits and still fits in 64
/// bits, the extended reading is `t` itself.
pub proof fn lemma_extended_step(last: u64, cyccnt: u32, t: int)
    requires
        last <= t < last + wrap_period(),
        t <= u64::MAX,
        t % wrap_period() == cyccnt,
    ensures
        extended(last, cyccnt) == t,
{
    let p = wrap_period();
    let high = last as int / p;
    let low = last as int % p;
    let d = t - last;
    assert(last as int == high * p + low) by (nonlinear_arith)
        requires p == 0x1_0000_0000, high == last as int / p, low == last as int % p;
    assert(0 <= low < p);
    if low + d < p {
        assert(t == high * p + (low + d));
        assert(t % p == low + d) by (nonlinear_arith)
            requires t == high * p + (low + d), 0 <= low + d < p, p > 0, high >= 0;
    } else {
        assert(t == (high + 1) * p + (low + d - p)) by (nonlinear_arith)
            requires t == high * p + low + d;
        assert(t % p == low + d - p) by (nonlinear_arith)
            requires t == (high + 1) * p + (low + d - p), 0 <= low + d - p < p, p > 0, high >= 0;
        assert(high + 1 < p) by (nonlinear_arith)
            requires t == (high + 1) * p + (low + d - p), t <= u64::MAX, low + d - p >= 0,
                p == 0x1_0000_0000;
        assert((high + 1) % p == high + 1);
    }
}

/// Widening keeps time exactly: for counter readings `vs` whose true values
/// `truth` never fall behind, advance by less than one wrap period between
/// consecutive reads (and from `last` to the first read) and fit in 64 bits,
/// the readings equal the true values, which are `vs[i]` plus a whole number
/// of wrap periods, and never decrease.
pub proof fn lemma_readings_track_counter(last: u64, vs: Seq<u32>, truth: Seq<int>)
    requires
        truth.len() == vs.len(),
        forall|i: int| 0 <= i < vs.len() ==> truth[i] % wrap_period() == vs[i],
        forall|i: int| 0 <= i < vs.len() ==> truth[i] <= u64::MAX,
        vs.len() > 0 ==> last <= truth[0] < last + wrap_period(),
        forall|i: int|
            0 <= i < vs.len() - 1 ==> truth[i] <= #[trigger] truth[i + 1] < truth[i]
                + wrap_period(),
    ensures
        readings(last, vs).len() == vs.len(),
        forall|i: int| 0 <= i < vs.len() ==> readings(last, vs)[i] == truth[i],
        forall|i: int|
            0 <= i < vs.len() ==> readings(last, vs)[i] == vs[i] + (truth[i] / wrap_period())
                * wrap_period(),
        forall|i: int, j: int|
            0 <= i <= j < vs.len() ==> readings(last, vs)[i] <= readings(last, vs)[j],
    decreases vs.len(),
{
    if vs.len() > 0 {
        lemma_extended_step(last, vs[0], truth[0]);
        let r = extended(last, vs[0]);
        let rest_v = vs.skip(1);
        let rest_t = truth.skip(1);
        assert forall|i: int| 0 <= i < rest_v.len() - 1 implies rest_t[i] <= #[trigger] rest_t[i
            + 1] < rest_t[i] + wrap_period() by {
            assert(truth[i + 1] <= truth[i + 1 + 1]);
        }
        if rest_v.len() > 0 {
            assert(truth[0] <= truth[0int + 1]);
        }
        lemma_readings_track_counter(r, rest_v, rest_t);
        let rs = readings(last, vs);
        assert forall|i: int| 0 <= i < vs.len() implies rs[i] == truth[i] by {
            if i > 0 {
                assert(rs[i] == readings(r, rest_v)[i - 1]);
            }
        }
        assert forall|i: int| 0 <= i < vs.len() implies rs[i] == vs[i] + (truth[i]
            / wrap_period()) * wrap_period() by {
            let t = truth[i];
            let p = wrap_period();
            assert(t == (t / p) * p + t % p) by (nonlinear_arith)
                requires p > 0;
        }
        assert forall|i: int, j: int| 0 <= i <= j < vs.len() implies rs[i] <= rs[j] by {
            lemma_truth_monotone(truth, i, j);
        }
    }
}

proof fn lemma_truth_monotone(truth: Seq<int>, i: int, j: int)
    requires
        0 <= i <= j < truth.len(),
        forall|k: int| 0 <= k < truth.len() - 1 ==> truth[k] <= #[trigger] truth[k + 1],
    ensures
        truth[i] <= truth[j],
    decreases j - i,
{
    if i < j {
        lemma_truth_monotone(truth, i, j - 1);
        assert(truth[j - 1] <= truth[(j - 1) + 1]);
    }
}

} // verus!
