//! Pink noise by the Voss–McCartney algorithm: sixteen octave rows, each
//! refreshed at half the rate of the row before it, summed together with one
//! always-fresh draw. Summing independent sources refreshed at octave-spaced
//! rates gives the 1/f spectral shape.
//!
//! On every tick the counter advances and the single row whose index equals
//! the counter's trailing-zero count (if below 16) is refreshed; the running
//! sum moves by the difference of the old and new row value, so emitting a
//! sample is O(1) instead of resumming all rows. When the counter wraps to
//! zero its trailing-zero count is 32, so that tick refreshes no row and no
//! index is ever out of bounds.

use vstd::prelude::*;
use vstd::std_specs::bits::axiom_u32_trailing_zeros;
use vstd::std_specs::bits::u32_trailing_zeros;
use crate::rng::rng_draw;
use crate::rng::rng_from_entropy;
use crate::sample::amp_in_range;
use crate::sample::div_amp;
use crate::sample::div_trunc;
use crate::sample::lemma_div_trunc_bound;
use crate::sample::AMP_ONE;
use crate::sample::SAMPLE_RATE;

verus! {

/// Number of octave rows.
pub const PINK_NOISE_ROWS: usize = 16;

/// The exact sum of a sequence of row values.
pub open spec fn sum_rows(rows: Seq<i64>) -> int
    decreases rows.len(),
{
    if rows.len() == 0 {
        0
    } else {
        sum_rows(rows.drop_last()) + rows.last()
    }
}

/// Appending a value extends the sum by that value.
proof fn lemma_sum_rows_push(rows: Seq<i64>, v: i64)
    ensures
        sum_rows(rows.push(v)) == sum_rows(rows) + v,
{
    assert(rows.push(v).drop_last() =~= rows);
}

/// Replacing one row moves the sum by the difference of new and old value.
proof fn lemma_sum_rows_update(rows: Seq<i64>, i: int, v: i64)
    requires
        0 <= i < rows.len(),
    ensures
        sum_rows(rows.update(i, v)) == sum_rows(rows) - rows[i] + v,
    decreases rows.len(),
{
    let u = rows.update(i, v);
    if i == rows.len() - 1 {
        assert(u.drop_last() =~= rows.drop_last());
    } else {
        assert(u.drop_last() =~= rows.drop_last().update(i, v));
        lemma_sum_rows_update(rows.drop_last(), i, v);
        assert(rows.drop_last()[i] == rows[i]);
        assert(u.last() == rows.last());
    }
}

/// Rows all within [-b, b] bound the sum by len * b in magnitude.
proof fn lemma_sum_rows_bounds(rows: Seq<i64>, b: int)
    requires
        0 <= b,
        forall|i: int| 0 <= i < rows.len() ==> -b <= #[trigger] rows[i] <= b,
    ensures
        -((rows.len() as int) * b) <= sum_rows(rows) <= (rows.len() as int) * b,
    decreases rows.len(),
{
    if rows.len() == 0 {
    } else {
        assert forall|j: int| 0 <= j < rows.drop_last().len() implies -b <= #[trigger] rows.drop_last()[j] <= b by {
            assert(rows.drop_last()[j] == rows[j]);
        }
        lemma_sum_rows_bounds(rows.drop_last(), b);
        assert(rows.last() == rows[rows.len() - 1]);
        assert(-b <= rows[rows.len() - 1] <= b);
        let n = rows.len() as int;
        let m = rows.drop_last().len() as int;
        assert(m == n - 1);
        assert(-(m * b) <= sum_rows(rows.drop_last()) <= m * b);
        assert(sum_rows(rows) == sum_rows(rows.drop_last()) + rows.last());
        assert(m * b + b == n * b) by (nonlinear_arith)
            requires
                m == n - 1,
        ;
        assert(sum_rows(rows) <= n * b);
        assert(-(n * b) <= sum_rows(rows));
    }
}

/// The counter after one tick: it wraps at u32::MAX.
pub open spec fn wrap_inc(c: u32) -> u32 {
    if c == u32::MAX {
        0
    } else {
        (c + 1) as u32
    }
}

/// Whether the tick whose incremented counter is `c` refreshes row `k`:
/// exactly when `k` is the number of trailing zero bits of `c`. A counter of
/// zero has 32 trailing zeros, so the wrapping tick refreshes no row.
pub open spec fn row_updated(c: u32, k: int) -> bool {
    0 <= k < PINK_NOISE_ROWS && u32_trailing_zeros(c) == k
}

/// A pink noise generator.
pub struct PinkNoise {
    /// Source of the uniform draws.
    pub rng: rand::rngs::StdRng,
    /// The last value drawn for each octave row.
    pub rows: Vec<i64>,
    /// Maintained to equal the exact sum of the rows at every observation
    /// point, so a tick costs O(1) rather than a resummation.
    pub running_sum: i64,
    /// Tick counter; wraps around at u32::MAX.
    pub counter: u32,
}

impl PinkNoise {
    /// Well-formed: exactly 16 rows, each a valid amplitude, and the running
    /// sum equal to the exact sum of the rows.
    pub open spec fn wf(&self) -> bool {
        &&& self.rows@.len() == PINK_NOISE_ROWS
        &&& forall|i: int| 0 <= i < self.rows@.len() ==> amp_in_range((#[trigger] self.rows@[i]) as int)
        &&& self.running_sum == sum_rows(self.rows@)
    }

    /// A fresh generator: every row holds an initial draw, the running sum
    /// is their exact sum, and the counter starts at zero.
    pub fn new() -> (g: PinkNoise)
        ensures
            g.wf(),
            g.counter == 0,
    {
        let mut rng = rng_from_entropy();
        let mut rows: Vec<i64> = Vec::new();
        let mut running_sum: i64 = 0;
        while rows.len() < PINK_NOISE_ROWS
            invariant
                rows@.len() <= PINK_NOISE_ROWS,
                forall|i: int| 0 <= i < rows@.len() ==> amp_in_range((#[trigger] rows@[i]) as int),
                running_sum == sum_rows(rows@),
                -(rows@.len() as int) * AMP_ONE <= running_sum <= (rows@.len() as int) * AMP_ONE,
            decreases PINK_NOISE_ROWS - rows.len(),
        {
            let v = rng_draw(&mut rng, -AMP_ONE, AMP_ONE);
            proof {
                lemma_sum_rows_push(rows@, v);
            }
            running_sum = running_sum + v;
            rows.push(v);
        }
        PinkNoise { rng, rows, running_sum, counter: 0 }
    }

    /// One tick: advance the counter, refresh the single scheduled row (the
    /// one whose index is the counter's trailing-zero count, when below 16),
    /// move the running sum by the delta, and emit the running sum plus one
    /// extra fresh draw, divided by rows + 1 to keep the mix in range.
    pub fn next_sample(&mut self) -> (s: i64)
        requires
            old(self).wf(),
        ensures
            final(self).wf(),
            final(self).counter == wrap_inc(old(self).counter),
            forall|k: int|
                0 <= k < PINK_NOISE_ROWS && !row_updated(final(self).counter, k)
                    ==> #[trigger] final(self).rows@[k] == old(self).rows@[k],
            exists|w: int|
                amp_in_range(w) && s == div_trunc(
                    sum_rows(final(self).rows@) + w,
                    PINK_NOISE_ROWS + 1,
                ),
            amp_in_range(s as int),
    {
        self.counter = if self.counter == u32::MAX {
            0
        } else {
            self.counter + 1
        };
        proof {
            axiom_u32_trailing_zeros(self.counter);
        }
        let zeros = self.counter.trailing_zeros() as usize;
        if zeros < PINK_NOISE_ROWS {
            let old_row = self.rows[zeros];
            let fresh = rng_draw(&mut self.rng, -AMP_ONE, AMP_ONE);
            proof {
                lemma_sum_rows_bounds(self.rows@, AMP_ONE as int);
                lemma_sum_rows_update(self.rows@, zeros as int, fresh);
            }
            self.running_sum = self.running_sum - old_row + fresh;
            self.rows.set(zeros, fresh);
        }
        let white = rng_draw(&mut self.rng, -AMP_ONE, AMP_ONE);
        proof {
            lemma_sum_rows_bounds(self.rows@, AMP_ONE as int);
            lemma_div_trunc_bound(
                self.running_sum + white,
                PINK_NOISE_ROWS + 1,
                AMP_ONE as int,
            );
        }
        let mixed: i64 = self.running_sum + white;
        let divisor: i64 = (PINK_NOISE_ROWS as i64) + 1;
        let s = div_amp(mixed, divisor);
        proof {
            assert(amp_in_range(white as int) && s == div_trunc(
                sum_rows(self.rows@) + white,
                PINK_NOISE_ROWS + 1,
            ));
        }
        s
    }

    /// Recompute the sum of the rows directly, in one pass over all 16. On a
    /// well-formed generator it equals the maintained running sum: the
    /// running-sum invariant, checked by an independent resummation.
    pub fn resummed(&self) -> (t: i64)
        requires
            self.wf(),
        ensures
            t == self.running_sum,
            t == sum_rows(self.rows@),
    {
        let mut t: i64 = 0;
        let mut i: usize = 0;
        while i < self.rows.len()
            invariant
                self.wf(),
                i <= self.rows@.len(),
                t == sum_rows(self.rows@.take(i as int)),
                -(i as int) * AMP_ONE <= t <= (i as int) * AMP_ONE,
            decreases self.rows@.len() - i,
        {
            proof {
                assert(self.rows@.take(i + 1).drop_last() =~= self.rows@.take(i as int));
                assert(self.rows@.take(i + 1).last() == self.rows@[i as int]);
            }
            t = t + self.rows[i];
            i = i + 1;
        }
        proof {
            assert(self.rows@.take(self.rows@.len() as int) =~= self.rows@);
        }
        t
    }

    /// The row that the tick with incremented counter `c` refreshes, if any:
    /// the counter's trailing-zero count, when that is below 16.
    pub fn scheduled_row(c: u32) -> (r: Option<usize>)
        ensures
            match r {
                Some(k) => k < PINK_NOISE_ROWS && row_updated(c, k as int),
                None => forall|k: int| 0 <= k < PINK_NOISE_ROWS ==> !row_updated(c, k),
            },
    {
        let z = c.trailing_zeros() as usize;
        if z < PINK_NOISE_ROWS {
            Some(z)
        } else {
            None
        }
    }

    /// Samples per second of the produced stream.
    pub fn sample_rate(&self) -> (r: u32)
        ensures
            r == SAMPLE_RATE,
    {
        SAMPLE_RATE
    }

    /// The stream is single-channel.
    pub fn channel_count(&self) -> (r: u16)
        ensures
            r == 1,
    {
        1
    }

    /// The stream has no internal span boundary.
    pub fn current_span_len(&self) -> (r: Option<usize>)
        ensures
            r is None,
    {
        None
    }

    /// The stream is infinite: it has no total length in samples.
    pub fn total_duration(&self) -> (r: Option<u64>)
        ensures
            r is None,
    {
        None
    }
}

/// The one exception in the schedule: the wrapping tick's counter is zero,
/// which has 32 trailing zeros, so it refreshes no row at all — in
/// particular, no row index past the last one is ever touched.
pub proof fn lemma_wrap_tick_refreshes_no_row(k: int)
    ensures
        !row_updated(0u32, k),
{
    axiom_u32_trailing_zeros(0u32);
}

/// The refresh schedule: a counter refreshes row k exactly when it is
/// congruent to 2^k modulo 2^(k+1). Row k is therefore refreshed once every
/// 2^(k+1) ticks: row 0 on every other tick, and each further row half as
/// often as the row before it.
pub proof fn lemma_row_update_schedule(c: u32, k: u32)
    requires
        k < PINK_NOISE_ROWS,
    ensures
        row_updated(c, k as int) <==> c % (1u32 << ((k + 1) as u32)) == 1u32 << k,
{
    axiom_u32_trailing_zeros(c);
    let t = u32_trailing_zeros(c);
    if c == 0 {
        assert(0u32 % (1u32 << ((k + 1) as u32)) != 1u32 << k) by (bit_vector)
            requires
                k < 16u32,
        ;
    } else {
        assert((c >> t) & 1u32 == 1u32);
        assert(c << ((32 - t) as u32) == 0u32);
        if t == k {
            assert(c % (1u32 << ((k + 1) as u32)) == 1u32 << k) by (bit_vector)
                requires
                    k < 16u32,
                    t == k,
                    (c >> t) & 1u32 == 1u32,
                    c << ((32 - t) as u32) == 0u32,
            ;
        } else {
            assert(c % (1u32 << ((k + 1) as u32)) != 1u32 << k) by (bit_vector)
                requires
                    k < 16u32,
                    t < 32u32,
                    t != k,
                    (c >> t) & 1u32 == 1u32,
                    c << ((32 - t) as u32) == 0u32,
            ;
        }
    }
}

/// The period of row k's refreshes is exactly 2^(k+1) ticks: a tick that
/// refreshes row k is followed by one that refreshes it again 2^(k+1)
/// counter steps later, and by none in between.
pub proof fn lemma_row_update_spacing(c: u32, k: u32)
    requires
        k < PINK_NOISE_ROWS,
        row_updated(c, k as int),
        c + (1u32 << ((k + 1) as u32)) <= u32::MAX,
    ensures
        row_updated((c + (1u32 << ((k + 1) as u32))) as u32, k as int),
        forall|m: u32|
            c < m < c + (1u32 << ((k + 1) as u32)) ==> !row_updated(m, k as int),
{
    lemma_row_update_schedule(c, k);
    let c2 = (c + (1u32 << ((k + 1) as u32))) as u32;
    lemma_row_update_schedule(c2, k);
    assert(1u32 << ((k + 1) as u32) >= 1u32) by (bit_vector)
        requires
            k < 16u32,
    ;
    vstd::arithmetic::div_mod::lemma_mod_add_multiples_vanish(
        c as int,
        (1u32 << ((k + 1) as u32)) as int,
    );
    assert forall|m: u32| c < m < c + (1u32 << ((k + 1) as u32)) implies !row_updated(
        m,
        k as int,
    ) by {
        lemma_row_update_schedule(m, k);
        assert(m % (1u32 << ((k + 1) as u32)) != 1u32 << k) by (bit_vector)
            requires
                k < 16u32,
                c % (1u32 << ((k + 1) as u32)) == 1u32 << k,
                c < m,
                m < c + (1u32 << ((k + 1) as u32)),
        ;
    }
}

} // verus!
