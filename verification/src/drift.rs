//! The drift meter: a fixed window over the last 200 arrival-lag samples,
//! whose reported average is exactly the truncated arithmetic mean of the
//! window.
use vstd::prelude::*;
use vstd::arithmetic::div_mod::lemma_div_by_multiple;
use vstd::arithmetic::div_mod::lemma_div_is_ordered;

verus! {

/// How many samples the window holds.
pub const DRIFT_WINDOW: usize = 200;

/// The magnitude bound of an `i64` sample.
pub const SAMPLE_BOUND: u128 = 9223372036854775808;

/// The sum of a sequence of samples.
pub open spec fn sum(s: Seq<i64>) -> int
    decreases s.len(),
{
    if s.len() == 0 {
        0
    } else {
        sum(s.drop_last()) + s.last()
    }
}

/// The last `min(len, 200)` samples of a history.
pub open spec fn window(h: Seq<i64>) -> Seq<i64> {
    if h.len() <= DRIFT_WINDOW as int {
        h
    } else {
        h.subrange(h.len() - DRIFT_WINDOW as int, h.len() as int)
    }
}

/// The reported average: the window's sum divided by its length,
/// truncated toward zero; an empty history reports zero.
pub open spec fn spec_average(h: Seq<i64>) -> int {
    let w = window(h);
    if w.len() == 0 {
        0
    } else {
        let s = sum(w);
        if s >= 0 {
            s / w.len() as int
        } else {
            -((-s) / w.len() as int)
        }
    }
}

/// The sum of a concatenation splits.
proof fn lemma_sum_concat(x: Seq<i64>, y: Seq<i64>)
    ensures
        sum(x + y) == sum(x) + sum(y),
    decreases y.len(),
{
    if y.len() == 0 {
        assert(x + y =~= x);
    } else {
        assert((x + y).drop_last() =~= x + y.drop_last());
        assert((x + y).last() == y.last());
        lemma_sum_concat(x, y.drop_last());
    }
}

/// The sum of `n` samples lies within `n` times the extreme sample values.
proof fn lemma_sum_bound(s: Seq<i64>)
    ensures
        s.len() as int * (i64::MIN as int) <= sum(s) <= s.len() as int * (i64::MAX as int),
    decreases s.len(),
{
    if s.len() > 0 {
        lemma_sum_bound(s.drop_last());
    }
}

/// A rolling moving average over the last 200 samples. Its view is the
/// whole history of samples ever added; only the window is stored.
pub struct DriftMeter {
    buf: Vec<i64>,
    next: usize,
    history: Ghost<Seq<i64>>,
}

impl DriftMeter {
    /// The buffer holds the window, rotated so that the oldest retained
    /// sample sits at `next`.
    pub closed spec fn wf(&self) -> bool {
        let h = self.history@;
        let n = h.len() as int;
        &&& self.next as int == n % (DRIFT_WINDOW as int)
        &&& if n <= DRIFT_WINDOW as int {
            self.buf@ == h
        } else {
            self.buf@ == h.subrange(n - self.next, n)
                + h.subrange(n - DRIFT_WINDOW as int, n - self.next)
        }
    }

    /// All samples ever recorded, oldest first.
    pub closed spec fn view(&self) -> Seq<i64> {
        self.history@
    }

    /// A meter with no samples.
    pub fn new() -> (r: DriftMeter)
        ensures
            r.wf(),
            r@ == Seq::<i64>::empty(),
    {
        DriftMeter { buf: Vec::new(), next: 0, history: Ghost(Seq::empty()) }
    }

    /// Record one sample, evicting the oldest retained one once the
    /// window is full.
    pub fn add_sample(&mut self, s: i64)
        requires
            old(self).wf(),
        ensures
            final(self).wf(),
            final(self)@ == old(self)@.push(s),
    {
        let ghost h = self.history@;
        let ghost n = h.len() as int;
        proof {
            self.history@ = h.push(s);
        }
        if self.buf.len() < DRIFT_WINDOW {
            self.buf.push(s);
            self.next = (self.next + 1) % DRIFT_WINDOW;
            proof {
                assert(n < DRIFT_WINDOW as int);
                assert(self.buf@ =~= h.push(s));
            }
        } else {
            let ghost a = h.subrange(n - self.next as int, n);
            let ghost b = h.subrange(n - DRIFT_WINDOW as int, n - self.next as int);
            proof {
                assert(n >= DRIFT_WINDOW as int);
                assert(self.buf@ == a + b);
                assert(b.len() >= 1);
            }
            let i = self.next;
            self.buf.remove(i);
            self.buf.insert(i, s);
            self.next = (self.next + 1) % DRIFT_WINDOW;
            proof {
                let h2 = h.push(s);
                let n2 = n + 1;
                assert(self.buf@ =~= a + seq![s] + b.subrange(1, b.len() as int));
                if i < DRIFT_WINDOW - 1 {
                    assert(self.next == i + 1);
                    assert(h2.subrange(n2 - self.next as int, n2) =~= a + seq![s]);
                    assert(h2.subrange(n2 - DRIFT_WINDOW as int, n2 - self.next as int)
                        =~= b.subrange(1, b.len() as int));
                    assert(self.buf@ =~= h2.subrange(n2 - self.next as int, n2)
                        + h2.subrange(n2 - DRIFT_WINDOW as int, n2 - self.next as int));
                } else {
                    assert(self.next == 0);
                    assert(b.len() == 1);
                    assert(h2.subrange(n2 - self.next as int, n2) =~= Seq::<i64>::empty());
                    assert(h2.subrange(n2 - DRIFT_WINDOW as int, n2 - self.next as int)
                        =~= a + seq![s]);
                    assert(self.buf@ =~= h2.subrange(n2 - self.next as int, n2)
                        + h2.subrange(n2 - DRIFT_WINDOW as int, n2 - self.next as int));
                }
            }
        }
    }

    fn sum_window(&self) -> (s: i128)
        requires
            self.wf(),
        ensures
            s as int == sum(self.buf@),
            self.buf@.len() as int * (i64::MIN as int) <= s as int
                <= self.buf@.len() as int * (i64::MAX as int),
    {
        let mut acc: i128 = 0;
        let mut i: usize = 0;
        while i < self.buf.len()
            invariant
                i <= self.buf@.len(),
                self.buf@.len() <= DRIFT_WINDOW as int,
                acc as int == sum(self.buf@.take(i as int)),
                i as int * (i64::MIN as int) <= acc as int <= i as int * (i64::MAX as int),
            decreases self.buf@.len() - i,
        {
            let x = self.buf[i];
            proof {
                assert(self.buf@.take(i + 1).drop_last() =~= self.buf@.take(i as int));
                assert(self.buf@.take(i + 1).last() == self.buf@[i as int]);
            }
            acc = acc + x as i128;
            i += 1;
        }
        proof {
            assert(self.buf@.take(self.buf@.len() as int) =~= self.buf@);
        }
        acc
    }

    /// The average drift over the retained window: the truncated mean of
    /// the last `min(len, 200)` samples, zero when none were recorded.
    pub fn get_average(&self) -> (r: i64)
        requires
            self.wf(),
        ensures
            r as int == spec_average(self@),
    {
        let ghost h = self.history@;
        let ghost n = h.len() as int;
        proof {
            if n <= DRIFT_WINDOW as int {
                assert(window(h) == self.buf@);
            } else {
                let a = h.subrange(n - self.next as int, n);
                let b = h.subrange(n - DRIFT_WINDOW as int, n - self.next as int);
                lemma_sum_concat(a, b);
                lemma_sum_concat(b, a);
                assert(window(h) =~= b + a);
                assert(sum(self.buf@) == sum(window(h)));
            }
        }
        if self.buf.len() == 0 {
            return 0;
        }
        let s = self.sum_window();
        let len = self.buf.len();
        if s >= 0 {
            let q: u128 = (s as u128) / (len as u128);
            proof {
                lemma_div_is_ordered(s as int, len as int * (i64::MAX as int), len as int);
                lemma_div_by_multiple(i64::MAX as int, len as int);
                assert(q as int <= i64::MAX as int);
            }
            q as i64
        } else {
            let m: u128 = (-s) as u128;
            let q: u128 = m / (len as u128);
            proof {
                lemma_div_is_ordered(m as int, len as int * (SAMPLE_BOUND as int), len as int);
                lemma_div_by_multiple(SAMPLE_BOUND as int, len as int);
                assert(q <= SAMPLE_BOUND);
            }
            if q >= SAMPLE_BOUND {
                // Every sample was the minimum value, so the mean is too.
                i64::MIN
            } else {
                -(q as i64)
            }
        }
    }
}

} // verus!
