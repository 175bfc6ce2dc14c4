//! Software threshold alerts with hysteresis.
//!
//! A [`ThresholdMonitor`] decides, sample by sample, whether a stored low or
//! high threshold has been crossed. A crossing is strict: a sample equal to a
//! threshold does not cross it. Once a bound has reported a crossing it stays
//! silent until the sample has come back by at least the hysteresis (to
//! `high - hysteresis` or below for the high bound, to `low + hysteresis` or
//! above for the low bound); then the next crossing is reported again.
//! Storing a threshold arms its bound afresh.
use crate::sensor::{Error, ErrorKind};
use vstd::prelude::*;

verus! {

/// The bound that a sample crossed.
#[derive(Debug, Copy, Clone, PartialEq, Eq, Structural)]
pub enum Crossing {
    /// The sample fell below the low threshold.
    Low,
    /// The sample rose above the high threshold.
    High,
}

/// Error of a sensor whose thresholds are kept in software: the sensor's own
/// error, or a threshold configuration that was refused.
#[derive(Debug)]
pub enum AlertError<E> {
    /// Reading the underlying sensor failed.
    Sensor(E),
    /// A threshold or hysteresis value was refused.
    Config(ErrorKind),
}

impl<E: Error> Error for AlertError<E> {
    open spec fn spec_kind(&self) -> ErrorKind {
        match self {
            AlertError::Sensor(e) => e.spec_kind(),
            AlertError::Config(k) => *k,
        }
    }

    fn kind(&self) -> (k: ErrorKind) {
        match self {
            AlertError::Sensor(e) => e.kind(),
            AlertError::Config(k) => *k,
        }
    }
}

/// What a monitor holds, as mathematical values.
pub struct AlertState {
    /// The low threshold.
    pub low: int,
    /// The high threshold.
    pub high: int,
    /// How far a sample must come back before a bound reports again.
    pub hysteresis: int,
    /// The low bound will report its next crossing.
    pub low_armed: bool,
    /// The high bound will report its next crossing.
    pub high_armed: bool,
}

impl AlertState {
    /// The state of a fresh monitor: the thresholds are the extreme sample
    /// values, so that no sample crosses either, there is no hysteresis and
    /// both bounds are armed.
    pub open spec fn initial() -> AlertState {
        AlertState {
            low: i64::MIN as int,
            high: i64::MAX as int,
            hysteresis: 0,
            low_armed: true,
            high_armed: true,
        }
    }

    /// Thresholds in order and a hysteresis that is not negative.
    pub open spec fn wf(self) -> bool {
        &&& self.low <= self.high
        &&& self.hysteresis >= 0
    }

    /// The crossing that `sample` reports, if any.
    pub open spec fn report(self, sample: int) -> Option<Crossing> {
        if self.high_armed && sample > self.high {
            Some(Crossing::High)
        } else if self.low_armed && sample < self.low {
            Some(Crossing::Low)
        } else {
            None
        }
    }

    /// The state after observing `sample`.
    pub open spec fn next(self, sample: int) -> AlertState {
        let r = self.report(sample);
        AlertState {
            high_armed: if r == Some(Crossing::High) {
                false
            } else {
                self.high_armed || sample <= self.high - self.hysteresis
            },
            low_armed: if r == Some(Crossing::Low) {
                false
            } else {
                self.low_armed || sample >= self.low + self.hysteresis
            },
            ..self
        }
    }

    /// The state after observing every sample of `samples` in turn.
    pub open spec fn run(self, samples: Seq<int>) -> AlertState
        decreases samples.len(),
    {
        if samples.len() == 0 {
            self
        } else {
            self.run(samples.drop_last()).next(samples.last())
        }
    }

    /// What the `i`-th sample of `samples` reports.
    pub open spec fn report_at(self, samples: Seq<int>, i: int) -> Option<Crossing> {
        self.run(samples.take(i)).report(samples[i])
    }

    /// A wait that observes `samples` in turn ends at the last one: that
    /// sample reports a crossing and none before it does.
    pub open spec fn waits_through(self, samples: Seq<int>) -> bool {
        &&& samples.len() > 0
        &&& self.report_at(samples, samples.len() - 1) is Some
        &&& forall|i: int| 0 <= i < samples.len() - 1 ==> #[trigger] self.report_at(samples, i) is None
    }
}

/// Observing samples never changes the thresholds or the hysteresis.
pub proof fn lemma_run_keeps_config(st: AlertState, samples: Seq<int>)
    ensures
        st.run(samples).low == st.low,
        st.run(samples).high == st.high,
        st.run(samples).hysteresis == st.hysteresis,
    decreases samples.len(),
{
    if samples.len() > 0 {
        lemma_run_keeps_config(st, samples.drop_last());
    }
}

proof fn lemma_run_take_step(st: AlertState, samples: Seq<int>, n: int)
    requires
        0 <= n < samples.len(),
    ensures
        st.run(samples.take(n + 1)) == st.run(samples.take(n)).next(samples[n]),
{
    assert(samples.take(n + 1).drop_last() =~= samples.take(n));
}

/// A reported crossing lies strictly outside the thresholds, on the side it
/// names.
pub proof fn lemma_report_outside_thresholds(st: AlertState, samples: Seq<int>, i: int)
    requires
        st.wf(),
        0 <= i < samples.len(),
        st.report_at(samples, i) is Some,
    ensures
        samples[i] < st.low || samples[i] > st.high,
        st.report_at(samples, i) == Some(Crossing::High) ==> samples[i] > st.high,
        st.report_at(samples, i) == Some(Crossing::Low) ==> samples[i] < st.low,
{
    lemma_run_keeps_config(st, samples.take(i));
}

proof fn lemma_disarmed_until_back(st: AlertState, samples: Seq<int>, i: int, c: Crossing, n: int)
    requires
        st.wf(),
        0 <= i < n <= samples.len(),
        st.report_at(samples, i) == Some(c),
    ensures
        c == Crossing::High && st.run(samples.take(n)).high_armed ==> exists|k: int|
            i < k < n && samples[k] <= st.high - st.hysteresis,
        c == Crossing::Low && st.run(samples.take(n)).low_armed ==> exists|k: int|
            i < k < n && samples[k] >= st.low + st.hysteresis,
    decreases n - i,
{
    lemma_run_take_step(st, samples, n - 1);
    lemma_run_keeps_config(st, samples.take(n - 1));
    if n - 1 > i {
        lemma_disarmed_until_back(st, samples, i, c, n - 1);
        let prev = st.run(samples.take(n - 1));
        if c == Crossing::High && st.run(samples.take(n)).high_armed && !prev.high_armed {
            assert(samples[n - 1] <= st.high - st.hysteresis);
        }
        if c == Crossing::Low && st.run(samples.take(n)).low_armed && !prev.low_armed {
            assert(samples[n - 1] >= st.low + st.hysteresis);
        }
    }
}

/// A wait ends on a sample strictly outside the thresholds, and leaves the
/// thresholds and the hysteresis as they were.
pub proof fn lemma_wait_outside_thresholds(st: AlertState, samples: Seq<int>)
    requires
        st.wf(),
        st.waits_through(samples),
    ensures
        samples.last() < st.low || samples.last() > st.high,
        st.run(samples).low == st.low,
        st.run(samples).high == st.high,
        st.run(samples).hysteresis == st.hysteresis,
{
    lemma_report_outside_thresholds(st, samples, samples.len() - 1);
    lemma_run_keeps_config(st, samples);
}

/// Once a bound has reported a crossing, it reports none again until a
/// later sample has come back by the hysteresis: to `high - hysteresis` or
/// below for the high bound, to `low + hysteresis` or above for the low one.
pub proof fn lemma_hysteresis_rearm(st: AlertState, samples: Seq<int>, i: int, j: int, c: Crossing)
    requires
        st.wf(),
        0 <= i < j < samples.len(),
        st.report_at(samples, i) == Some(c),
        st.report_at(samples, j) == Some(c),
    ensures
        c == Crossing::High ==> samples[j] > st.high && exists|k: int|
            i < k < j && samples[k] <= st.high - st.hysteresis,
        c == Crossing::Low ==> samples[j] < st.low && exists|k: int|
            i < k < j && samples[k] >= st.low + st.hysteresis,
{
    lemma_report_outside_thresholds(st, samples, j);
    lemma_run_keeps_config(st, samples.take(j));
    lemma_disarmed_until_back(st, samples, i, c, j);
}

proof fn lemma_run_concat(st: AlertState, a: Seq<int>, b: Seq<int>)
    ensures
        st.run(a + b) == st.run(a).run(b),
    decreases b.len(),
{
    if b.len() == 0 {
        assert(a + b =~= a);
    } else {
        assert((a + b).drop_last() =~= a + b.drop_last());
        assert((a + b).last() == b.last());
        lemma_run_concat(st, a, b.drop_last());
    }
}

proof fn lemma_report_at_concat(st: AlertState, a: Seq<int>, b: Seq<int>, i: int)
    requires
        0 <= i < a.len() + b.len(),
    ensures
        i < a.len() ==> st.report_at(a + b, i) == st.report_at(a, i),
        i >= a.len() ==> st.report_at(a + b, i) == st.run(a).report_at(b, i - a.len()),
{
    if i < a.len() {
        assert((a + b).take(i) =~= a.take(i));
    } else {
        assert((a + b).take(i) =~= a + b.take(i - a.len()));
        lemma_run_concat(st, a, b.take(i - a.len()));
    }
}

/// Of two waits in a row that end on crossings of the same bound, the
/// second observed, before the crossing it ended on, a sample that had come
/// back by the hysteresis: to `high - hysteresis` or below for the high
/// bound, to `low + hysteresis` or above for the low one.
pub proof fn lemma_waits_rearm(st: AlertState, first: Seq<int>, second: Seq<int>, c: Crossing)
    requires
        st.wf(),
        st.waits_through(first),
        st.run(first).waits_through(second),
        st.report_at(first, first.len() - 1) == Some(c),
        st.run(first).report_at(second, second.len() - 1) == Some(c),
    ensures
        c == Crossing::High ==> second.last() > st.high && exists|k: int|
            0 <= k < second.len() - 1 && second[k] <= st.high - st.hysteresis,
        c == Crossing::Low ==> second.last() < st.low && exists|k: int|
            0 <= k < second.len() - 1 && second[k] >= st.low + st.hysteresis,
{
    let all = first + second;
    let i = first.len() - 1;
    let j = first.len() + second.len() - 1;
    lemma_report_at_concat(st, first, second, i);
    lemma_report_at_concat(st, first, second, j);
    lemma_hysteresis_rearm(st, all, i, j, c);
    if c == Crossing::High {
        let k = choose|k: int| i < k < j && all[k] <= st.high - st.hysteresis;
        assert(second[k - first.len()] == all[k]);
    }
    if c == Crossing::Low {
        let k = choose|k: int| i < k < j && all[k] >= st.low + st.hysteresis;
        assert(second[k - first.len()] == all[k]);
    }
}

/// Decides threshold crossings for one quantity.
pub struct ThresholdMonitor {
    low: i64,
    high: i64,
    hysteresis: i64,
    low_armed: bool,
    high_armed: bool,
}

impl View for ThresholdMonitor {
    type V = AlertState;

    closed spec fn view(&self) -> AlertState {
        AlertState {
            low: self.low as int,
            high: self.high as int,
            hysteresis: self.hysteresis as int,
            low_armed: self.low_armed,
            high_armed: self.high_armed,
        }
    }
}

impl ThresholdMonitor {
    #[verifier::type_invariant]
    pub open spec fn inv(&self) -> bool {
        self@.wf()
    }

    /// A fresh monitor, which no sample crosses.
    pub fn new() -> (m: ThresholdMonitor)
        ensures
            m@ == AlertState::initial(),
    {
        ThresholdMonitor {
            low: i64::MIN,
            high: i64::MAX,
            hysteresis: 0,
            low_armed: true,
            high_armed: true,
        }
    }

    /// The low threshold.
    pub fn threshold_low(&self) -> (v: i64)
        ensures
            v == self@.low,
    {
        self.low
    }

    /// The high threshold.
    pub fn threshold_high(&self) -> (v: i64)
        ensures
            v == self@.high,
    {
        self.high
    }

    /// The hysteresis.
    pub fn hysteresis(&self) -> (v: i64)
        ensures
            v == self@.hysteresis,
    {
        self.hysteresis
    }
    /// Stores the low threshold and arms the low bound. A threshold above the
    /// high one is refused with `InvalidInput`, leaving the monitor as it was.
    pub fn set_threshold_low(&mut self, threshold: i64) -> (r: Result<(), ErrorKind>)
        ensures
            final(self)@.wf(),
            threshold > old(self)@.high ==> r == Err::<(), ErrorKind>(ErrorKind::InvalidInput)
                && final(self)@ == old(self)@,
            threshold <= old(self)@.high ==> r is Ok && final(self)@ == (AlertState {
                low: threshold as int,
                low_armed: true,
                ..old(self)@
            }),
    {
        proof {
            use_type_invariant(&*self);
        }
        if threshold > self.high {
            return Err(ErrorKind::InvalidInput);
        }
        self.low = threshold;
        self.low_armed = true;
        Ok(())
    }

    /// Stores the high threshold and arms the high bound. A threshold below the
    /// low one is refused with `InvalidInput`, leaving the monitor as it was.
    pub fn set_threshold_high(&mut self, threshold: i64) -> (r: Result<(), ErrorKind>)
        ensures
            final(self)@.wf(),
            threshold < old(self)@.low ==> r == Err::<(), ErrorKind>(ErrorKind::InvalidInput)
                && final(self)@ == old(self)@,
            threshold >= old(self)@.low ==> r is Ok && final(self)@ == (AlertState {
                high: threshold as int,
                high_armed: true,
                ..old(self)@
            }),
    {
        proof {
            use_type_invariant(&*self);
        }
        if threshold < self.low {
            return Err(ErrorKind::InvalidInput);
        }
        self.high = threshold;
        self.high_armed = true;
        Ok(())
    }

    /// Stores the hysteresis, which applies to both bounds. A negative one is
    /// refused with `InvalidInput`, leaving the monitor as it was.
    pub fn set_hysteresis(&mut self, hysteresis: i64) -> (r: Result<(), ErrorKind>)
        ensures
            final(self)@.wf(),
            hysteresis < 0 ==> r == Err::<(), ErrorKind>(ErrorKind::InvalidInput)
                && final(self)@ == old(self)@,
            hysteresis >= 0 ==> r is Ok && final(self)@ == (AlertState {
                hysteresis: hysteresis as int,
                ..old(self)@
            }),
    {
        proof {
            use_type_invariant(&*self);
        }
        if hysteresis < 0 {
            return Err(ErrorKind::InvalidInput);
        }
        self.hysteresis = hysteresis;
        Ok(())
    }

    /// Observes one sample: returns the crossing it reports, if any, and
    /// disarms or re-arms the bounds.
    pub fn observe(&mut self, sample: i64) -> (r: Option<Crossing>)
        ensures
            final(self)@.wf(),
            r == old(self)@.report(sample as int),
            final(self)@ == old(self)@.next(sample as int),
    {
        proof {
            use_type_invariant(&*self);
        }
        let r = if self.high_armed && sample > self.high {
            Some(Crossing::High)
        } else if self.low_armed && sample < self.low {
            Some(Crossing::Low)
        } else {
            None
        };
        let back_below_high = (sample as i128) <= (self.high as i128) - (self.hysteresis as i128);
        let back_above_low = (sample as i128) >= (self.low as i128) + (self.hysteresis as i128);
        self.high_armed = match r {
            Some(Crossing::High) => false,
            _ => self.high_armed || back_below_high,
        };
        self.low_armed = match r {
            Some(Crossing::Low) => false,
            _ => self.low_armed || back_above_low,
        };
        r
    }
}

} // verus!
