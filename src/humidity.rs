//! Relative humidity sensors: reading, thresholds, waiting and hysteresis.
//!
//! Every capability speaks of the sensor's alert state: its thresholds, its
//! hysteresis and which bounds are armed, as described in
//! [`crate::threshold`]. Drivers verified with Verus must define
//! `relative_humidity_alert` from their own state; its default, the state of
//! a fresh monitor, only lets drivers that are not verified compile, and
//! nothing holds such drivers to the contracts below.
use crate::sensor::{ErrorKind, ErrorType};
use crate::threshold::{AlertError, AlertState, ThresholdMonitor};
use vstd::prelude::*;

verus! {

/// A relative humidity sample, in millionths of a percentage point.
pub type MicroPercent = i64;

/// Reads relative humidity.
pub trait RelativeHumiditySensor: ErrorType {
    /// The sensor's relative humidity alert state.
    open spec fn relative_humidity_alert(&self) -> AlertState {
        AlertState::initial()
    }

    /// Returns a relative humidity sample in millionths of a percentage
    /// point. A read leaves the alert state as it was.
    fn relative_humidity(&mut self) -> (r: Result<MicroPercent, Self::Error>)
        ensures
            (*final(self)).relative_humidity_alert() == (*old(self)).relative_humidity_alert(),
    ;
}

impl<T: RelativeHumiditySensor + ?Sized> RelativeHumiditySensor for &mut T {
    open spec fn relative_humidity_alert(&self) -> AlertState {
        (**self).relative_humidity_alert()
    }

    #[inline]
    fn relative_humidity(&mut self) -> (r: Result<MicroPercent, Self::Error>) {
        T::relative_humidity(*self)
    }
}

/// Stores low and high relative humidity thresholds.
pub trait RelativeHumidityThresholdSet: RelativeHumiditySensor {
    /// Sets the low threshold; the high one and the hysteresis are left as
    /// they were.
    fn set_relative_humidity_threshold_low(&mut self, threshold: MicroPercent) -> (r: Result<
        (),
        Self::Error,
    >)
        ensures
            r is Ok ==> (*final(self)).relative_humidity_alert().low == threshold,
            r is Err ==> (*final(self)).relative_humidity_alert().low
                == (*old(self)).relative_humidity_alert().low,
            (*final(self)).relative_humidity_alert().high == (*old(self)).relative_humidity_alert().high,
            (*final(self)).relative_humidity_alert().hysteresis
                == (*old(self)).relative_humidity_alert().hysteresis,
    ;

    /// Sets the high threshold; the low one and the hysteresis are left as
    /// they were.
    fn set_relative_humidity_threshold_high(&mut self, threshold: MicroPercent) -> (r: Result<
        (),
        Self::Error,
    >)
        ensures
            r is Ok ==> (*final(self)).relative_humidity_alert().high == threshold,
            r is Err ==> (*final(self)).relative_humidity_alert().high
                == (*old(self)).relative_humidity_alert().high,
            (*final(self)).relative_humidity_alert().low == (*old(self)).relative_humidity_alert().low,
            (*final(self)).relative_humidity_alert().hysteresis
                == (*old(self)).relative_humidity_alert().hysteresis,
    ;
}

impl<T: RelativeHumidityThresholdSet + ?Sized> RelativeHumidityThresholdSet for &mut T {
    fn set_relative_humidity_threshold_low(&mut self, threshold: MicroPercent) -> (r: Result<
        (),
        Self::Error,
    >) {
        T::set_relative_humidity_threshold_low(*self, threshold)
    }

    fn set_relative_humidity_threshold_high(&mut self, threshold: MicroPercent) -> (r: Result<
        (),
        Self::Error,
    >) {
        T::set_relative_humidity_threshold_high(*self, threshold)
    }
}

/// Waits until a stored relative humidity threshold is crossed.
pub trait RelativeHumidityThresholdWait: RelativeHumidityThresholdSet {
    /// Blocks until the relative humidity is below the low threshold or above
    /// the high one on an armed bound, and returns the sample that crossed, so
    /// that the caller can tell which bound it was. A sample equal to a
    /// threshold does not cross it. The samples observed while waiting arm
    /// and disarm the bounds as the hysteresis says; the thresholds and the
    /// hysteresis are left as they were.
    fn wait_for_relative_humidity_threshold(&mut self) -> (r: Result<MicroPercent, Self::Error>)
        ensures
            (*final(self)).relative_humidity_alert().low == (*old(self)).relative_humidity_alert().low,
            (*final(self)).relative_humidity_alert().high == (*old(self)).relative_humidity_alert().high,
            (*final(self)).relative_humidity_alert().hysteresis
                == (*old(self)).relative_humidity_alert().hysteresis,
            r is Ok ==> r->Ok_0 < (*old(self)).relative_humidity_alert().low || r->Ok_0
                > (*old(self)).relative_humidity_alert().high,
            r is Ok ==> exists|samples: Seq<int>|
                #![trigger (*old(self)).relative_humidity_alert().run(samples)]
                (*old(self)).relative_humidity_alert().waits_through(samples) && samples.last()
                    == r->Ok_0 && (*final(self)).relative_humidity_alert() == (*old(
                    self,
                )).relative_humidity_alert().run(samples),
    ;
}

impl<T: RelativeHumidityThresholdWait + ?Sized> RelativeHumidityThresholdWait for &mut T {
    fn wait_for_relative_humidity_threshold(&mut self) -> (r: Result<MicroPercent, Self::Error>) {
        T::wait_for_relative_humidity_threshold(*self)
    }
}

/// Stores a hysteresis around both relative humidity thresholds.
pub trait RelativeHumidityHysteresis: RelativeHumidityThresholdSet {
    /// Sets the hysteresis; the thresholds are left as they were.
    fn set_relative_humidity_threshold_hysteresis(&mut self, hysteresis: MicroPercent) -> (r: Result<
        (),
        Self::Error,
    >)
        ensures
            r is Ok ==> (*final(self)).relative_humidity_alert().hysteresis == hysteresis,
            r is Err ==> (*final(self)).relative_humidity_alert().hysteresis
                == (*old(self)).relative_humidity_alert().hysteresis,
            (*final(self)).relative_humidity_alert().low == (*old(self)).relative_humidity_alert().low,
            (*final(self)).relative_humidity_alert().high == (*old(self)).relative_humidity_alert().high,
    ;
}

impl<T: RelativeHumidityHysteresis + ?Sized> RelativeHumidityHysteresis for &mut T {
    fn set_relative_humidity_threshold_hysteresis(&mut self, hysteresis: MicroPercent) -> (r: Result<
        (),
        Self::Error,
    >) {
        T::set_relative_humidity_threshold_hysteresis(*self, hysteresis)
    }
}

/// A relative humidity sensor whose thresholds and hysteresis are kept and
/// checked in software, sample by sample.
pub struct RelativeHumidityAlert<S> {
    /// The sensor that is read.
    pub sensor: S,
    /// The thresholds, the hysteresis and which bounds are armed.
    pub monitor: ThresholdMonitor,
}

impl<S> RelativeHumidityAlert<S> {
    /// Wraps `sensor` with a fresh monitor, which no sample crosses.
    pub fn new(sensor: S) -> (a: RelativeHumidityAlert<S>)
        ensures
            a.sensor == sensor,
            a.monitor@ == AlertState::initial(),
    {
        RelativeHumidityAlert { sensor, monitor: ThresholdMonitor::new() }
    }
}

impl<S: RelativeHumiditySensor> RelativeHumidityAlert<S> {
    /// Takes one reading and checks it against the armed thresholds. Returns
    /// the sample when it reports a crossing, `None` when it does not, and the
    /// sensor's error, with the monitor left as it was, when the read fails.
    pub fn poll_relative_humidity_threshold(&mut self) -> (r: Result<
        Option<MicroPercent>,
        AlertError<S::Error>,
    >)
        ensures
            final(self).monitor@.wf(),
            r is Err ==> r->Err_0 is Sensor && final(self).monitor@ == old(self).monitor@,
            r matches Ok(Some(v)) ==> v < old(self).monitor@.low || v > old(self).monitor@.high,
            r matches Ok(Some(v)) ==> old(self).monitor@.report(v as int) is Some
                && final(self).monitor@ == old(self).monitor@.next(v as int),
            r matches Ok(None) ==> exists|v: MicroPercent|
                old(self).monitor@.report(v as int) is None && final(self).monitor@
                    == old(self).monitor@.next(v as int),
    {
        proof {
            use_type_invariant(&self.monitor);
        }
        match self.sensor.relative_humidity() {
            Err(e) => Err(AlertError::Sensor(e)),
            Ok(v) => match self.monitor.observe(v) {
                Some(_) => Ok(Some(v)),
                None => Ok(None),
            },
        }
    }
}

impl<S: ErrorType> ErrorType for RelativeHumidityAlert<S> {
    type Error = AlertError<S::Error>;
}

impl<S: RelativeHumiditySensor> RelativeHumiditySensor for RelativeHumidityAlert<S> {
    open spec fn relative_humidity_alert(&self) -> AlertState {
        self.monitor@
    }

    /// Reads the sensor; its error comes back as `Sensor`.
    fn relative_humidity(&mut self) -> (r: Result<MicroPercent, Self::Error>)
        ensures
            final(self).monitor == old(self).monitor,
            r is Err ==> r->Err_0 is Sensor,
    {
        match self.sensor.relative_humidity() {
            Ok(v) => Ok(v),
            Err(e) => Err(AlertError::Sensor(e)),
        }
    }
}

impl<S: RelativeHumiditySensor> RelativeHumidityThresholdSet for RelativeHumidityAlert<S> {
    /// Refused with `InvalidInput` when above the high threshold.
    fn set_relative_humidity_threshold_low(&mut self, threshold: MicroPercent) -> (r: Result<
        (),
        Self::Error,
    >)
        ensures
            r is Ok <==> threshold <= old(self).monitor@.high,
            r is Err ==> (r->Err_0 matches AlertError::Config(ErrorKind::InvalidInput)),
            r is Err ==> final(self).monitor@ == old(self).monitor@,
            r is Ok ==> final(self).monitor@ == (AlertState {
                low: threshold as int,
                low_armed: true,
                ..old(self).monitor@
            }),
    {
        match self.monitor.set_threshold_low(threshold) {
            Ok(()) => Ok(()),
            Err(k) => Err(AlertError::Config(k)),
        }
    }

    /// Refused with `InvalidInput` when below the low threshold.
    fn set_relative_humidity_threshold_high(&mut self, threshold: MicroPercent) -> (r: Result<
        (),
        Self::Error,
    >)
        ensures
            r is Ok <==> threshold >= old(self).monitor@.low,
            r is Err ==> (r->Err_0 matches AlertError::Config(ErrorKind::InvalidInput)),
            r is Err ==> final(self).monitor@ == old(self).monitor@,
            r is Ok ==> final(self).monitor@ == (AlertState {
                high: threshold as int,
                high_armed: true,
                ..old(self).monitor@
            }),
    {
        match self.monitor.set_threshold_high(threshold) {
            Ok(()) => Ok(()),
            Err(k) => Err(AlertError::Config(k)),
        }
    }
}

impl<S: RelativeHumiditySensor> RelativeHumidityHysteresis for RelativeHumidityAlert<S> {
    /// Refused with `InvalidInput` when negative.
    fn set_relative_humidity_threshold_hysteresis(&mut self, hysteresis: MicroPercent) -> (r: Result<
        (),
        Self::Error,
    >)
        ensures
            r is Ok <==> hysteresis >= 0,
            r is Err ==> (r->Err_0 matches AlertError::Config(ErrorKind::InvalidInput)),
            r is Err ==> final(self).monitor@ == old(self).monitor@,
            r is Ok ==> final(self).monitor@ == (AlertState {
                hysteresis: hysteresis as int,
                ..old(self).monitor@
            }),
    {
        match self.monitor.set_hysteresis(hysteresis) {
            Ok(()) => Ok(()),
            Err(k) => Err(AlertError::Config(k)),
        }
    }
}

} // verus!
