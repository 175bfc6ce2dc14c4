//! Temperature sensors: reading, thresholds, waiting and hysteresis.
//!
//! Every capability speaks of the sensor's alert state: its thresholds, its
//! hysteresis and which bounds are armed, as described in
//! [`crate::threshold`]. Drivers verified with Verus must define
//! `temperature_alert` from their own state; its default, the state of a fresh
//! monitor, only lets drivers that are not verified compile, and nothing holds
//! such drivers to the contracts below.
use crate::sensor::{ErrorKind, ErrorType};
use crate::threshold::{AlertError, AlertState, ThresholdMonitor};
use vstd::prelude::*;

verus! {

/// A temperature sample, in millionths of a degree Celsius.
pub type MicroCelsius = i64;

/// Reads temperature.
pub trait TemperatureSensor: ErrorType {
    /// The sensor's temperature alert state.
    open spec fn temperature_alert(&self) -> AlertState {
        AlertState::initial()
    }

    /// Returns a temperature sample in millionths of a degree Celsius. A read
    /// leaves the alert state as it was.
    fn temperature(&mut self) -> (r: Result<MicroCelsius, Self::Error>)
        ensures
            (*final(self)).temperature_alert() == (*old(self)).temperature_alert(),
    ;
}

impl<T: TemperatureSensor + ?Sized> TemperatureSensor for &mut T {
    open spec fn temperature_alert(&self) -> AlertState {
        (**self).temperature_alert()
    }

    #[inline]
    fn temperature(&mut self) -> (r: Result<MicroCelsius, Self::Error>) {
        T::temperature(*self)
    }
}

/// Stores low and high temperature thresholds.
pub trait TemperatureThresholdSet: TemperatureSensor {
    /// Sets the low threshold; the high one and the hysteresis are left as
    /// they were.
    fn set_temperature_threshold_low(&mut self, threshold: MicroCelsius) -> (r: Result<
        (),
        Self::Error,
    >)
        ensures
            r is Ok ==> (*final(self)).temperature_alert().low == threshold,
            r is Err ==> (*final(self)).temperature_alert().low
                == (*old(self)).temperature_alert().low,
            (*final(self)).temperature_alert().high == (*old(self)).temperature_alert().high,
            (*final(self)).temperature_alert().hysteresis
                == (*old(self)).temperature_alert().hysteresis,
    ;

    /// Sets the high threshold; the low one and the hysteresis are left as
    /// they were.
    fn set_temperature_threshold_high(&mut self, threshold: MicroCelsius) -> (r: Result<
        (),
        Self::Error,
    >)
        ensures
            r is Ok ==> (*final(self)).temperature_alert().high == threshold,
            r is Err ==> (*final(self)).temperature_alert().high
                == (*old(self)).temperature_alert().high,
            (*final(self)).temperature_alert().low == (*old(self)).temperature_alert().low,
            (*final(self)).temperature_alert().hysteresis
                == (*old(self)).temperature_alert().hysteresis,
    ;
}

impl<T: TemperatureThresholdSet + ?Sized> TemperatureThresholdSet for &mut T {
    fn set_temperature_threshold_low(&mut self, threshold: MicroCelsius) -> (r: Result<
        (),
        Self::Error,
    >) {
        T::set_temperature_threshold_low(*self, threshold)
    }

    fn set_temperature_threshold_high(&mut self, threshold: MicroCelsius) -> (r: Result<
        (),
        Self::Error,
    >) {
        T::set_temperature_threshold_high(*self, threshold)
    }
}

/// Waits until a stored temperature threshold is crossed.
pub trait TemperatureThresholdWait: TemperatureThresholdSet {
    /// Blocks until the temperature is below the low threshold or above the
    /// high one on an armed bound, and returns the sample that crossed, so
    /// that the caller can tell which bound it was. A sample equal to a
    /// threshold does not cross it. The samples observed while waiting arm
    /// and disarm the bounds as the hysteresis says; the thresholds and the
    /// hysteresis are left as they were.
    fn wait_for_temperature_threshold(&mut self) -> (r: Result<MicroCelsius, Self::Error>)
        ensures
            (*final(self)).temperature_alert().low == (*old(self)).temperature_alert().low,
            (*final(self)).temperature_alert().high == (*old(self)).temperature_alert().high,
            (*final(self)).temperature_alert().hysteresis
                == (*old(self)).temperature_alert().hysteresis,
            r is Ok ==> r->Ok_0 < (*old(self)).temperature_alert().low || r->Ok_0
                > (*old(self)).temperature_alert().high,
            r is Ok ==> exists|samples: Seq<int>|
                #![trigger (*old(self)).temperature_alert().run(samples)]
                (*old(self)).temperature_alert().waits_through(samples) && samples.last()
                    == r->Ok_0 && (*final(self)).temperature_alert() == (*old(
                    self,
                )).temperature_alert().run(samples),
    ;
}

impl<T: TemperatureThresholdWait + ?Sized> TemperatureThresholdWait for &mut T {
    fn wait_for_temperature_threshold(&mut self) -> (r: Result<MicroCelsius, Self::Error>) {
        T::wait_for_temperature_threshold(*self)
    }
}

/// Stores a hysteresis around both temperature thresholds.
pub trait TemperatureHysteresis: TemperatureThresholdSet {
    /// Sets the hysteresis; the thresholds are left as they were.
    fn set_temperature_threshold_hysteresis(&mut self, hysteresis: MicroCelsius) -> (r: Result<
        (),
        Self::Error,
    >)
        ensures
            r is Ok ==> (*final(self)).temperature_alert().hysteresis == hysteresis,
            r is Err ==> (*final(self)).temperature_alert().hysteresis
                == (*old(self)).temperature_alert().hysteresis,
            (*final(self)).temperature_alert().low == (*old(self)).temperature_alert().low,
            (*final(self)).temperature_alert().high == (*old(self)).temperature_alert().high,
    ;
}

impl<T: TemperatureHysteresis + ?Sized> TemperatureHysteresis for &mut T {
    fn set_temperature_threshold_hysteresis(&mut self, hysteresis: MicroCelsius) -> (r: Result<
        (),
        Self::Error,
    >) {
        T::set_temperature_threshold_hysteresis(*self, hysteresis)
    }
}

/// A temperature sensor whose thresholds and hysteresis are kept and
/// checked in software, sample by sample.
pub struct TemperatureAlert<S> {
    /// The sensor that is read.
    pub sensor: S,
    /// The thresholds, the hysteresis and which bounds are armed.
    pub monitor: ThresholdMonitor,
}

impl<S> TemperatureAlert<S> {
    /// Wraps `sensor` with a fresh monitor, which no sample crosses.
    pub fn new(sensor: S) -> (a: TemperatureAlert<S>)
        ensures
            a.sensor == sensor,
            a.monitor@ == AlertState::initial(),
    {
        TemperatureAlert { sensor, monitor: ThresholdMonitor::new() }
    }
}

impl<S: TemperatureSensor> TemperatureAlert<S> {
    /// Takes one reading and checks it against the armed thresholds. Returns
    /// the sample when it reports a crossing, `None` when it does not, and the
    /// sensor's error, with the monitor left as it was, when the read fails.
    pub fn poll_temperature_threshold(&mut self) -> (r: Result<
        Option<MicroCelsius>,
        AlertError<S::Error>,
    >)
        ensures
            final(self).monitor@.wf(),
            r is Err ==> r->Err_0 is Sensor && final(self).monitor@ == old(self).monitor@,
            r matches Ok(Some(v)) ==> v < old(self).monitor@.low || v > old(self).monitor@.high,
            r matches Ok(Some(v)) ==> old(self).monitor@.report(v as int) is Some
                && final(self).monitor@ == old(self).monitor@.next(v as int),
            r matches Ok(None) ==> exists|v: MicroCelsius|
                old(self).monitor@.report(v as int) is None && final(self).monitor@
                    == old(self).monitor@.next(v as int),
    {
        proof {
            use_type_invariant(&self.monitor);
        }
        match self.sensor.temperature() {
            Err(e) => Err(AlertError::Sensor(e)),
            Ok(v) => match self.monitor.observe(v) {
                Some(_) => Ok(Some(v)),
                None => Ok(None),
            },
        }
    }
}

impl<S: ErrorType> ErrorType for TemperatureAlert<S> {
    type Error = AlertError<S::Error>;
}

impl<S: TemperatureSensor> TemperatureSensor for TemperatureAlert<S> {
    open spec fn temperature_alert(&self) -> AlertState {
        self.monitor@
    }

    /// Reads the sensor; its error comes back as `Sensor`.
    fn temperature(&mut self) -> (r: Result<MicroCelsius, Self::Error>)
        ensures
            final(self).monitor == old(self).monitor,
            r is Err ==> r->Err_0 is Sensor,
    {
        match self.sensor.temperature() {
            Ok(v) => Ok(v),
            Err(e) => Err(AlertError::Sensor(e)),
        }
    }
}

impl<S: TemperatureSensor> TemperatureThresholdSet for TemperatureAlert<S> {
    /// Refused with `InvalidInput` when above the high threshold.
    fn set_temperature_threshold_low(&mut self, threshold: MicroCelsius) -> (r: Result<
        (),
        Self::Error,
    >)
        ensures
            r is Ok <==> threshold <= old(self).monitor@.high,
            r is Err ==> (r->Err_0 matches AlertError::Config(ErrorKind::InvalidInput)),
            r is Err ==> final(self).monitor@ == old(self).monitor@,
            r is Ok ==> final(self).monitor@ == (AlertState {
                low: threshold as int,
                low_armed: true,
                ..old(self).monitor@
            }),
    {
        match self.monitor.set_threshold_low(threshold) {
            Ok(()) => Ok(()),
            Err(k) => Err(AlertError::Config(k)),
        }
    }

    /// Refused with `InvalidInput` when below the low threshold.
    fn set_temperature_threshold_high(&mut self, threshold: MicroCelsius) -> (r: Result<
        (),
        Self::Error,
    >)
        ensures
            r is Ok <==> threshold >= old(self).monitor@.low,
            r is Err ==> (r->Err_0 matches AlertError::Config(ErrorKind::InvalidInput)),
            r is Err ==> final(self).monitor@ == old(self).monitor@,
            r is Ok ==> final(self).monitor@ == (AlertState {
                high: threshold as int,
                high_armed: true,
                ..old(self).monitor@
            }),
    {
        match self.monitor.set_threshold_high(threshold) {
            Ok(()) => Ok(()),
            Err(k) => Err(AlertError::Config(k)),
        }
    }
}

impl<S: TemperatureSensor> TemperatureHysteresis for TemperatureAlert<S> {
    /// Refused with `InvalidInput` when negative.
    fn set_temperature_threshold_hysteresis(&mut self, hysteresis: MicroCelsius) -> (r: Result<
        (),
        Self::Error,
    >)
        ensures
            r is Ok <==> hysteresis >= 0,
            r is Err ==> (r->Err_0 matches AlertError::Config(ErrorKind::InvalidInput)),
            r is Err ==> final(self).monitor@ == old(self).monitor@,
            r is Ok ==> final(self).monitor@ == (AlertState {
                hysteresis: hysteresis as int,
                ..old(self).monitor@
            }),
    {
        match self.monitor.set_hysteresis(hysteresis) {
            Ok(()) => Ok(()),
            Err(k) => Err(AlertError::Config(k)),
        }
    }
}

} // verus!
