use embedded_sensors::sensor::{Error, ErrorKind, ErrorType};
use embedded_sensors::temperature::{
    MicroCelsius, TemperatureAlert, TemperatureHysteresis, TemperatureSensor,
    TemperatureThresholdSet, TemperatureThresholdWait,
};
use embedded_sensors::threshold::AlertError;

/// Replays a fixed list of readings, then reports that it is not ready.
struct Replay {
    readings: Vec<Result<MicroCelsius, ErrorKind>>,
    next: usize,
}

impl Replay {
    fn new(readings: Vec<Result<MicroCelsius, ErrorKind>>) -> Replay {
        Replay { readings, next: 0 }
    }
}

impl ErrorType for Replay {
    type Error = ErrorKind;
}

impl TemperatureSensor for Replay {
    fn temperature(&mut self) -> Result<MicroCelsius, ErrorKind> {
        let r = self.readings.get(self.next).copied().unwrap_or(Err(ErrorKind::NotReady));
        self.next += 1;
        r
    }
}

/// Polls until a crossing is reported or the sensor fails; also returns how
/// many readings were taken.
fn wait<S: TemperatureSensor>(
    a: &mut TemperatureAlert<S>,
) -> (Result<MicroCelsius, AlertError<S::Error>>, usize) {
    let mut polls = 0;
    loop {
        polls += 1;
        match a.poll_temperature_threshold() {
            Ok(Some(v)) => return (Ok(v), polls),
            Ok(None) => {}
            Err(e) => return (Err(e), polls),
        }
    }
}

fn generic_read<T: TemperatureSensor>(mut t: T) -> Result<MicroCelsius, T::Error> {
    t.temperature()
}

#[test]
fn reading_then_waiting_for_high_threshold() {
    let sensor = Replay::new(vec![
        Ok(25_300_000),
        Ok(25_300_000),
        Ok(29_000_000),
        Ok(30_000_000),
        Ok(31_000_000),
    ]);
    let mut a = TemperatureAlert::new(sensor);
    assert_eq!(a.temperature().unwrap(), 25_300_000);
    a.set_temperature_threshold_high(30_000_000).unwrap();
    let (r, polls) = wait(&mut a);
    assert_eq!(r.unwrap(), 31_000_000);
    assert_eq!(polls, 4);
}

#[test]
fn wait_reports_low_crossing() {
    let sensor = Replay::new(vec![Ok(5_000_000), Ok(-1_000_000)]);
    let mut a = TemperatureAlert::new(sensor);
    a.set_temperature_threshold_low(0).unwrap();
    let (r, polls) = wait(&mut a);
    assert_eq!(r.unwrap(), -1_000_000);
    assert_eq!(polls, 2);
}

#[test]
fn wait_passes_sensor_error_through() {
    let sensor = Replay::new(vec![Ok(1), Err(ErrorKind::Peripheral)]);
    let mut a = TemperatureAlert::new(sensor);
    a.set_temperature_threshold_high(10).unwrap();
    let (r, polls) = wait(&mut a);
    let e = r.unwrap_err();
    assert_eq!(e.kind(), ErrorKind::Peripheral);
    assert!(matches!(e, AlertError::Sensor(ErrorKind::Peripheral)));
    assert_eq!(polls, 2);
}

#[test]
fn invalid_threshold_is_config_error() {
    let mut a = TemperatureAlert::new(Replay::new(vec![]));
    a.set_temperature_threshold_low(10).unwrap();
    let e = a.set_temperature_threshold_high(5).unwrap_err();
    assert_eq!(e.kind(), ErrorKind::InvalidInput);
    let e = a.set_temperature_threshold_hysteresis(-3).unwrap_err();
    assert!(matches!(e, AlertError::Config(ErrorKind::InvalidInput)));
    a.set_temperature_threshold_hysteresis(3).unwrap();
    assert_eq!(a.monitor.hysteresis(), 3);
    assert_eq!(a.monitor.threshold_low(), 10);
}

#[test]
fn reading_does_not_touch_thresholds() {
    let mut a = TemperatureAlert::new(Replay::new(vec![Ok(40), Ok(50)]));
    a.set_temperature_threshold_low(-10).unwrap();
    a.set_temperature_threshold_high(10).unwrap();
    assert_eq!(a.temperature().unwrap(), 40);
    assert_eq!(a.monitor.threshold_low(), -10);
    assert_eq!(a.monitor.threshold_high(), 10);
    let (r, _) = wait(&mut a);
    assert_eq!(r.unwrap(), 50);
}

#[test]
fn borrow_gives_same_results_as_owner() {
    let script = vec![Ok(7), Err(ErrorKind::Saturated), Ok(-7)];
    let mut owned = Replay::new(script.clone());
    let mut borrowed = Replay::new(script);
    for _ in 0..4 {
        let direct = owned.temperature();
        let through = (&mut borrowed).temperature();
        assert_eq!(direct, through);
    }
    let mut a = TemperatureAlert::new(Replay::new(vec![]));
    let mut b = TemperatureAlert::new(Replay::new(vec![]));
    assert_eq!(
        a.set_temperature_threshold_high(3).is_ok(),
        (&mut b).set_temperature_threshold_high(3).is_ok()
    );
    let direct = a.set_temperature_threshold_low(4).unwrap_err().kind();
    let through = (&mut b).set_temperature_threshold_low(4).unwrap_err().kind();
    assert_eq!(direct, through);
    assert_eq!(a.monitor.threshold_high(), b.monitor.threshold_high());
    assert_eq!(generic_read(&mut Replay::new(vec![Ok(9)])), Ok(9));
}

/// A driver that keeps its thresholds in registers and waits on them itself.
struct Chip {
    samples: Vec<MicroCelsius>,
    next: usize,
    low: MicroCelsius,
    high: MicroCelsius,
}

impl Chip {
    fn new(samples: Vec<MicroCelsius>) -> Chip {
        Chip { samples, next: 0, low: i64::MIN, high: i64::MAX }
    }
}

impl ErrorType for Chip {
    type Error = ErrorKind;
}

impl TemperatureSensor for Chip {
    fn temperature(&mut self) -> Result<MicroCelsius, ErrorKind> {
        let r = self.samples.get(self.next).copied().ok_or(ErrorKind::NotReady);
        self.next += 1;
        r
    }
}

impl TemperatureThresholdSet for Chip {
    fn set_temperature_threshold_low(&mut self, threshold: MicroCelsius) -> Result<(), ErrorKind> {
        self.low = threshold;
        Ok(())
    }

    fn set_temperature_threshold_high(&mut self, threshold: MicroCelsius) -> Result<(), ErrorKind> {
        self.high = threshold;
        Ok(())
    }
}

impl TemperatureThresholdWait for Chip {
    fn wait_for_temperature_threshold(&mut self) -> Result<MicroCelsius, ErrorKind> {
        loop {
            let v = self.temperature()?;
            if v < self.low || v > self.high {
                return Ok(v);
            }
        }
    }
}

fn wait_generic<W: TemperatureThresholdWait>(mut w: W) -> Result<MicroCelsius, W::Error> {
    w.wait_for_temperature_threshold()
}

#[test]
fn driver_wait_resolves_after_crossing() {
    let mut c = Chip::new(vec![25_300_000, 30_000_000, 31_000_000, 40_000_000]);
    assert_eq!(c.temperature(), Ok(25_300_000));
    c.set_temperature_threshold_high(30_000_000).unwrap();
    assert_eq!(c.wait_for_temperature_threshold(), Ok(31_000_000));
    assert_eq!(c.next, 3);
}

#[test]
fn driver_wait_through_borrow_matches_direct() {
    let script = vec![1, 2, 12, -3, 20];
    let mut direct = Chip::new(script.clone());
    let mut borrowed = Chip::new(script);
    direct.set_temperature_threshold_low(0).unwrap();
    direct.set_temperature_threshold_high(10).unwrap();
    (&mut borrowed).set_temperature_threshold_low(0).unwrap();
    (&mut borrowed).set_temperature_threshold_high(10).unwrap();
    for _ in 0..4 {
        let a = direct.wait_for_temperature_threshold();
        let b = wait_generic(&mut borrowed);
        assert_eq!(a, b);
    }
    assert_eq!(direct.next, borrowed.next);
}
