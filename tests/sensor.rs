use embedded_sensors::sensor::{Error, ErrorKind, ErrorType};
use embedded_sensors::temperature::{MicroCelsius, TemperatureSensor};

const ALL_KINDS: [ErrorKind; 5] = [
    ErrorKind::Peripheral,
    ErrorKind::NotReady,
    ErrorKind::Saturated,
    ErrorKind::InvalidInput,
    ErrorKind::Other,
];

#[derive(Debug, Clone, Copy, PartialEq)]
enum BusError {
    Nack,
    Busy,
}

impl Error for BusError {
    fn kind(&self) -> ErrorKind {
        match self {
            BusError::Nack => ErrorKind::Peripheral,
            BusError::Busy => ErrorKind::NotReady,
        }
    }
}

struct BrokenBus {
    busy: bool,
}

impl ErrorType for BrokenBus {
    type Error = BusError;
}

impl TemperatureSensor for BrokenBus {
    fn temperature(&mut self) -> Result<MicroCelsius, BusError> {
        if self.busy {
            Err(BusError::Busy)
        } else {
            Err(BusError::Nack)
        }
    }
}

struct Fixed;

impl ErrorType for Fixed {
    type Error = core::convert::Infallible;
}

impl TemperatureSensor for Fixed {
    fn temperature(&mut self) -> Result<MicroCelsius, core::convert::Infallible> {
        Ok(21_000_000)
    }
}

fn classify<E: Error>(e: &E) -> &'static str {
    match e.kind() {
        ErrorKind::NotReady => "retry",
        ErrorKind::Peripheral => "bus fault",
        _ => "fatal",
    }
}

#[test]
fn kind_of_kind_is_itself() {
    for k in ALL_KINDS {
        assert_eq!(k.kind(), k);
        assert_eq!(k.kind().kind(), k.kind());
    }
}

#[test]
fn failed_bus_read_is_peripheral() {
    let mut s = BrokenBus { busy: false };
    let e = s.temperature().unwrap_err();
    assert_eq!(e.kind(), ErrorKind::Peripheral);
    assert_eq!(classify(&e), "bus fault");
    let mut s = BrokenBus { busy: true };
    let e = s.temperature().unwrap_err();
    assert_eq!(e.kind(), ErrorKind::NotReady);
    assert_eq!(classify(&e), "retry");
    assert_ne!(ErrorKind::Peripheral, ErrorKind::NotReady);
}

#[test]
fn infallible_driver_never_fails() {
    let mut s = Fixed;
    for _ in 0..3 {
        assert_eq!(s.temperature(), Ok(21_000_000));
    }
}

#[test]
fn descriptions_per_kind() {
    assert_eq!(
        ErrorKind::Peripheral.to_string(),
        "An error occured on the underlying peripheral. The original error may contain more informaton"
    );
    assert_eq!(ErrorKind::NotReady.description(), "Sensor is not yet ready to be sampled");
    assert_eq!(
        ErrorKind::Saturated.description(),
        "Sensor is saturated thus samples may be invalid"
    );
    assert_eq!(
        ErrorKind::InvalidInput.to_string(),
        "Sensor was configured with invalid input"
    );
    assert_eq!(
        ErrorKind::Other.description(),
        "A different error occurred. The original error may contain more information"
    );
    for a in ALL_KINDS {
        for b in ALL_KINDS {
            assert_eq!(a == b, a.description() == b.description());
        }
    }
}
