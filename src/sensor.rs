//! Error handling and traits shared by all sensors.
use vstd::prelude::*;

verus! {

/// Sensor error kind.
///
/// A common set of sensor failures. Drivers are free to define richer error
/// types, and map each of their errors to one of these so that generic code
/// can react to the failure category.
#[derive(Debug, Copy, Clone, PartialEq, Eq, Structural, PartialOrd, Ord, Hash)]
#[non_exhaustive]
pub enum ErrorKind {
    /// The underlying peripheral failed (e.g. an I2C or ADC error).
    /// The original error may contain more information.
    Peripheral,
    /// The sensor has no valid sample yet.
    NotReady,
    /// The sensor is saturated, so a sample may be invalid.
    Saturated,
    /// The sensor was configured with invalid input.
    InvalidInput,
    /// Any other failure. The original error may contain more information.
    Other,
}

impl ErrorKind {
    /// The human-readable description of each kind.
    pub open spec fn spec_description(self) -> Seq<char> {
        match self {
            ErrorKind::Peripheral =>
                "An error occured on the underlying peripheral. The original error may contain more informaton"@,
            ErrorKind::NotReady => "Sensor is not yet ready to be sampled"@,
            ErrorKind::Saturated => "Sensor is saturated thus samples may be invalid"@,
            ErrorKind::InvalidInput => "Sensor was configured with invalid input"@,
            ErrorKind::Other =>
                "A different error occurred. The original error may contain more information"@,
        }
    }

    /// Describes the kind for logs and diagnostics.
    pub fn description(&self) -> (s: &'static str)
        ensures
            s@ == self.spec_description(),
    {
        match self {
            ErrorKind::Peripheral =>
                "An error occured on the underlying peripheral. The original error may contain more informaton",
            ErrorKind::NotReady => "Sensor is not yet ready to be sampled",
            ErrorKind::Saturated => "Sensor is saturated thus samples may be invalid",
            ErrorKind::InvalidInput => "Sensor was configured with invalid input",
            ErrorKind::Other =>
                "A different error occurred. The original error may contain more information",
        }
    }

    /// The description as an owned string.
    pub fn to_string(&self) -> (s: String)
        ensures
            s@ == self.spec_description(),
    {
        String::from_str(self.description())
    }
}

/// Sensor error: any driver error maps to exactly one [`ErrorKind`].
pub trait Error: core::fmt::Debug {
    /// The kind this error maps to, as a function of the error value alone.
    /// Every implementation verified with Verus must override it with its
    /// mapping. The default only lets implementations that are not verified
    /// compile without writing it; nothing holds those to this contract.
    open spec fn spec_kind(&self) -> ErrorKind {
        ErrorKind::Other
    }

    /// Converts the error to its generic kind.
    fn kind(&self) -> (k: ErrorKind)
        ensures
            k == self.spec_kind(),
    ;
}

/// An infallible driver never produces an error value, so no caller can reach
/// this mapping; it is total only because the trait asks for it.
impl Error for core::convert::Infallible {
    open spec fn spec_kind(&self) -> ErrorKind {
        ErrorKind::Other
    }

    #[inline]
    fn kind(&self) -> (k: ErrorKind) {
        ErrorKind::Other
    }
}

impl Error for ErrorKind {
    /// A kind is its own kind.
    open spec fn spec_kind(&self) -> ErrorKind {
        *self
    }

    #[inline]
    fn kind(&self) -> (k: ErrorKind) {
        *self
    }
}

/// Classifying a kind again changes nothing.
pub proof fn lemma_kind_idempotent(e: ErrorKind)
    ensures
        e.spec_kind().spec_kind() == e.spec_kind(),
        e.spec_kind() == e,
{
}

/// Associates exactly one error type with a sensor.
pub trait ErrorType {
    /// Error type returned by every operation of the sensor.
    type Error: Error;
}

impl<T: ErrorType + ?Sized> ErrorType for &mut T {
    type Error = T::Error;
}

} // verus!
