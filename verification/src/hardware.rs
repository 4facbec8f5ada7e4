//! Capability interfaces and physical-quantity value types.
//!
//! Consumers of a sensor depend only on these interfaces, never on a concrete
//! chip driver. Each interface declares exactly one operation: read the
//! current value.

use vstd::prelude::*;

verus! {

/// A sensor that yields the current illumination in lux (chip-native scale).
pub trait LightSensor {
    type Error;

    fn read_value(&mut self) -> Result<u16, Self::Error>;
}

/// A sensor that yields the current barometric pressure.
pub trait PressureSensor {
    type Error;

    fn read_value(&mut self) -> Result<Pressure, Self::Error>;
}

/// A sensor that yields the current temperature.
pub trait TemperatureSensor {
    type Error;

    fn read_value(&mut self) -> Result<Temperature, Self::Error>;
}

/// A barometric pressure, stored as hectoPascal in Q24.8 fixed point scaled
/// by a further 100 (equivalently: Pascal in Q24.8 fixed point).
pub struct Pressure {
    pub raw_value: u32,
}

/// A temperature, stored as degrees Celsius scaled by 100.
pub struct Temperature {
    pub raw_value: i32,
}

impl Pressure {
    /// Wraps a raw Q24.8 x 100 hPa reading.
    pub fn from_q248_100(value: u32) -> (r: Self)
        ensures
            r.raw_value == value,
    {
        Pressure { raw_value: value }
    }

    /// The raw fixed-point encoding. Dividing it by 25600 gives hPa; the
    /// division is left to display code, since it leaves the integers.
    pub fn raw(&self) -> (r: u32)
        ensures
            r == self.raw_value,
    {
        self.raw_value
    }
}

impl Temperature {
    /// Wraps a raw degrees-Celsius-times-100 reading.
    pub fn from_deg_c_100(value: i32) -> (r: Self)
        ensures
            r.raw_value == value,
    {
        Temperature { raw_value: value }
    }

    /// The raw fixed-point encoding. Dividing it by 100 gives degrees
    /// Celsius; the division is left to display code, since it leaves the
    /// integers.
    pub fn raw(&self) -> (r: i32)
        ensures
            r == self.raw_value,
    {
        self.raw_value
    }
}

} // verus!
