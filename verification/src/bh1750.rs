//! Driver for the BH1750 ambient-light sensor.
//!
//! The chip is configured with one command byte derived from the operation
//! and resolution modes, waits a mode-specific settle delay, and then serves
//! its 16-bit lux-equivalent output register, high byte first on the wire.

use vstd::prelude::*;

use crate::bus::Error;
use crate::bus::Transport;
use crate::hardware::LightSensor;

verus! {

/// The two fixed 7-bit bus addresses the chip can be strapped to.
#[derive(Debug, Copy, Clone)]
pub enum Address {
    Primary,
    Secondary,
}

impl Address {
    /// The wire value of the address.
    pub fn value(self) -> (r: u8)
        ensures
            r == self.spec_value(),
    {
        match self {
            Address::Primary => 0x23,
            Address::Secondary => 0x5C,
        }
    }

    /// The wire value of the address: primary `0b0100011`, secondary
    /// `0b1011100`.
    pub open spec fn spec_value(self) -> u8 {
        match self {
            Address::Primary => 0x23,
            Address::Secondary => 0x5C,
        }
    }
}

impl Default for Address {
    fn default() -> (r: Self)
        ensures
            r is Primary,
    {
        Address::Primary
    }
}

/// The command bytes the chip understands.
#[derive(Debug, Copy, Clone)]
pub enum Command {
    PowerDown,
    PowerUp,
    Reset,
    ContinuouslyHighResolution,
    ContinuouslyUltraHighResolution,
    ContinuouslyLowResolution,
    OneTimeHighResolution,
    OneTimeUltraHighResolution,
    OneTimeLowResolution,
}

impl Command {
    /// The wire value of the command byte.
    pub fn value(self) -> (r: u8)
        ensures
            r == self.spec_value(),
    {
        match self {
            Command::PowerDown => 0x00,
            Command::PowerUp => 0x01,
            Command::Reset => 0x07,
            Command::ContinuouslyHighResolution => 0x10,
            Command::ContinuouslyUltraHighResolution => 0x11,
            Command::ContinuouslyLowResolution => 0x13,
            Command::OneTimeHighResolution => 0x20,
            Command::OneTimeUltraHighResolution => 0x21,
            Command::OneTimeLowResolution => 0x23,
        }
    }

    /// The wire value of each command byte.
    pub open spec fn spec_value(self) -> u8 {
        match self {
            Command::PowerDown => 0x00,
            Command::PowerUp => 0x01,
            Command::Reset => 0x07,
            Command::ContinuouslyHighResolution => 0x10,
            Command::ContinuouslyUltraHighResolution => 0x11,
            Command::ContinuouslyLowResolution => 0x13,
            Command::OneTimeHighResolution => 0x20,
            Command::OneTimeUltraHighResolution => 0x21,
            Command::OneTimeLowResolution => 0x23,
        }
    }

    /// The mandatory settle delay, in milliseconds, after which the chip's
    /// output register is valid again: 1 for power-down/up/reset, 180 for the
    /// continuous high and ultra-high resolution modes, 24 for every other
    /// measurement command.
    pub open spec fn spec_delay_ms(self) -> u64 {
        match self {
            Command::PowerDown => 1,
            Command::PowerUp => 1,
            Command::Reset => 1,
            Command::ContinuouslyHighResolution => 180,
            Command::ContinuouslyUltraHighResolution => 180,
            Command::ContinuouslyLowResolution => 24,
            Command::OneTimeHighResolution => 24,
            Command::OneTimeUltraHighResolution => 24,
            Command::OneTimeLowResolution => 24,
        }
    }
}

/// Resolution mode: ultra-high and high take the long conversion, low the
/// short one.
#[derive(Debug, Copy, Clone)]
pub enum ResolutionMode {
    UltraHighResolution,
    HighResolution,
    LowResolution,
}

impl Default for ResolutionMode {
    fn default() -> (r: Self)
        ensures
            r is UltraHighResolution,
    {
        ResolutionMode::UltraHighResolution
    }
}

/// Operation mode: continuous free-running conversion, or one conversion
/// triggered per read request.
#[derive(Debug, Copy, Clone, PartialEq, Eq, Structural)]
pub enum OperationMode {
    Continuously,
    OneTime,
}

impl Default for OperationMode {
    fn default() -> (r: Self)
        ensures
            r is Continuously,
    {
        OperationMode::Continuously
    }
}

/// Immutable driver configuration, supplied by the caller at construction.
pub struct Config {
    pub address: Address,
    pub resolution_mode: ResolutionMode,
    pub operation_mode: OperationMode,
}

impl Default for Config {
    fn default() -> (r: Self)
        ensures
            r.address is Primary,
            r.resolution_mode is UltraHighResolution,
            r.operation_mode is Continuously,
    {
        Config {
            address: Address::Primary,
            resolution_mode: ResolutionMode::UltraHighResolution,
            operation_mode: OperationMode::Continuously,
        }
    }
}

/// The command uploaded at construction. A one-time configuration powers the
/// chip down to reset its state (each read issues its own mode command); a
/// continuous configuration starts free-running conversion at the configured
/// resolution.
pub open spec fn spec_startup_command(config: Config) -> Command {
    match config.operation_mode {
        OperationMode::OneTime => Command::PowerDown,
        OperationMode::Continuously => match config.resolution_mode {
            ResolutionMode::UltraHighResolution => Command::ContinuouslyUltraHighResolution,
            ResolutionMode::HighResolution => Command::ContinuouslyHighResolution,
            ResolutionMode::LowResolution => Command::ContinuouslyLowResolution,
        },
    }
}

/// The command that triggers one fresh conversion at the given resolution.
pub open spec fn spec_one_time_command(resolution: ResolutionMode) -> Command {
    match resolution {
        ResolutionMode::UltraHighResolution => Command::OneTimeUltraHighResolution,
        ResolutionMode::HighResolution => Command::OneTimeHighResolution,
        ResolutionMode::LowResolution => Command::OneTimeLowResolution,
    }
}

/// Derives the startup command from the configuration.
pub fn startup_command(config: &Config) -> (r: Command)
    ensures
        r == spec_startup_command(*config),
{
    match config.operation_mode {
        OperationMode::OneTime => Command::PowerDown,
        OperationMode::Continuously => match config.resolution_mode {
            ResolutionMode::UltraHighResolution => Command::ContinuouslyUltraHighResolution,
            ResolutionMode::HighResolution => Command::ContinuouslyHighResolution,
            ResolutionMode::LowResolution => Command::ContinuouslyLowResolution,
        },
    }
}

/// Derives the command that triggers one fresh conversion.
pub fn one_time_command(resolution: ResolutionMode) -> (r: Command)
    ensures
        r == spec_one_time_command(resolution),
{
    match resolution {
        ResolutionMode::UltraHighResolution => Command::OneTimeUltraHighResolution,
        ResolutionMode::HighResolution => Command::OneTimeHighResolution,
        ResolutionMode::LowResolution => Command::OneTimeLowResolution,
    }
}

/// For every (operation mode, resolution mode) pair, the upload-config
/// command byte and the one-time trigger command byte are exactly the wire
/// values of the chip's command table.
pub proof fn lemma_command_table(config: Config)
    ensures
        spec_startup_command(config).spec_value() == (match config.operation_mode {
            OperationMode::OneTime => 0x00u8,
            OperationMode::Continuously => match config.resolution_mode {
                ResolutionMode::UltraHighResolution => 0x11u8,
                ResolutionMode::HighResolution => 0x10u8,
                ResolutionMode::LowResolution => 0x13u8,
            },
        }),
        spec_one_time_command(config.resolution_mode).spec_value() == (
        match config.resolution_mode {
            ResolutionMode::UltraHighResolution => 0x21u8,
            ResolutionMode::HighResolution => 0x20u8,
            ResolutionMode::LowResolution => 0x23u8,
        }),
{
}

/// The lux value held in the chip's 2-byte output register: the first byte on
/// the wire is the high byte.
pub open spec fn spec_lux_from_bytes(b0: u8, b1: u8) -> u16 {
    (b0 * 256 + b1) as u16
}

/// Decodes the 2-byte output register into a lux value.
pub fn lux_from_bytes(b0: u8, b1: u8) -> (r: u16)
    ensures
        r == spec_lux_from_bytes(b0, b1),
        r == b0 * 256 + b1,
{
    (b0 as u16) * 256 + (b1 as u16)
}

/// The BH1750 driver: a bus transport and an immutable configuration.
///
/// Construction uploads the configuration; afterwards [`LightSensor`] reads
/// yield the current illumination. The fields are private: a driver exists
/// only through [`BH1750::new`], so its configuration was uploaded.
pub struct BH1750<B: Transport> {
    bus: B,
    config: Config,
}

impl<B: Transport> BH1750<B> {
    /// The configuration the driver was constructed with.
    pub closed spec fn spec_config(self) -> Config {
        self.config
    }

    /// Takes ownership of the transport, stores the configuration, and
    /// uploads the startup command; fails with the transport's error if that
    /// upload fails.
    pub fn new(bus: B, config: Config) -> (r: Result<Self, Error<B::BusError>>)
        ensures
            r matches Ok(driver) ==> driver.spec_config() == config,
    {
        let mut value = BH1750 { bus, config };
        match value.upload_config() {
            Ok(()) => Ok(value),
            Err(e) => Err(e),
        }
    }

    /// Derives the startup command from the configuration and writes it.
    fn upload_config(&mut self) -> (r: Result<(), Error<B::BusError>>)
        ensures
            final(self).config == old(self).config,
    {
        let command = startup_command(&self.config);
        self.write_register(command)
    }

    /// Writes one command byte, then waits the command's settle delay.
    fn write_register(&mut self, command: Command) -> (r: Result<(), Error<B::BusError>>)
        ensures
            final(self).config == old(self).config,
    {
        let mut bytes: Vec<u8> = Vec::new();
        bytes.push(command.value());
        match self.bus.write(self.config.address.value(), &bytes) {
            Ok(()) => {
                let delay = self.get_delay_after_command(command);
                self.bus.delay_ms(delay);
                Ok(())
            },
            Err(e) => Err(Error::I2c(e)),
        }
    }

    /// The settle delay that must follow the given command.
    pub fn get_delay_after_command(&self, command: Command) -> (r: u64)
        ensures
            r == command.spec_delay_ms(),
    {
        match command {
            Command::PowerDown => 1,
            Command::PowerUp => 1,
            Command::Reset => 1,
            Command::ContinuouslyHighResolution => 180,
            Command::ContinuouslyUltraHighResolution => 180,
            Command::ContinuouslyLowResolution => 24,
            Command::OneTimeHighResolution => 24,
            Command::OneTimeUltraHighResolution => 24,
            Command::OneTimeLowResolution => 24,
        }
    }

    /// Reads the 2-byte output register and decodes it, high byte first.
    fn read_u16(&mut self) -> (r: Result<u16, Error<B::BusError>>)
        ensures
            final(self).config == old(self).config,
    {
        let mut buffer: Vec<u8> = vec![0u8, 0u8];
        match self.bus.read(self.config.address.value(), &mut buffer) {
            Ok(()) => Ok(lux_from_bytes(buffer[0], buffer[1])),
            Err(e) => Err(Error::I2c(e)),
        }
    }
}

impl<B: Transport> LightSensor for BH1750<B> {
    type Error = Error<B::BusError>;

    /// In one-time mode, first triggers a fresh conversion at the configured
    /// resolution and waits its settle delay; then reads the output register.
    /// In continuous mode the most recent value is read directly. Reading
    /// never changes the configuration.
    fn read_value(&mut self) -> (r: Result<u16, Self::Error>)
        ensures
            final(self).spec_config() == old(self).spec_config(),
    {
        if self.config.operation_mode == OperationMode::OneTime {
            let command = one_time_command(self.config.resolution_mode);
            match self.write_register(command) {
                Ok(()) => (),
                Err(e) => {
                    return Err(e);
                },
            }
        }
        self.read_u16()
    }
}

} // verus!
