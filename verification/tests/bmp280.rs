use std::cell::RefCell;
use std::rc::Rc;

use sensor_drivers::bmp280::Address;
use sensor_drivers::bmp280::CalibrationData;
use sensor_drivers::bmp280::Config;
use sensor_drivers::bmp280::Filter;
use sensor_drivers::bmp280::Oversampling;
use sensor_drivers::bmp280::Register;
use sensor_drivers::bmp280::StandbyTime;
use sensor_drivers::bmp280::Status;
use sensor_drivers::bmp280::BMP280;
use sensor_drivers::bmp280::RESET_VALUE;
use sensor_drivers::bmp280::adc_from_bytes;
use sensor_drivers::bus::Error;
use sensor_drivers::bus::Transport;
use sensor_drivers::hardware::PressureSensor;
use sensor_drivers::hardware::TemperatureSensor;

/// The calibration coefficients of the chip vendor's worked example.
fn reference_calibration() -> CalibrationData {
    CalibrationData {
        dig_t1: 27504,
        dig_t2: 26435,
        dig_t3: -1000,
        dig_p1: 36477,
        dig_p2: -10685,
        dig_p3: 3024,
        dig_p4: 2855,
        dig_p5: 140,
        dig_p6: -7,
        dig_p7: 15500,
        dig_p8: -14600,
        dig_p9: 6000,
    }
}

/// The worked example's coefficients as the little-endian 24-byte block the
/// chip serves at the calibration register.
fn reference_block() -> Vec<u8> {
    vec![
        112, 107, 67, 103, 24, 252, 125, 142, 67, 214, 208, 11, 39, 11, 140, 0, 249, 255, 140,
        60, 248, 198, 112, 23,
    ]
}

const REFERENCE_ADC_T: [u8; 3] = [0x7E, 0xED, 0x00]; // 519888
const REFERENCE_ADC_P: [u8; 3] = [0x65, 0x5A, 0xC0]; // 415148
const REFERENCE_TEMPERATURE: i32 = 2508; // 25.08 degrees Celsius
const REFERENCE_PRESSURE: u32 = 25767233; // 100653.25 Pa in Q24.8

#[derive(Debug, Clone, PartialEq)]
enum Event {
    Write(u8, Vec<u8>),
    WriteRead(u8, Vec<u8>, usize),
    Delay(u64),
}

struct BusState {
    log: Vec<Event>,
    calibration: Vec<u8>,
    adc_t: [u8; 3],
    adc_p: [u8; 3],
    id: u8,
    status: u8,
    fail_reads: bool,
    fail_writes: bool,
}

/// A mock transport serving the worked example's registers; the test keeps a
/// second handle on the shared state to inspect the transaction log and to
/// inject faults.
struct MockBus {
    state: Rc<RefCell<BusState>>,
}

fn mock() -> (MockBus, Rc<RefCell<BusState>>) {
    let state = Rc::new(RefCell::new(BusState {
        log: Vec::new(),
        calibration: reference_block(),
        adc_t: REFERENCE_ADC_T,
        adc_p: REFERENCE_ADC_P,
        id: 0x58,
        status: 0,
        fail_reads: false,
        fail_writes: false,
    }));
    (MockBus { state: state.clone() }, state)
}

impl Transport for MockBus {
    type BusError = &'static str;

    fn write(&mut self, address: u8, bytes: &Vec<u8>) -> Result<(), Self::BusError> {
        let mut state = self.state.borrow_mut();
        if state.fail_writes {
            return Err("write failed");
        }
        state.log.push(Event::Write(address, bytes.clone()));
        Ok(())
    }

    fn read(&mut self, _address: u8, _buffer: &mut Vec<u8>) -> Result<(), Self::BusError> {
        panic!("the BMP280 driver always addresses a register first");
    }

    fn write_then_read(
        &mut self,
        address: u8,
        bytes: &Vec<u8>,
        buffer: &mut Vec<u8>,
    ) -> Result<(), Self::BusError> {
        let mut state = self.state.borrow_mut();
        if state.fail_reads {
            return Err("read failed");
        }
        state.log.push(Event::WriteRead(address, bytes.clone(), buffer.len()));
        assert_eq!(bytes.len(), 1);
        let source: Vec<u8> = match bytes[0] {
            0x88 => state.calibration.clone(),
            0xFA => state.adc_t.to_vec(),
            0xF7 => state.adc_p.to_vec(),
            0xD0 => vec![state.id],
            0xF3 => vec![state.status],
            other => panic!("unexpected register {other:#x}"),
        };
        assert_eq!(buffer.len(), source.len());
        for (slot, byte) in buffer.iter_mut().zip(source.iter()) {
            *slot = *byte;
        }
        Ok(())
    }

    fn delay_ms(&mut self, ms: u64) {
        self.state.borrow_mut().log.push(Event::Delay(ms));
    }
}

#[test]
fn bmp280_address_wire_values() {
    assert_eq!(Address::Primary.value(), 0x76);
    assert_eq!(Address::Secondary.value(), 0x77);
}

#[test]
fn register_wire_values() {
    assert_eq!(Register::CalibrationData.value(), 0x88);
    assert_eq!(Register::Id.value(), 0xD0);
    assert_eq!(Register::Reset.value(), 0xE0);
    assert_eq!(Register::Status.value(), 0xF3);
    assert_eq!(Register::Config.value(), 0xF5);
    assert_eq!(Register::Ctrl.value(), 0xF4);
    assert_eq!(Register::Temperature.value(), 0xFA);
    assert_eq!(Register::Pressure.value(), 0xF7);
    assert_eq!(RESET_VALUE, 0xB7);
}

#[test]
fn calibration_parse_first_byte() {
    let mut block = [0u8; 24];
    block[0] = 0x01;
    let calib = CalibrationData::from(&block);
    assert_eq!(calib.dig_t1, 1);
    assert_eq!(calib.dig_t2, 0);
    assert_eq!(calib.dig_t3, 0);
    assert_eq!(calib.dig_p1, 0);
    assert_eq!(calib.dig_p2, 0);
    assert_eq!(calib.dig_p3, 0);
    assert_eq!(calib.dig_p4, 0);
    assert_eq!(calib.dig_p5, 0);
    assert_eq!(calib.dig_p6, 0);
    assert_eq!(calib.dig_p7, 0);
    assert_eq!(calib.dig_p8, 0);
    assert_eq!(calib.dig_p9, 0);
}

#[test]
fn calibration_parse_reference_block() {
    let block_vec = reference_block();
    let mut block = [0u8; 24];
    block.copy_from_slice(&block_vec);
    let calib = CalibrationData::from(&block);
    let expected = reference_calibration();
    assert_eq!(calib.dig_t1, expected.dig_t1);
    assert_eq!(calib.dig_t2, expected.dig_t2);
    assert_eq!(calib.dig_t3, expected.dig_t3);
    assert_eq!(calib.dig_p1, expected.dig_p1);
    assert_eq!(calib.dig_p2, expected.dig_p2);
    assert_eq!(calib.dig_p3, expected.dig_p3);
    assert_eq!(calib.dig_p4, expected.dig_p4);
    assert_eq!(calib.dig_p5, expected.dig_p5);
    assert_eq!(calib.dig_p6, expected.dig_p6);
    assert_eq!(calib.dig_p7, expected.dig_p7);
    assert_eq!(calib.dig_p8, expected.dig_p8);
    assert_eq!(calib.dig_p9, expected.dig_p9);
}

#[test]
fn t_fine_matches_reference() {
    assert_eq!(reference_calibration().t_fine_from_adc(519888), 128422);
}

#[test]
fn compensation_matches_reference_vectors() {
    let calib = reference_calibration();
    assert_eq!(calib.compensate_temperature(519888), REFERENCE_TEMPERATURE);
    assert_eq!(calib.compensate_pressure(415148, 519888), REFERENCE_PRESSURE);
}

#[test]
fn pressure_with_zero_denominator_is_zero() {
    // dig_p1 = 0 zeroes the denominator term for every ADC pair.
    let mut calib = reference_calibration();
    calib.dig_p1 = 0;
    assert_eq!(calib.compensate_pressure(415148, 519888), 0);

    let zeroed = CalibrationData::from(&[0u8; 24]);
    assert_eq!(zeroed.compensate_pressure(0, 0), 0);
}

#[test]
fn adc_decode_discards_low_nibble() {
    assert_eq!(adc_from_bytes(0x12, 0x34, 0x56), 0x12345);
    assert_eq!(adc_from_bytes(0x7E, 0xED, 0x00), 519888);
    assert_eq!(adc_from_bytes(0x65, 0x5A, 0xC0), 415148);
    assert_eq!(adc_from_bytes(0xFF, 0xFF, 0xFF), 0xFFFFF);
}

#[test]
fn status_decodes_flag_bits() {
    let status = Status::from_byte(0x09);
    assert!(status.measuring);
    assert!(status.im_update);
    let status = Status::from_byte(0x08);
    assert!(!status.measuring);
    assert!(status.im_update);
    let status = Status::from_byte(0x01);
    assert!(status.measuring);
    assert!(!status.im_update);
    let status = Status::from_byte(0x00);
    assert!(!status.measuring);
    assert!(!status.im_update);
}

#[test]
fn config_packing() {
    let cfg = Config::default();
    assert_eq!(cfg.ctrl_byte(), 0x6F); // 0b011_011_11: both oversamplings standard, normal mode
    assert_eq!(cfg.config_byte(), 0x40); // standby 0 | filter 2, both on bits 5-7
    let cfg = Config {
        address: Address::Primary,
        temperature: Oversampling::UltrahighResolution,
        pressure: Oversampling::UltraLowPower,
        filter: Filter::Off,
        standby_time: StandbyTime::Ms4000,
    };
    assert_eq!(cfg.ctrl_byte(), 0b101_001_11);
    assert_eq!(cfg.config_byte(), 0b111_00000);
}

#[test]
fn construction_issues_calibration_read_then_config_writes() {
    let (bus, state) = mock();
    let driver = BMP280::new(bus, Config::default()).ok().unwrap();
    assert_eq!(
        state.borrow().log,
        vec![
            Event::WriteRead(0x76, vec![0x88], 24),
            Event::Delay(2),
            Event::Write(0x76, vec![0xF5, 0x40]),
            Event::Write(0x76, vec![0xF4, 0x6F]),
        ]
    );
    let expected = reference_calibration();
    assert_eq!(driver.calibration_data().dig_t1, expected.dig_t1);
    assert_eq!(driver.calibration_data().dig_p9, expected.dig_p9);
}

#[test]
fn read_values_match_reference_compensation() {
    let (bus, state) = mock();
    let mut driver = BMP280::new(bus, Config::default()).ok().unwrap();
    state.borrow_mut().log.clear();

    let temperature = TemperatureSensor::read_value(&mut driver).ok().unwrap();
    assert_eq!(temperature.raw(), REFERENCE_TEMPERATURE);
    assert_eq!(state.borrow().log, vec![Event::WriteRead(0x76, vec![0xFA], 3)]);

    state.borrow_mut().log.clear();
    let pressure = PressureSensor::read_value(&mut driver).ok().unwrap();
    assert_eq!(pressure.raw(), REFERENCE_PRESSURE);
    assert_eq!(pressure.raw() as f64 / 25600.0, 1006.5325390625);
    // The temperature ADC is read before the pressure ADC so t_fine pairs
    // with the same sample.
    assert_eq!(
        state.borrow().log,
        vec![
            Event::WriteRead(0x76, vec![0xFA], 3),
            Event::WriteRead(0x76, vec![0xF7], 3),
        ]
    );
}

#[test]
fn inherent_reads_match_reference_compensation() {
    let (bus, _state) = mock();
    let mut driver = BMP280::new(bus, Config::default()).ok().unwrap();
    assert_eq!(driver.read_temperature().ok().unwrap().raw(), REFERENCE_TEMPERATURE);
    assert_eq!(driver.read_pressure().ok().unwrap().raw(), REFERENCE_PRESSURE);
}

#[test]
fn construction_fails_when_calibration_read_fails() {
    let (bus, state) = mock();
    state.borrow_mut().fail_reads = true;
    match BMP280::new(bus, Config::default()) {
        Err(Error::I2c(message)) => assert_eq!(message, "read failed"),
        Ok(_) => panic!("construction must fail when the calibration read fails"),
    }
}

#[test]
fn construction_fails_when_config_write_fails() {
    let (bus, state) = mock();
    state.borrow_mut().fail_writes = true;
    match BMP280::new(bus, Config::default()) {
        Err(Error::I2c(message)) => assert_eq!(message, "write failed"),
        Ok(_) => panic!("construction must fail when a config write fails"),
    }
}

#[test]
fn auxiliary_reads() {
    let (bus, state) = mock();
    let mut driver = BMP280::new(bus, Config::default()).ok().unwrap();
    state.borrow_mut().status = 0x09;
    assert_eq!(driver.read_id().ok().unwrap(), 0x58);
    let status = driver.read_status().ok().unwrap();
    assert!(status.measuring);
    assert!(status.im_update);
    state.borrow_mut().log.clear();
    driver.reset().ok().unwrap();
    assert_eq!(state.borrow().log, vec![Event::Write(0x76, vec![0xE0, 0xB7])]);
}

#[test]
fn bmp280_secondary_address_is_used_on_the_wire() {
    let cfg = Config {
        address: Address::Secondary,
        temperature: Oversampling::StandardResolution,
        pressure: Oversampling::StandardResolution,
        filter: Filter::X4,
        standby_time: StandbyTime::Zero,
    };
    let (bus, state) = mock();
    let _driver = BMP280::new(bus, cfg).ok().unwrap();
    assert_eq!(
        state.borrow().log,
        vec![
            Event::WriteRead(0x77, vec![0x88], 24),
            Event::Delay(2),
            Event::Write(0x77, vec![0xF5, 0x40]),
            Event::Write(0x77, vec![0xF4, 0x6F]),
        ]
    );
}
