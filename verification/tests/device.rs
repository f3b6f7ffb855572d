use embedded_hal::i2c::ErrorKind;
use embedded_hal::i2c::ErrorType;
use embedded_hal::i2c::I2c;
use embedded_hal::i2c::Operation;
use embedded_hal::i2c::SevenBitAddress;
use twatch::battery::PMU_PERCENTAGE_SENTINEL;
use twatch::battery::PmuError;
use twatch::watch::TWatch;

const PMU_ADDRESS: u8 = 0x35;
const PERCENTAGE_REGISTER: u8 = 0xB9;
const VOLTAGE_HIGH_REGISTER: u8 = 0x78;
const VOLTAGE_LOW_REGISTER: u8 = 0x79;

#[derive(Debug, Clone, Copy, PartialEq, Eq)]
struct MockBusError;

impl embedded_hal::i2c::Error for MockBusError {
    fn kind(&self) -> ErrorKind {
        ErrorKind::Other
    }
}

/// A bus with a power-management unit behind it that answers register reads
/// from two scripted values; a `None` makes the matching read fail. Every
/// transaction is counted, so a test can see whether the voltage was
/// queried at all.
struct MockPmuBus {
    percentage: Option<u8>,
    voltage_raw: Option<u16>,
    transactions: usize,
}

impl MockPmuBus {
    fn new(percentage: Option<u8>, voltage_raw: Option<u16>) -> Self {
        MockPmuBus { percentage, voltage_raw, transactions: 0 }
    }

    fn register_value(&self, register: u8) -> Option<u8> {
        match register {
            PERCENTAGE_REGISTER => self.percentage,
            VOLTAGE_HIGH_REGISTER => self.voltage_raw.map(|raw| (raw >> 4) as u8),
            VOLTAGE_LOW_REGISTER => self.voltage_raw.map(|raw| (raw & 0x0F) as u8),
            _ => panic!("read of an unexpected register"),
        }
    }
}

impl ErrorType for MockPmuBus {
    type Error = MockBusError;
}

impl I2c<SevenBitAddress> for MockPmuBus {
    fn transaction(
        &mut self,
        address: SevenBitAddress,
        operations: &mut [Operation<'_>],
    ) -> Result<(), MockBusError> {
        self.transactions += 1;
        assert_eq!(address, PMU_ADDRESS);
        assert_eq!(operations.len(), 2);
        let register: u8 = match &operations[0] {
            Operation::Write(bytes) => bytes[0],
            _ => panic!("expected a register-address write first"),
        };
        let value = match self.register_value(register) {
            Some(value) => value,
            None => return Err(MockBusError),
        };
        match &mut operations[1] {
            Operation::Read(buffer) => buffer[0] = value,
            _ => panic!("expected a register read second"),
        }
        Ok(())
    }
}

fn watch_with(percentage: Option<u8>, voltage_raw: Option<u16>) -> TWatch<(), MockPmuBus> {
    TWatch::new((), MockPmuBus::new(percentage, voltage_raw))
}

#[test]
fn handle_aggregates_its_sub_resources() {
    let watch = watch_with(Some(80), None);
    assert_eq!(watch.display, ());
    assert_eq!(watch.pmu.transactions, 0);
}

#[test]
fn direct_percentage_is_returned_unchanged() {
    let mut watch = watch_with(Some(55), None);
    assert_eq!(watch.get_battery_percentage(), Ok(55));
}

#[test]
fn direct_percentage_is_not_clamped() {
    let mut watch = watch_with(Some(200), None);
    assert_eq!(watch.get_battery_percentage(), Ok(200));
}

#[test]
fn direct_percentage_needs_one_transaction_only() {
    let mut watch = watch_with(Some(100), Some(3700));
    assert_eq!(watch.get_battery_percentage(), Ok(100));
    assert_eq!(watch.pmu.transactions, 1);
}

#[test]
fn sentinel_is_replaced_by_voltage_estimate() {
    // 3000 raw steps of 1.1 mV are 3300 mV: ten percent above empty.
    let mut watch = watch_with(Some(PMU_PERCENTAGE_SENTINEL), Some(3000));
    assert_eq!(watch.get_battery_percentage(), Ok(10));
    assert_eq!(watch.pmu.transactions, 3);
}

#[test]
fn sentinel_with_midrange_voltage() {
    // 3636 raw steps are 3999.6 mV, truncated to 3999 mV: level 79.
    let mut watch = watch_with(Some(PMU_PERCENTAGE_SENTINEL), Some(3636));
    assert_eq!(watch.get_battery_percentage(), Ok(79));
}

#[test]
fn sentinel_with_low_voltage_clamps_to_zero() {
    // 2000 raw steps are 2200 mV, well below the empty point.
    let mut watch = watch_with(Some(PMU_PERCENTAGE_SENTINEL), Some(2000));
    assert_eq!(watch.get_battery_percentage(), Ok(0));
}

#[test]
fn sentinel_with_high_voltage_clamps_to_hundred() {
    // 4000 raw steps are 4400 mV, above the full point.
    let mut watch = watch_with(Some(PMU_PERCENTAGE_SENTINEL), Some(4000));
    assert_eq!(watch.get_battery_percentage(), Ok(100));
}

#[test]
fn percentage_failure_propagates_without_a_voltage_query() {
    let mut watch = watch_with(None, Some(3700));
    assert_eq!(watch.get_battery_percentage(), Err(PmuError::BusError));
    assert_eq!(watch.pmu.transactions, 1);
}

#[test]
fn voltage_failure_after_sentinel_propagates() {
    let mut watch = watch_with(Some(PMU_PERCENTAGE_SENTINEL), None);
    assert_eq!(watch.get_battery_percentage(), Err(PmuError::BusError));
}

#[test]
fn queries_are_recomputed_each_time() {
    // 3364 raw steps are 3700.4 mV, truncated to 3700 mV: level 50.
    let mut watch = watch_with(Some(PMU_PERCENTAGE_SENTINEL), Some(3364));
    assert_eq!(watch.get_battery_percentage(), Ok(50));
    watch.pmu.percentage = Some(42);
    assert_eq!(watch.get_battery_percentage(), Ok(42));
}
