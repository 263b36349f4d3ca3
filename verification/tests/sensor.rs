use sentry::sensor::{
    BootState, DistanceMode, Error, I2cBus, RangeStatus, TimingBudget, VL53L1X, ADDR,
};

/// A scripted bus: hands back the queued read responses in order and records
/// every write payload in a shared log.
struct ScriptBus {
    reads: Vec<Vec<u8>>,
    next: usize,
    writes: std::rc::Rc<std::cell::RefCell<Vec<Vec<u8>>>>,
}

impl ScriptBus {
    fn new(reads: Vec<Vec<u8>>) -> Self {
        ScriptBus { reads, next: 0, writes: std::rc::Rc::new(std::cell::RefCell::new(Vec::new())) }
    }
}

impl I2cBus for ScriptBus {
    type BusError = u8;

    fn bus_write(&mut self, _addr: u8, bytes: &Vec<u8>) -> Result<(), u8> {
        self.writes.borrow_mut().push(bytes.clone());
        Ok(())
    }

    fn bus_write_read(&mut self, _addr: u8, _reg: &Vec<u8>, read_len: usize) -> Result<Vec<u8>, u8> {
        let r = self.reads[self.next].clone();
        self.next += 1;
        assert_eq!(r.len(), read_len);
        Ok(r)
    }
}

/// A bus whose every transfer fails.
struct DeadBus;

impl I2cBus for DeadBus {
    type BusError = u8;

    fn bus_write(&mut self, _addr: u8, _bytes: &Vec<u8>) -> Result<(), u8> {
        Err(99)
    }

    fn bus_write_read(&mut self, _addr: u8, _reg: &Vec<u8>, _read_len: usize) -> Result<Vec<u8>, u8> {
        Err(99)
    }
}

#[test]
fn boot_state_decodes_status_register() {
    let mut sensor = VL53L1X::new(ScriptBus::new(vec![vec![0], vec![3]]), ADDR);
    assert_eq!(sensor.boot_state(), Ok(BootState::NotBooted));
    assert_eq!(sensor.boot_state(), Ok(BootState::Booted));
}

#[test]
fn distance_is_big_endian() {
    let mut sensor = VL53L1X::new(ScriptBus::new(vec![vec![0x01, 0x2c]]), ADDR);
    assert_eq!(sensor.get_distance(), Ok(300));
}

#[test]
fn range_status_maps_the_vendor_codes() {
    let reads = vec![vec![9], vec![4], vec![6], vec![5], vec![7], vec![9 + 0x20], vec![1]];
    let mut sensor = VL53L1X::new(ScriptBus::new(reads), ADDR);
    assert_eq!(sensor.get_range_status(), Ok(RangeStatus::RangeValid));
    assert_eq!(sensor.get_range_status(), Ok(RangeStatus::SignalFailureWarning));
    assert_eq!(sensor.get_range_status(), Ok(RangeStatus::SigmaFailureWarning));
    assert_eq!(sensor.get_range_status(), Ok(RangeStatus::OutOfBoundsError));
    assert_eq!(sensor.get_range_status(), Ok(RangeStatus::WraparoundError));
    // Only the low five bits carry the code.
    assert_eq!(sensor.get_range_status(), Ok(RangeStatus::RangeValid));
    assert_eq!(sensor.get_range_status(), Ok(RangeStatus::InvalidRegisterValue(1)));
}

#[test]
fn interrupt_polarity_is_inverted_bit_four() {
    let mut sensor = VL53L1X::new(ScriptBus::new(vec![vec![0x00], vec![0x10]]), ADDR);
    assert_eq!(sensor.get_interrupt_polarity(), Ok(1));
    assert_eq!(sensor.get_interrupt_polarity(), Ok(0));
}

#[test]
fn data_ready_matches_polarity() {
    // Polarity active-high (mux byte 0), status bit set: ready.
    let mut sensor = VL53L1X::new(ScriptBus::new(vec![vec![0x00], vec![0x01]]), ADDR);
    assert_eq!(sensor.check_for_data_ready(), Ok(true));
    // Polarity active-high, status bit clear: not ready.
    let mut sensor = VL53L1X::new(ScriptBus::new(vec![vec![0x00], vec![0x00]]), ADDR);
    assert_eq!(sensor.check_for_data_ready(), Ok(false));
    // Polarity active-low (mux bit set), status bit clear: ready.
    let mut sensor = VL53L1X::new(ScriptBus::new(vec![vec![0x10], vec![0x00]]), ADDR);
    assert_eq!(sensor.check_for_data_ready(), Ok(true));
}

#[test]
fn timing_budget_decodes_both_mode_rows() {
    let reads = vec![vec![0x01, 0xcc], vec![0x02, 0xe1], vec![0x00, 0x1d], vec![0x12, 0x34]];
    let mut sensor = VL53L1X::new(ScriptBus::new(reads), ADDR);
    assert_eq!(sensor.get_timing_budget(), Ok(TimingBudget::Ms100));
    assert_eq!(sensor.get_timing_budget(), Ok(TimingBudget::Ms100));
    assert_eq!(sensor.get_timing_budget(), Ok(TimingBudget::Ms15));
    assert_eq!(sensor.get_timing_budget(), Err(Error::InvalidTimingBudget));
}

#[test]
fn fifteen_ms_budget_is_rejected_in_long_mode() {
    // The mode register reads long (0x0a); 15 ms exists only in short mode.
    let mut sensor = VL53L1X::new(ScriptBus::new(vec![vec![0x0a]]), ADDR);
    assert_eq!(sensor.set_timing_budget(TimingBudget::Ms15), Err(Error::InvalidTimingForDistanceMode));
}

#[test]
fn set_timing_budget_writes_the_table_row() {
    // Mode reads long (0x0a); the 100 ms row for long mode is 0x01cc/0x01ea.
    let bus = ScriptBus::new(vec![vec![0x0a]]);
    let log = bus.writes.clone();
    let mut sensor = VL53L1X::new(bus, ADDR);
    assert_eq!(sensor.set_timing_budget(TimingBudget::Ms100), Ok(()));
    let writes = log.borrow();
    assert_eq!(writes[0], vec![0x00, 0x5e, 0x01, 0xcc]);
    assert_eq!(writes[1], vec![0x00, 0x61, 0x01, 0xea]);
}

#[test]
fn start_and_stop_write_the_mode_register() {
    let bus = ScriptBus::new(vec![]);
    let log = bus.writes.clone();
    let mut sensor = VL53L1X::new(bus, ADDR);
    sensor.start_ranging().unwrap();
    sensor.stop_ranging().unwrap();
    sensor.clear_interrupt().unwrap();
    let writes = log.borrow();
    assert_eq!(writes[0], vec![0x00, 0x87, 0x40]);
    assert_eq!(writes[1], vec![0x00, 0x87, 0x00]);
    assert_eq!(writes[2], vec![0x00, 0x86, 0x01]);
}

#[test]
fn distance_mode_decodes_the_phasecal_register() {
    let reads = vec![vec![0x14], vec![0x0a], vec![0x42]];
    let mut sensor = VL53L1X::new(ScriptBus::new(reads), ADDR);
    assert_eq!(sensor.get_distance_mode(), Ok(DistanceMode::Short));
    assert_eq!(sensor.get_distance_mode(), Ok(DistanceMode::Long));
    assert_eq!(sensor.get_distance_mode(), Err(Error::InvalidDistanceMode));
}

#[test]
fn bus_faults_propagate() {
    let mut sensor = VL53L1X::new(DeadBus, ADDR);
    assert_eq!(sensor.boot_state(), Err(Error::I2C(99)));
    assert_eq!(sensor.start_ranging(), Err(Error::I2C(99)));
}
