//! Behavioural tests against a scripted, recording bus transport.

use lsm6::mock::ScriptError;
use lsm6::mock::ScriptStep;
use lsm6::mock::ScriptedBus;
use lsm6::mock::Transaction;
use lsm6::registers;
use lsm6::AccelerometerMode;
use lsm6::Discovery;
use lsm6::GyroscopeMode;
use lsm6::Reading;
use lsm6::LSM6;
use lsm6::SA0_HIGH_ADDRESS;
use lsm6::SA0_LOW_ADDRESS;

/// A driver discovered at the high address, with `rest` of the script still
/// to play.
fn open_at_high(mut rest: Vec<ScriptStep>) -> LSM6<ScriptedBus> {
    let mut script = vec![ScriptStep::Reply(vec![0x69])];
    script.append(&mut rest);
    match LSM6::open(ScriptedBus::new(script)) {
        Discovery::Found(d) => d,
        _ => panic!("discovery should succeed at the high address"),
    }
}

fn probe(addr: u8, resp: u8) -> Transaction {
    Transaction::WriteRead {
        addr,
        data: vec![registers::WHO_AM_I],
        resp: vec![resp],
    }
}

fn reg_write(addr: u8, reg: u8, value: u8) -> Transaction {
    Transaction::Write {
        addr,
        data: vec![reg, value],
    }
}

#[test]
fn discovery_binds_high_address() {
    let d = open_at_high(vec![]);
    assert_eq!(d.address(), SA0_HIGH_ADDRESS);
    let bus = d.release();
    let log = bus.transactions();
    assert_eq!(log.len(), 2);
    assert_eq!(log[0], probe(SA0_HIGH_ADDRESS, 0x69));
    // The low address is never probed.
    for t in log.iter() {
        match t {
            Transaction::Write { addr, .. } => assert_eq!(*addr, SA0_HIGH_ADDRESS),
            Transaction::WriteRead { addr, .. } => assert_eq!(*addr, SA0_HIGH_ADDRESS),
        }
    }
}

#[test]
fn discovery_falls_back_to_low_address() {
    let script = vec![
        ScriptStep::Reply(vec![0x00]),
        ScriptStep::Reply(vec![0x69]),
    ];
    let d = match LSM6::open(ScriptedBus::new(script)) {
        Discovery::Found(d) => d,
        _ => panic!("discovery should succeed at the low address"),
    };
    assert_eq!(d.address(), SA0_LOW_ADDRESS);
    let bus = d.release();
    let log = bus.transactions();
    assert_eq!(log.len(), 3);
    assert_eq!(log[0], probe(SA0_HIGH_ADDRESS, 0x00));
    assert_eq!(log[1], probe(SA0_LOW_ADDRESS, 0x69));
    assert_eq!(log[2], reg_write(SA0_LOW_ADDRESS, registers::CTRL3_C, 0x04));
}

#[test]
fn discovery_reports_absent_device() {
    let script = vec![
        ScriptStep::Reply(vec![0x00]),
        ScriptStep::Reply(vec![0x42]),
    ];
    match LSM6::open(ScriptedBus::new(script)) {
        Discovery::NotFound(bus) => {
            let log = bus.transactions();
            assert_eq!(log.len(), 2);
            assert_eq!(log[0], probe(SA0_HIGH_ADDRESS, 0x00));
            assert_eq!(log[1], probe(SA0_LOW_ADDRESS, 0x42));
        }
        _ => panic!("neither address answered the identity: must be NotFound"),
    }
    let script = vec![
        ScriptStep::Reply(vec![0x00]),
        ScriptStep::Reply(vec![0x42]),
    ];
    let r = LSM6::new(ScriptedBus::new(script));
    assert!(matches!(r, Ok(None)));
}

#[test]
fn discovery_enables_auto_increment_first() {
    let d = open_at_high(vec![]);
    let bus = d.release();
    let log = bus.transactions();
    // The transaction right after the matching probe is the CTRL3_C write.
    assert_eq!(log[1], reg_write(SA0_HIGH_ADDRESS, registers::CTRL3_C, 0x04));
}

#[test]
fn discovery_propagates_bus_fault() {
    match LSM6::open(ScriptedBus::new(vec![ScriptStep::Fail])) {
        Discovery::Fault(bus, e) => {
            assert_eq!(e, ScriptError);
            assert_eq!(bus.transactions().len(), 0);
        }
        _ => panic!("a failing probe must be a Fault"),
    }
    let r = LSM6::new(ScriptedBus::new(vec![ScriptStep::Fail]));
    assert!(matches!(r, Err(ScriptError)));
}

#[test]
fn discovery_fault_on_low_probe_keeps_high_probe_logged() {
    let script = vec![ScriptStep::Reply(vec![0x00]), ScriptStep::Fail];
    match LSM6::open(ScriptedBus::new(script)) {
        Discovery::Fault(bus, _) => {
            let log = bus.transactions();
            assert_eq!(log.len(), 1);
            assert_eq!(log[0], probe(SA0_HIGH_ADDRESS, 0x00));
        }
        _ => panic!("a failing low probe must be a Fault"),
    }
}

#[test]
fn set_accel_mode_writes_rate_into_high_nibble() {
    let mut d = open_at_high(vec![]);
    d.set_accel_mode(AccelerometerMode::HighPerformance1660Hz)
        .unwrap();
    let log = d.release();
    let log = log.transactions();
    // Exactly one transaction beyond discovery: the CTRL1_XL write of
    // 0b1000 << 4.
    assert_eq!(log.len(), 3);
    assert_eq!(log[2], reg_write(SA0_HIGH_ADDRESS, registers::CTRL1_XL, 0x80));
}

#[test]
fn set_gyro_mode_writes_rate_into_high_nibble() {
    let mut d = open_at_high(vec![]);
    d.set_gyro_mode(GyroscopeMode::HighPerformance416Hz).unwrap();
    let bus = d.release();
    let log = bus.transactions();
    assert_eq!(log.len(), 3);
    assert_eq!(log[2], reg_write(SA0_HIGH_ADDRESS, registers::CTRL2_G, 0x60));
}

#[test]
fn init_default_turns_both_sensors_on_at_1660hz() {
    let mut d = open_at_high(vec![]);
    d.init_default().unwrap();
    let bus = d.release();
    let log = bus.transactions();
    assert_eq!(log.len(), 4);
    assert_eq!(log[2], reg_write(SA0_HIGH_ADDRESS, registers::CTRL1_XL, 0x80));
    assert_eq!(log[3], reg_write(SA0_HIGH_ADDRESS, registers::CTRL2_G, 0x80));
}

#[test]
fn full_power_down_writes_zero_rates() {
    let mut d = open_at_high(vec![]);
    d.full_power_down().unwrap();
    let bus = d.release();
    let log = bus.transactions();
    assert_eq!(log.len(), 4);
    assert_eq!(log[2], reg_write(SA0_HIGH_ADDRESS, registers::CTRL1_XL, 0x00));
    assert_eq!(log[3], reg_write(SA0_HIGH_ADDRESS, registers::CTRL2_G, 0x00));
}

#[test]
fn accel_bitcodes_are_the_device_rate_codes() {
    let codes = [
        (AccelerometerMode::PowerDown, 0u8),
        (AccelerometerMode::LowPower13Hz, 1),
        (AccelerometerMode::LowPower26Hz, 0b10),
        (AccelerometerMode::LowPower52Hz, 0b11),
        (AccelerometerMode::Normal104Hz, 0b100),
        (AccelerometerMode::Normal208Hz, 0b101),
        (AccelerometerMode::HighPerformance416Hz, 0b110),
        (AccelerometerMode::HighPerformance833Hz, 0b111),
        (AccelerometerMode::HighPerformance1660Hz, 0b1000),
        (AccelerometerMode::HighPerformance3330Hz, 0b1001),
        (AccelerometerMode::HighPerformance6660Hz, 0b1010),
    ];
    for (mode, code) in codes {
        assert_eq!(mode.to_bitcode(), code);
    }
}

#[test]
fn gyro_bitcodes_are_the_device_rate_codes() {
    let codes = [
        (GyroscopeMode::PowerDown, 0u8),
        (GyroscopeMode::LowPower13Hz, 1),
        (GyroscopeMode::LowPower26Hz, 0b10),
        (GyroscopeMode::LowPower52Hz, 0b11),
        (GyroscopeMode::Normal104Hz, 0b100),
        (GyroscopeMode::Normal208Hz, 0b101),
        (GyroscopeMode::HighPerformance416Hz, 0b110),
        (GyroscopeMode::HighPerformance833Hz, 0b111),
        (GyroscopeMode::HighPerformance1660Hz, 0b1000),
    ];
    for (mode, code) in codes {
        assert_eq!(mode.to_bitcode(), code);
    }
}

#[test]
fn set_accel_axes_sets_one_bit_per_axis() {
    let mut d = open_at_high(vec![]);
    d.set_accel_axes(true, true, true).unwrap();
    d.set_accel_axes(false, false, false).unwrap();
    d.set_accel_axes(true, false, true).unwrap();
    let bus = d.release();
    let log = bus.transactions();
    assert_eq!(log[2], reg_write(SA0_HIGH_ADDRESS, registers::CTRL9_XL, 0b111000));
    assert_eq!(log[3], reg_write(SA0_HIGH_ADDRESS, registers::CTRL9_XL, 0));
    assert_eq!(log[4], reg_write(SA0_HIGH_ADDRESS, registers::CTRL9_XL, 0b101000));
}

#[test]
fn set_gyro_axes_preserves_low_bits() {
    let mut d = open_at_high(vec![ScriptStep::Reply(vec![0b101])]);
    d.set_gyro_axes(true, false, true).unwrap();
    let bus = d.release();
    let log = bus.transactions();
    assert_eq!(log.len(), 4);
    // First the read of the current CTRL10_C value ...
    assert_eq!(
        log[2],
        Transaction::WriteRead {
            addr: SA0_HIGH_ADDRESS,
            data: vec![registers::CTRL10_C],
            resp: vec![0b101],
        }
    );
    // ... then the write with bits 5 and 3 set and the low three bits kept.
    assert_eq!(log[3], reg_write(SA0_HIGH_ADDRESS, registers::CTRL10_C, 0b101101));
}

#[test]
fn read_accel_not_ready_issues_no_further_transaction() {
    let mut d = open_at_high(vec![ScriptStep::Reply(vec![0x00])]);
    let r = d.read_accel();
    assert_eq!(r, Reading::NotReady);
    let bus = d.release();
    let log = bus.transactions();
    assert_eq!(log.len(), 3);
    assert_eq!(
        log[2],
        Transaction::WriteRead {
            addr: SA0_HIGH_ADDRESS,
            data: vec![registers::STATUS_REG],
            resp: vec![0x00],
        }
    );
}

#[test]
fn read_accel_ignores_gyro_readiness_bit() {
    // Bit 1 (gyro) set, bit 0 (accel) clear: still not ready.
    let mut d = open_at_high(vec![ScriptStep::Reply(vec![0b10])]);
    assert_eq!(d.read_accel(), Reading::NotReady);
}

#[test]
fn read_accel_assembles_little_endian_samples() {
    let mut d = open_at_high(vec![
        ScriptStep::Reply(vec![0x01]),
        ScriptStep::Reply(vec![0x01, 0x02, 0x03, 0x04, 0x05, 0x06]),
    ]);
    let r = d.read_accel();
    assert_eq!(r, Reading::Sample(0x0201, 0x0403, 0x0605));
    let bus = d.release();
    let log = bus.transactions();
    assert_eq!(log.len(), 4);
    assert_eq!(
        log[3],
        Transaction::WriteRead {
            addr: SA0_HIGH_ADDRESS,
            data: vec![registers::OUTX_L_XL],
            resp: vec![0x01, 0x02, 0x03, 0x04, 0x05, 0x06],
        }
    );
}

#[test]
fn read_gyro_not_ready_issues_no_further_transaction() {
    // Bit 0 (accel) set, bit 1 (gyro) clear: gyro not ready.
    let mut d = open_at_high(vec![ScriptStep::Reply(vec![0b01])]);
    let r = d.read_gyro();
    assert_eq!(r, Reading::NotReady);
    let bus = d.release();
    assert_eq!(bus.transactions().len(), 3);
}

#[test]
fn read_gyro_assembles_signed_samples() {
    let mut d = open_at_high(vec![
        ScriptStep::Reply(vec![0b10]),
        ScriptStep::Reply(vec![0xFF, 0xFF, 0x00, 0x80, 0x34, 0x12]),
    ]);
    let r = d.read_gyro();
    assert_eq!(r, Reading::Sample(-1, -32768, 0x1234));
    let bus = d.release();
    let log = bus.transactions();
    assert_eq!(log.len(), 4);
    assert_eq!(
        log[3],
        Transaction::WriteRead {
            addr: SA0_HIGH_ADDRESS,
            data: vec![registers::OUTX_L_G],
            resp: vec![0xFF, 0xFF, 0x00, 0x80, 0x34, 0x12],
        }
    );
}

#[test]
fn sample_from_bytes_is_little_endian_twos_complement() {
    assert_eq!(lsm6::driver::sample_from_bytes(0x01, 0x02), 0x0201);
    assert_eq!(lsm6::driver::sample_from_bytes(0x00, 0x00), 0);
    assert_eq!(lsm6::driver::sample_from_bytes(0xFF, 0x7F), 32767);
    assert_eq!(lsm6::driver::sample_from_bytes(0x00, 0x80), -32768);
    assert_eq!(lsm6::driver::sample_from_bytes(0xFF, 0xFF), -1);
}

#[test]
fn axes_byte_uses_bits_five_four_three() {
    assert_eq!(lsm6::driver::axes_byte(true, false, false), 0b100000);
    assert_eq!(lsm6::driver::axes_byte(false, true, false), 0b010000);
    assert_eq!(lsm6::driver::axes_byte(false, false, true), 0b001000);
    assert_eq!(lsm6::driver::axes_byte(true, true, true), 0b111000);
    assert_eq!(lsm6::driver::axes_byte(false, false, false), 0);
}

#[test]
fn register_round_trip_returns_value_unchanged() {
    let mut d = open_at_high(vec![ScriptStep::Reply(vec![0x2A])]);
    d.set_register(0x34, 0x2A).unwrap();
    let got = d.read_register(0x34).unwrap();
    assert_eq!(got, 0x2A);
    let bus = d.release();
    let log = bus.transactions();
    assert_eq!(log[2], reg_write(SA0_HIGH_ADDRESS, 0x34, 0x2A));
    assert_eq!(
        log[3],
        Transaction::WriteRead {
            addr: SA0_HIGH_ADDRESS,
            data: vec![0x34],
            resp: vec![0x2A],
        }
    );
}

#[test]
fn exhausted_script_fails_reads_and_leaves_no_record() {
    let mut d = open_at_high(vec![]);
    let r = d.read_register(registers::STATUS_REG);
    assert_eq!(r, Err(ScriptError));
    let bus = d.release();
    assert_eq!(bus.transactions().len(), 2);
}

#[test]
fn scripted_reply_of_wrong_length_fails_the_transaction() {
    let mut d = open_at_high(vec![ScriptStep::Reply(vec![0x01, 0x02])]);
    let r = d.read_register(registers::STATUS_REG);
    assert_eq!(r, Err(ScriptError));
}

#[test]
fn transport_fault_during_measurement_read_is_an_error() {
    let mut d = open_at_high(vec![ScriptStep::Reply(vec![0x01]), ScriptStep::Fail]);
    let r = d.read_accel();
    assert_eq!(r, Reading::Fault(ScriptError));
    // Only the status read was recorded beyond discovery.
    let bus = d.release();
    assert_eq!(bus.transactions().len(), 3);
}
