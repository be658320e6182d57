use lsm303dlhc::measurement::{accel_from_bytes, combine_bytes, mag_from_bytes, temp_from_bytes};
use lsm303dlhc::{mag, BusFault, I16x3, Record, RecordingBus, LSM303DLHC};
use lsm303dlhc_registers::accel::{AccelOdr, RegisterAddress, Sensitivity};
use lsm303dlhc_registers::mag::MagOdr;

const ACCEL: u8 = 0x19;
const MAG: u8 = 0x1E;

/// A session over a recording bus, after the construction sequence; `fail_at`
/// counts the transactions that follow it.
fn session(responses: Vec<u8>, fail_at: Option<usize>) -> LSM303DLHC<RecordingBus> {
    LSM303DLHC::new(RecordingBus::new(responses, fail_at.map(|k| k + 8))).unwrap()
}

/// The transactions after the construction sequence.
fn after_init(sensor: &LSM303DLHC<RecordingBus>) -> &[Record] {
    &sensor.bus().log[8..]
}

fn is_write(r: &Record, address: u8, sent: &[u8]) -> bool {
    r.address == address && r.sent == sent && !r.is_read && r.received.is_empty()
}

fn is_read(r: &Record, address: u8, sent: &[u8], received: &[u8]) -> bool {
    r.address == address && r.sent == sent && r.is_read && r.received == received
}

#[test]
fn combine_matches_from_le_bytes_for_every_pair() {
    for low in 0..=255u8 {
        for high in 0..=255u8 {
            assert_eq!(combine_bytes(low, high), i16::from_le_bytes([low, high]));
        }
    }
}

#[test]
fn accel_bytes_are_low_then_high_in_xyz_order() {
    let b = [0x01, 0x02, 0xFF, 0xFF, 0x00, 0x80];
    assert_eq!(accel_from_bytes(&b), I16x3 { x: 0x0201, y: -1, z: -32768 });
}

#[test]
fn mag_bytes_are_high_then_low_in_xzy_order() {
    let b = [0x12, 0x34, 0x56, 0x78, 0x9A, 0xBC];
    let r = mag_from_bytes(&b);
    assert_eq!(r.x, i16::from_le_bytes([0x34, 0x12]));
    assert_eq!(r.y, i16::from_le_bytes([0xBC, 0x9A]));
    assert_eq!(r.z, i16::from_le_bytes([0x78, 0x56]));
}

#[test]
fn temperature_from_bytes_shifts_arithmetically() {
    assert_eq!(temp_from_bytes(0x00, 0x19), ((0x1900u16 as i16) >> 4));
    assert_eq!(temp_from_bytes(0x00, 0x19), 400);
    assert_eq!(temp_from_bytes(0x00, 0xFF), -16);
    assert_eq!(temp_from_bytes(0xF0, 0xFF), -1);
}

#[test]
fn construction_writes_the_init_sequence_in_order() {
    let sensor = LSM303DLHC::new(RecordingBus::new(Vec::new(), None)).unwrap();
    let log = &sensor.bus().log;
    assert_eq!(log.len(), 8);
    let expected: [(u8, [u8; 2]); 8] = [
        (ACCEL, [0x20, 0x77]),
        (ACCEL, [0x21, 0x00]),
        (ACCEL, [0x22, 0x00]),
        (ACCEL, [0x23, 0x00]),
        (ACCEL, [0x24, 0x00]),
        (ACCEL, [0x25, 0x00]),
        (MAG, [0x02, 0x00]),
        (MAG, [0x00, 0x98]),
    ];
    for (r, (address, sent)) in log.iter().zip(expected.iter()) {
        assert!(is_write(r, *address, sent));
        assert!(r.ok);
    }
}

#[test]
fn construction_stops_at_the_first_failed_write() {
    for k in 0..8usize {
        let r = LSM303DLHC::new(RecordingBus::new(Vec::new(), Some(k)));
        match r {
            Err(e) => assert_eq!(e, BusFault { index: k }),
            Ok(_) => panic!("construction should fail at write {}", k),
        }
    }
}

#[test]
fn configure_stops_after_a_failure() {
    let mut sensor = LSM303DLHC::new(RecordingBus::new(Vec::new(), Some(11))).unwrap();
    assert_eq!(sensor.configure(), Err(BusFault { index: 11 }));
    let log = after_init(&sensor);
    assert_eq!(log.len(), 4);
    assert!(log[..3].iter().all(|r| r.ok));
    assert!(!log[3].ok);
}

#[test]
fn accel_reads_six_bytes_with_auto_increment() {
    let mut sensor = session(vec![0x10, 0x00, 0x00, 0xFF, 0x34, 0x12], None);
    let r = sensor.accel().unwrap();
    assert_eq!(r, I16x3 { x: 0x10, y: -256, z: 0x1234 });
    let log = after_init(&sensor);
    assert_eq!(log.len(), 1);
    assert!(is_read(&log[0], ACCEL, &[0xA8], &[0x10, 0x00, 0x00, 0xFF, 0x34, 0x12]));
}

#[test]
fn mag_reads_six_bytes_without_flag() {
    let mut sensor = session(vec![0x01, 0x02, 0x03, 0x04, 0x05, 0x06], None);
    let r = sensor.mag().unwrap();
    assert_eq!(r, I16x3 { x: 0x0102, y: 0x0506, z: 0x0304 });
    let log = after_init(&sensor);
    assert!(is_read(&log[0], MAG, &[0x03], &[0x01, 0x02, 0x03, 0x04, 0x05, 0x06]));
}

#[test]
fn burst_start_sets_bit_seven_only_for_accel() {
    let mut sensor = session(vec![0x5A, 0xA5], None);
    assert_eq!(sensor.read_accel_register(RegisterAddress::CTRL_REG4_A), Ok(0x5A));
    assert_eq!(sensor.read_mag_register(mag::Register::SR_REG_M), Ok(0xA5));
    let log = after_init(&sensor);
    assert!(is_read(&log[0], ACCEL, &[0x23 | 0x80], &[0x5A]));
    assert!(is_read(&log[1], MAG, &[0x09], &[0xA5]));
}

#[test]
fn temp_reads_low_then_high() {
    let mut sensor = session(vec![0x00, 0x19], None);
    assert_eq!(sensor.temp(), Ok(400));
    let log = after_init(&sensor);
    assert!(is_read(&log[0], MAG, &[0x32], &[0x00]));
    assert!(is_read(&log[1], MAG, &[0x31], &[0x19]));
}

#[test]
fn temp_keeps_the_sign() {
    let mut sensor = session(vec![0x00, 0xFF], None);
    let t = sensor.temp().unwrap();
    assert!(t < 0);
    assert_eq!(t, -16);
}

#[test]
fn temp_fails_when_a_read_fails() {
    let mut sensor = session(vec![0x00, 0x19], Some(0));
    assert_eq!(sensor.temp(), Err(BusFault { index: 8 }));
    assert_eq!(after_init(&sensor).len(), 1);
    let mut sensor = session(vec![0x00, 0x19], Some(1));
    assert_eq!(sensor.temp(), Err(BusFault { index: 9 }));
    assert_eq!(after_init(&sensor).len(), 2);
}

#[test]
fn identify_accepts_the_expected_bytes() {
    let mut sensor = session(vec![0x48, 0x34, 0x33], None);
    assert_eq!(sensor.identify(), Ok(true));
    let log = after_init(&sensor);
    assert!(is_read(&log[0], MAG, &[0x0A], &[0x48]));
    assert!(is_read(&log[1], MAG, &[0x0B], &[0x34]));
    assert!(is_read(&log[2], MAG, &[0x0C], &[0x33]));
}

#[test]
fn identify_rejects_any_single_mismatch() {
    let good = [0x48u8, 0x34, 0x33];
    for i in 0..3 {
        for v in 0..=255u8 {
            if v == good[i] {
                continue;
            }
            let mut bytes = good.to_vec();
            bytes[i] = v;
            let mut sensor = session(bytes, None);
            assert_eq!(sensor.identify(), Ok(false));
        }
    }
}

#[test]
fn identify_fails_when_a_read_fails() {
    for k in 0..3usize {
        let mut sensor = session(vec![0x48, 0x34, 0x33], Some(k));
        assert_eq!(sensor.identify(), Err(BusFault { index: 8 + k }));
        assert_eq!(after_init(&sensor).len(), k + 1);
    }
}

#[test]
fn modify_writes_what_the_function_makes_of_the_read_byte() {
    let mut sensor = session(vec![0x3C], None);
    assert_eq!(sensor.modify_register_bits(ACCEL, 0x2E, |b| b.wrapping_mul(3) ^ 0x55), Ok(()));
    let log = after_init(&sensor);
    assert_eq!(log.len(), 2);
    assert!(is_read(&log[0], ACCEL, &[0x2E], &[0x3C]));
    assert!(is_write(&log[1], ACCEL, &[0x2E, 0x3Cu8.wrapping_mul(3) ^ 0x55]));
}

#[test]
fn modify_does_not_write_after_a_failed_read() {
    let mut sensor = session(vec![0x3C], Some(0));
    assert_eq!(sensor.modify_mag_register(mag::Register::CRB_REG_M, |b| b + 1), Err(BusFault { index: 8 }));
    assert_eq!(after_init(&sensor).len(), 1);
}

#[test]
fn modify_accel_register_reads_with_flag_and_writes_without() {
    let mut sensor = session(vec![0x01], None);
    assert_eq!(sensor.modify_accel_register(RegisterAddress::INT1_CFG_A, |b| b | 0x80), Ok(()));
    let log = after_init(&sensor);
    assert!(is_read(&log[0], ACCEL, &[0xB0], &[0x01]));
    assert!(is_write(&log[1], ACCEL, &[0x30, 0x81]));
}

#[test]
fn write_registers_send_address_and_byte() {
    let mut sensor = session(Vec::new(), None);
    assert_eq!(sensor.write_accel_register(RegisterAddress::CTRL_REG5_A, 0x40), Ok(()));
    assert_eq!(sensor.write_mag_register(mag::Register::CRB_REG_M, 0x20), Ok(()));
    assert_eq!(sensor.write_register_bits(0x42, 0x07, 0x99), Ok(()));
    let log = after_init(&sensor);
    assert!(is_write(&log[0], ACCEL, &[0x24, 0x40]));
    assert!(is_write(&log[1], MAG, &[0x01, 0x20]));
    assert!(is_write(&log[2], 0x42, &[0x07, 0x99]));
}

#[test]
fn sensitivity_keeps_other_bits_for_every_byte_and_code() {
    let codes = [
        (Sensitivity::G1, 0u8),
        (Sensitivity::G2, 1),
        (Sensitivity::G4, 2),
        (Sensitivity::G12, 3),
    ];
    for initial in 0..=255u8 {
        for (s, code) in codes.iter() {
            let mut sensor = session(vec![initial], None);
            assert_eq!(sensor.set_accel_sensitivity(*s), Ok(()));
            let log = after_init(&sensor);
            assert!(is_read(&log[0], ACCEL, &[0xA3], &[initial]));
            assert_eq!(log[1].sent[0], 0x23);
            let result = log[1].sent[1];
            assert_eq!(result & !0b110000, initial & !0b110000);
            assert_eq!((result >> 4) & 0b11, *code);
        }
    }
}

#[test]
fn accel_odr_replaces_only_the_rate_field() {
    let mut sensor = session(vec![0x0F], None);
    assert_eq!(sensor.accel_odr(AccelOdr::Hz100), Ok(()));
    let log = after_init(&sensor);
    assert!(is_read(&log[0], ACCEL, &[0x20], &[0x0F]));
    assert!(is_write(&log[1], ACCEL, &[0x20, 0x5F]));

    let mut sensor = session(vec![0x97], None);
    assert_eq!(sensor.accel_odr(AccelOdr::Hz1), Ok(()));
    assert!(is_write(&after_init(&sensor)[1], ACCEL, &[0x20, 0x17]));
}

#[test]
fn mag_odr_replaces_only_the_rate_field() {
    let mut sensor = session(vec![0x98], None);
    assert_eq!(sensor.mag_odr(MagOdr::Hz220), Ok(()));
    let log = after_init(&sensor);
    assert!(is_read(&log[0], MAG, &[0x00], &[0x98]));
    assert!(is_write(&log[1], MAG, &[0x00, 0x9C]));

    let mut sensor = session(vec![0xFF], None);
    assert_eq!(sensor.mag_odr(MagOdr::Hz0_75), Ok(()));
    assert!(is_write(&after_init(&sensor)[1], MAG, &[0x00, 0xE3]));
}

#[test]
fn mag_register_addresses() {
    assert_eq!(mag::Register::CRA_REG_M.addr(), 0x00);
    assert_eq!(mag::Register::OUT_X_H_M.addr(), 0x03);
    assert_eq!(mag::Register::OUT_Y_L_M.addr(), 0x08);
    assert_eq!(mag::Register::IRC_REG_M.addr(), 0x0C);
    assert_eq!(mag::Register::TEMP_OUT_H_M.addr(), 0x31);
    assert_eq!(mag::Register::TEMP_OUT_L_M.addr(), 0x32);
}

#[test]
fn read_register_bits_sends_the_address_unchanged() {
    let mut sensor = session(vec![0x77], None);
    assert_eq!(sensor.read_register_bits(ACCEL, 0x20), Ok(0x77));
    assert!(is_read(&after_init(&sensor)[0], ACCEL, &[0x20], &[0x77]));
}

#[test]
fn release_hands_back_the_bus() {
    let sensor = session(Vec::new(), None);
    let bus = sensor.release();
    assert_eq!(bus.log.len(), 8);
}
