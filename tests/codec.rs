use ak09916::regs::{
    i16_from_le_bytes, Cntl2, Cntl3, Hx, Hxh, Hxl, Hy, Hz, ModeRegister, Register16, Register8,
    RegisterAddress, RegisterDump, St1, St2, Wia1, Wia2,
};
use ak09916::{Measurement, MeasurementFlags, Mode, SelfTestResult, WhoIAm};

#[test]
fn register_addresses_are_bit_exact() {
    assert_eq!(u8::from(RegisterAddress::Wia1), 0x00);
    assert_eq!(u8::from(RegisterAddress::Wia2), 0x01);
    assert_eq!(u8::from(RegisterAddress::St1), 0x10);
    assert_eq!(u8::from(RegisterAddress::Hxl), 0x11);
    assert_eq!(u8::from(RegisterAddress::Hzh), 0x16);
    assert_eq!(u8::from(RegisterAddress::Tmps), 0x17);
    assert_eq!(u8::from(RegisterAddress::St2), 0x18);
    assert_eq!(u8::from(RegisterAddress::Cntl1), 0x30);
    assert_eq!(u8::from(RegisterAddress::Cntl2), 0x31);
    assert_eq!(u8::from(RegisterAddress::Cntl3), 0x32);
    assert_eq!(u8::from(RegisterAddress::Ts2), 0x34);
    assert_eq!(Cntl2::address(), RegisterAddress::Cntl2);
    assert_eq!(<Hx as Register16>::address(), RegisterAddress::Hxl);
}

#[test]
fn plain_registers_round_trip_every_byte() {
    for b in 0..=255u8 {
        assert_eq!(u8::from(Wia1::from(b)), b);
        assert_eq!(u8::from(Wia2::from(b)), b);
        assert_eq!(u8::from(Hxl::from(b)), b);
        assert_eq!(Hxh::decode(b).encode(), b);
    }
}

#[test]
fn flag_registers_keep_documented_bits_only() {
    assert_eq!(u8::from(St1::from(0xff)), 0x03);
    assert_eq!(u8::from(St2::from(0xff)), 0x78);
    assert_eq!(u8::from(St2::from(0x08)), 0x08);
    assert_eq!(u8::from(Cntl3::from(0xfe)), 0x00);
    assert_eq!(u8::from(Cntl3::from(0x81)), 0x01);
    for b in 0..=255u8 {
        let once = St1::from(b);
        assert_eq!(St1::from(u8::from(once)), once);
        let once = St2::from(b);
        assert_eq!(St2::from(u8::from(once)), once);
        assert_eq!(u8::from(Cntl2::from(b)), b & 0x1f);
    }
}

#[test]
fn flag_register_queries() {
    let st1 = St1::from(St1::DOR | St1::DRDY);
    assert!(st1.contains(St1::DRDY));
    assert!(st1.contains(St1::DOR));
    assert!(!St1::empty().contains(St1::DRDY));
    assert_eq!(St1::from_bits_truncate(0x01).union(St1::from_bits_truncate(0x02)).bits(), 0x03);
}

#[test]
fn mode_register_decodes_known_and_unknown_codes() {
    assert_eq!(ModeRegister::from(0b0000_0010), ModeRegister::Mode(Mode::Continuous10Hz));
    assert_eq!(ModeRegister::from(0b0001_1111), ModeRegister::Other(31));
    assert_eq!(ModeRegister::from(0b1110_0000), ModeRegister::Mode(Mode::PowerDown));
    assert_eq!(ModeRegister::from(0b0001_0000), ModeRegister::Mode(Mode::SelfTest));
    assert_eq!(Cntl2::from(0b0000_0010).0, ModeRegister::Mode(Mode::CONTINUOUS_1));
    assert_eq!(u8::from(ModeRegister::Other(31)), 31);
}

#[test]
fn mode_codes() {
    assert_eq!(u8::from(Mode::PowerDown), 0b00000);
    assert_eq!(u8::from(Mode::SingleMeasurement), 0b00001);
    assert_eq!(u8::from(Mode::Continuous10Hz), 0b00010);
    assert_eq!(u8::from(Mode::Continuous20Hz), 0b00100);
    assert_eq!(u8::from(Mode::Continuous50Hz), 0b00110);
    assert_eq!(u8::from(Mode::Continuous100Hz), 0b01000);
    assert_eq!(u8::from(Mode::SelfTest), 0b10000);
    assert_eq!(Mode::from_code(0b00110), Some(Mode::Continuous50Hz));
    assert_eq!(Mode::from_code(0b00011), None);
    assert_eq!(u8::from(Cntl2::from(Mode::Continuous100Hz)), 0b01000);
}

#[test]
fn little_endian_words() {
    assert_eq!(i16_from_le_bytes([0x64, 0x00]), 100);
    assert_eq!(i16_from_le_bytes([0xce, 0xff]), -50);
    assert_eq!(i16_from_le_bytes([0x00, 0x80]), i16::MIN);
    assert_eq!(i16_from_le_bytes([0xff, 0x7f]), i16::MAX);
    assert_eq!(i16::from(Hy::from(-7i16)), -7);
    assert_eq!(Hz::decode(i16::MIN).encode(), i16::MIN);
}

fn measurement(hx: i16, hy: i16, hz: i16) -> Measurement {
    Measurement { hx, hy, hz, flags: MeasurementFlags::empty() }
}

#[test]
fn nanotesla_conversion() {
    let m = measurement(1, -2, 0);
    assert_eq!(m.x_nanoteslas(), 150);
    assert_eq!(m.y_nanoteslas(), -300);
    assert_eq!(m.z_nanoteslas(), 0);
    let m = measurement(i16::MAX, i16::MIN, -800);
    assert_eq!(m.x_nanoteslas(), 32767 * 150);
    assert_eq!(m.y_nanoteslas(), -32768 * 150);
    assert_eq!(m.z_nanoteslas(), -120_000);
}

#[test]
fn self_test_bands() {
    assert!(SelfTestResult::from(measurement(0, 0, -500)).is_valid);
    assert!(!SelfTestResult::from(measurement(300, 0, -500)).is_valid);
    assert!(!SelfTestResult::from(measurement(0, 0, -100)).is_valid);
    assert!(SelfTestResult::from(measurement(-200, 200, -1000)).is_valid);
    assert!(SelfTestResult::from(measurement(200, -200, -200)).is_valid);
    assert!(!SelfTestResult::from(measurement(0, 201, -500)).is_valid);
    assert!(!SelfTestResult::from(measurement(0, 0, -1001)).is_valid);
    assert_eq!(SelfTestResult::from(measurement(0, 0, -500)).measurement, measurement(0, 0, -500));
}

#[test]
fn measurement_decode_with_both_flags() {
    let buffer = [0x64, 0x00, 0xce, 0xff, 0xe0, 0xfc, 0x00, 0x08];
    let m = Measurement::from_raw_data(St1::from(0x02), buffer);
    assert_eq!((m.hx, m.hy, m.hz), (100, -50, -800));
    assert!(m.overflow());
    assert!(m.overrun());
    assert_eq!(m.flags.bits(), MeasurementFlags::OVERFLOW | MeasurementFlags::OVERRUN);
}

#[test]
fn measurement_decode_without_flags() {
    let buffer = [0x01, 0x00, 0x02, 0x00, 0x03, 0x00, 0xff, 0x70];
    let m = Measurement::from_raw_data(St1::from(0x01), buffer);
    assert_eq!((m.hx, m.hy, m.hz), (1, 2, 3));
    assert!(!m.overflow());
    assert!(!m.overrun());
    assert_eq!(m.flags, MeasurementFlags::empty());
}

#[test]
fn register_dump_fixture() {
    let buffer = [
        0x48, 0x09, 0x11, 0x22, 0xff, 0x64, 0x00, 0xce, 0xff, 0xe0, 0xfc, 0x55, 0xff, 0x77, 0xe2,
        0xff,
    ];
    let expected = RegisterDump {
        company_id: Wia1(0x48),
        device_id: Wia2(0x09),
        st1: St1::from_bits_truncate(0x03),
        hx: 100,
        hy: -50,
        hz: -800,
        st2: St2::from_bits_truncate(0x78),
        mode: ModeRegister::Mode(Mode::Continuous10Hz),
        cntl3: Cntl3::from_bits_truncate(0x01),
    };
    assert_eq!(RegisterDump::from_raw_data(buffer), expected);
}

#[test]
fn expected_identity() {
    let id = WhoIAm::ak09916();
    assert_eq!(id, WhoIAm { company_id: 0x48, device_id: 0x09 });
    assert_eq!(Wia1::akm(), Wia1(0x48));
    assert_eq!(Wia2::ak09916(), Wia2(0x09));
}

#[test]
fn dump_ignores_reserved_and_dummy_bytes() {
    let mut a = [0x5au8; 16];
    let mut b = a;
    a[2] = 0x00;
    a[3] = 0x00;
    a[11] = 0x00;
    a[13] = 0x00;
    b[2] = 0xff;
    b[3] = 0xff;
    b[11] = 0xff;
    b[13] = 0xff;
    assert_eq!(RegisterDump::from_raw_data(a), RegisterDump::from_raw_data(b));
}

#[test]
fn measurement_decode_of_extreme_values() {
    let buffer = [0x00, 0x80, 0xff, 0x7f, 0xff, 0xff, 0xab, 0xf7];
    let m = Measurement::from_raw_data(St1::from(0b1111_1101), buffer);
    assert_eq!(
        m,
        Measurement { hx: -32768, hy: 32767, hz: -1, flags: MeasurementFlags::empty() }
    );
}

#[test]
fn soft_reset_request_encoding() {
    assert_eq!(u8::from(Cntl3::address()), 0x32);
    assert_eq!(Cntl3::from_bits_truncate(Cntl3::SRST).encode(), 0x01);
    assert_eq!(u8::from(St1::address()), 0x10);
}
