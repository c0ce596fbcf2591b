use ina3221::registers::{
    from_bytes, to_bytes, Address, Averages, Ch1BusVoltage, Ch1ShuntVoltage, Ch2BusVoltage,
    Ch2ShuntVoltage, Ch3BusVoltage, Ch3ShuntVoltage, ConfigUpdate, Configuration, ConversionTime,
    DieId, ManufacturerId, Mode, PackingError, Register,
};
use ina3221::Channel;

const AVERAGES: [Averages; 8] = [
    Averages::_1,
    Averages::_4,
    Averages::_16,
    Averages::_64,
    Averages::_128,
    Averages::_256,
    Averages::_512,
    Averages::_1024,
];

const TIMES: [ConversionTime; 8] = [
    ConversionTime::_0_140,
    ConversionTime::_0_204,
    ConversionTime::_0_332,
    ConversionTime::_0_588,
    ConversionTime::_1_1,
    ConversionTime::_2_116,
    ConversionTime::_4_1566,
    ConversionTime::_8_244,
];

const MODES: [Mode; 8] = [
    Mode::PowerDown,
    Mode::ShuntVoltSS,
    Mode::BusVoltSS,
    Mode::ShuntBusSS,
    Mode::Reserved,
    Mode::ShuntVoltCont,
    Mode::BusVoltCont,
    Mode::ShutBusCont,
];

#[test]
fn configuration_round_trips_for_every_field_combination() {
    for flags in 0u8..16 {
        for avg in AVERAGES {
            for vbus_ct in TIMES {
                for vsh_ct in TIMES {
                    for mode in MODES {
                        let c = Configuration {
                            rst: flags & 8 != 0,
                            enable_ch1: flags & 4 != 0,
                            enable_ch2: flags & 2 != 0,
                            enable_ch3: flags & 1 != 0,
                            avg,
                            vbus_ct,
                            vsh_ct,
                            mode,
                        };
                        let bytes = c.pack().unwrap();
                        assert_eq!(Configuration::unpack(&bytes), Ok(c));
                    }
                }
            }
        }
    }
}

#[test]
fn every_configuration_word_round_trips() {
    for w in 0u32..=0xffff {
        let bytes = to_bytes(w as u16);
        let c = Configuration::unpack(&bytes).unwrap();
        assert_eq!(c.pack(), Ok(bytes));
    }
}

#[test]
fn configuration_field_positions() {
    let c = Configuration {
        rst: true,
        enable_ch1: false,
        enable_ch2: true,
        enable_ch3: false,
        avg: Averages::_64,
        vbus_ct: ConversionTime::_0_204,
        vsh_ct: ConversionTime::_8_244,
        mode: Mode::ShuntVoltSS,
    };
    // 1 0 1 0 | 011 | 001 | 111 | 001
    assert_eq!(c.pack(), Ok([0b1010_0110, 0b0111_1001]));
}

#[test]
fn voltage_registers_round_trip() {
    for v in -4096i16..4096 {
        let b = Ch1ShuntVoltage { voltage: v }.pack().unwrap();
        assert_eq!(Ch1ShuntVoltage::unpack(&b), Ok(Ch1ShuntVoltage { voltage: v }));
        assert_eq!(b[1] & 0b111, 0);
        let b = Ch1BusVoltage { voltage: v }.pack().unwrap();
        assert_eq!(Ch1BusVoltage::unpack(&b), Ok(Ch1BusVoltage { voltage: v }));
        let b = Ch2ShuntVoltage { voltage: v }.pack().unwrap();
        assert_eq!(Ch2ShuntVoltage::unpack(&b), Ok(Ch2ShuntVoltage { voltage: v }));
        let b = Ch2BusVoltage { voltage: v }.pack().unwrap();
        assert_eq!(Ch2BusVoltage::unpack(&b), Ok(Ch2BusVoltage { voltage: v }));
        let b = Ch3ShuntVoltage { voltage: v }.pack().unwrap();
        assert_eq!(Ch3ShuntVoltage::unpack(&b), Ok(Ch3ShuntVoltage { voltage: v }));
        let b = Ch3BusVoltage { voltage: v }.pack().unwrap();
        assert_eq!(Ch3BusVoltage::unpack(&b), Ok(Ch3BusVoltage { voltage: v }));
    }
}

#[test]
fn voltage_outside_thirteen_bits_is_not_packed() {
    assert_eq!(Ch1ShuntVoltage { voltage: 4096 }.pack(), Err(PackingError::OutOfRange));
    assert_eq!(Ch2BusVoltage { voltage: -4097 }.pack(), Err(PackingError::OutOfRange));
    assert_eq!(Ch3BusVoltage { voltage: i16::MAX }.pack(), Err(PackingError::OutOfRange));
    assert_eq!(Ch3ShuntVoltage { voltage: 4095 }.pack(), Ok([0x7f, 0xf8]));
    assert_eq!(Ch3ShuntVoltage { voltage: -4096 }.pack(), Ok([0x80, 0x00]));
}

#[test]
fn signed_voltage_decoding() {
    assert_eq!(Ch1ShuntVoltage::unpack(&[0x00, 0b0000_1000]), Ok(Ch1ShuntVoltage { voltage: 1 }));
    assert_eq!(Ch2BusVoltage::unpack(&[0x00, 0b0000_1000]), Ok(Ch2BusVoltage { voltage: 1 }));
    assert_eq!(Ch1ShuntVoltage::unpack(&[0xff, 0xf8]), Ok(Ch1ShuntVoltage { voltage: -1 }));
    assert_eq!(Ch3BusVoltage::unpack(&[0xff, 0xf8]), Ok(Ch3BusVoltage { voltage: -1 }));
    assert_eq!(Ch1BusVoltage::unpack(&[0x80, 0x00]), Ok(Ch1BusVoltage { voltage: -4096 }));
}

#[test]
fn voltage_low_bits_are_ignored() {
    assert_eq!(Ch1ShuntVoltage::unpack(&[0x00, 0b0000_1111]), Ok(Ch1ShuntVoltage { voltage: 1 }));
    assert_eq!(Ch2ShuntVoltage::unpack(&[0xff, 0xff]), Ok(Ch2ShuntVoltage { voltage: -1 }));
}

#[test]
fn id_registers_round_trip() {
    for id in [0u16, 1, 0x3220, 0x5449, 0xffff] {
        let b = ManufacturerId { id }.pack().unwrap();
        assert_eq!(ManufacturerId::unpack(&b), Ok(ManufacturerId { id }));
        let b = DieId { id }.pack().unwrap();
        assert_eq!(DieId::unpack(&b), Ok(DieId { id }));
    }
    assert_eq!(ManufacturerId::unpack(&[0x54, 0x49]), Ok(ManufacturerId { id: 0x5449 }));
}

#[test]
fn reserved_mode_decodes() {
    let c = Configuration::unpack(&[0x01, 0b0010_0100]).unwrap();
    assert_eq!(c.mode, Mode::Reserved);
    assert_eq!(Mode::from_primitive(4), Some(Mode::Reserved));
    assert_eq!(c.pack(), Ok([0x01, 0b0010_0100]));
}

#[test]
fn codes_outside_three_bits_name_no_variant() {
    assert_eq!(Mode::from_primitive(8), None);
    assert_eq!(Averages::from_primitive(9), None);
    assert_eq!(ConversionTime::from_primitive(255), None);
    assert_eq!(Averages::from_primitive(7), Some(Averages::_1024));
    assert_eq!(ConversionTime::from_primitive(6), Some(ConversionTime::_4_1566));
    assert_eq!(Mode::ShuntVoltCont.to_primitive(), 5);
}

#[test]
fn default_configuration_encoding() {
    let c = Configuration::default();
    assert_eq!(c.mode, Mode::ShutBusCont);
    assert_eq!(c.vbus_ct, ConversionTime::_1_1);
    assert_eq!(c.vsh_ct, ConversionTime::_1_1);
    assert_eq!(c.avg, Averages::_1);
    assert!(!c.rst);
    assert!(!c.enable_ch1 && !c.enable_ch2 && !c.enable_ch3);
    assert_eq!(c.pack(), Ok([0x01, 0x27]));
}

#[test]
fn register_addresses_are_distinct() {
    let addrs = [
        Configuration::addr(),
        Ch1ShuntVoltage::addr(),
        Ch1BusVoltage::addr(),
        Ch2ShuntVoltage::addr(),
        Ch2BusVoltage::addr(),
        Ch3ShuntVoltage::addr(),
        Ch3BusVoltage::addr(),
        ManufacturerId::addr(),
        DieId::addr(),
    ];
    assert_eq!(addrs, [0x00, 0x01, 0x02, 0x03, 0x04, 0x05, 0x06, 0xfe, 0xff]);
    for i in 0..addrs.len() {
        for j in i + 1..addrs.len() {
            assert_ne!(addrs[i], addrs[j]);
        }
    }
}

#[test]
fn one_field_update_keeps_other_bits() {
    let updates = [
        (ConfigUpdate::EnableChannel(Channel::Ch1, true), 0x4000u16),
        (ConfigUpdate::EnableChannel(Channel::Ch2, false), 0x2000),
        (ConfigUpdate::EnableChannel(Channel::Ch3, true), 0x1000),
        (ConfigUpdate::Averaging(Averages::_256), 0x0e00),
        (ConfigUpdate::BusConversionTime(ConversionTime::_0_140), 0x01c0),
        (ConfigUpdate::ShuntConversionTime(ConversionTime::_2_116), 0x0038),
        (ConfigUpdate::OperatingMode(Mode::BusVoltCont), 0x0007),
    ];
    for w in [0x0000u16, 0xffff, 0x7127, 0x0127, 0xa5a5, 0x5a5a] {
        let before = Configuration::unpack(&to_bytes(w)).unwrap();
        for (u, mask) in updates {
            let after = from_bytes(&before.apply(u).pack().unwrap());
            assert_eq!(after & !mask, w & !mask);
        }
    }
    let c = Configuration::default().apply(ConfigUpdate::OperatingMode(Mode::BusVoltCont));
    assert_eq!(c.pack(), Ok([0x01, 0x26]));
}

#[test]
fn word_and_bytes() {
    assert_eq!(to_bytes(0x5449), [0x54, 0x49]);
    assert_eq!(from_bytes(&[0x32, 0x20]), 0x3220);
}
