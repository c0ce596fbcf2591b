use ina3221::registers::{Averages, ConversionTime, Mode};
use ina3221::{AddressPin, Channel, Error, I2cBus, INA3221};

#[derive(Debug, Clone, PartialEq)]
enum Op {
    Write(u8, Vec<u8>),
    WriteRead(u8, Vec<u8>),
}

/// A device model: a register file behind a pointer, and a record of every bus operation.
struct StubBus {
    regs: [u16; 256],
    pointer: u8,
    ops: Vec<Op>,
    fail_after: Option<usize>,
}

impl StubBus {
    fn new() -> Self {
        let mut regs = [0u16; 256];
        regs[0x00] = 0x0127;
        regs[0xfe] = 0x5449;
        regs[0xff] = 0x3220;
        StubBus { regs, pointer: 0, ops: Vec::new(), fail_after: None }
    }

    fn failing(&self) -> bool {
        matches!(self.fail_after, Some(n) if self.ops.len() > n)
    }
}

impl I2cBus for StubBus {
    type Error = &'static str;

    fn write(&mut self, address: u8, bytes: &[u8]) -> Result<(), Self::Error> {
        self.ops.push(Op::Write(address, bytes.to_vec()));
        if self.failing() {
            return Err("nack");
        }
        if bytes.len() == 1 {
            self.pointer = bytes[0];
        } else {
            self.regs[self.pointer as usize] = u16::from_be_bytes([bytes[0], bytes[1]]);
        }
        Ok(())
    }

    fn write_read(&mut self, address: u8, bytes: &[u8], buffer: &mut [u8; 2]) -> Result<(), Self::Error> {
        self.ops.push(Op::WriteRead(address, bytes.to_vec()));
        if self.failing() {
            return Err("nack");
        }
        self.pointer = bytes[0];
        *buffer = self.regs[self.pointer as usize].to_be_bytes();
        Ok(())
    }
}

#[test]
fn address_pins_select_bus_addresses() {
    assert_eq!(AddressPin::Gnd.addr(), 0x40);
    assert_eq!(AddressPin::Vs.addr(), 0x41);
    assert_eq!(AddressPin::Sda.addr(), 0x42);
    assert_eq!(AddressPin::Scl.addr(), 0x43);
}

#[test]
fn set_mode_is_one_read_then_one_write() {
    let mut dev = INA3221::new(StubBus::new(), AddressPin::Gnd);
    dev.set_mode(Mode::BusVoltCont).unwrap();
    let bus = dev.release();
    assert_eq!(
        bus.ops,
        vec![
            Op::WriteRead(0x40, vec![0x00]),
            Op::Write(0x40, vec![0x00]),
            Op::Write(0x40, vec![0x01, 0x26]),
        ]
    );
    assert_eq!(bus.regs[0] ^ 0x0127, 0x0001);
    assert_eq!(bus.regs[0] & 0b111, 6);
}

#[test]
fn manufacturer_id_is_read_from_its_register() {
    let mut dev = INA3221::new(StubBus::new(), AddressPin::Vs);
    assert_eq!(dev.manufacturer_id().unwrap(), 0x5449);
    assert_eq!(dev.die_id().unwrap(), 0x3220);
    let bus = dev.release();
    assert_eq!(bus.ops, vec![Op::WriteRead(0x41, vec![0xfe]), Op::WriteRead(0x41, vec![0xff])]);
}

#[test]
fn reset_writes_default_configuration_with_reset_flag() {
    let mut bus = StubBus::new();
    bus.regs[0] = 0x7fff;
    let mut dev = INA3221::new(bus, AddressPin::Scl);
    dev.reset().unwrap();
    let bus = dev.release();
    assert_eq!(bus.ops, vec![Op::Write(0x43, vec![0x00]), Op::Write(0x43, vec![0x81, 0x27])]);
}

#[test]
fn enable_channel_keeps_other_fields() {
    let mut bus = StubBus::new();
    bus.regs[0] = 0x2a5d;
    let mut dev = INA3221::new(bus, AddressPin::Gnd);
    dev.enable_channel(Channel::Ch1, true).unwrap();
    dev.enable_channel(Channel::Ch2, false).unwrap();
    dev.enable_channel(Channel::Ch3, true).unwrap();
    let bus = dev.release();
    assert_eq!(bus.regs[0], 0x5a5d);
}

#[test]
fn conversion_times_and_averaging() {
    let mut dev = INA3221::new(StubBus::new(), AddressPin::Sda);
    assert_eq!(dev.get_bus_ct().unwrap(), ConversionTime::_1_1);
    assert_eq!(dev.get_shunt_ct().unwrap(), ConversionTime::_1_1);
    assert_eq!(dev.get_mode().unwrap(), Mode::ShutBusCont);
    assert_eq!(dev.get_averages().unwrap(), Averages::_1);
    dev.set_bus_ct(ConversionTime::_8_244).unwrap();
    dev.set_shunt_ct(ConversionTime::_0_140).unwrap();
    dev.set_averages(Averages::_1024).unwrap();
    assert_eq!(dev.get_bus_ct().unwrap(), ConversionTime::_8_244);
    assert_eq!(dev.get_shunt_ct().unwrap(), ConversionTime::_0_140);
    assert_eq!(dev.get_averages().unwrap(), Averages::_1024);
    assert_eq!(dev.get_mode().unwrap(), Mode::ShutBusCont);
    let bus = dev.release();
    assert_eq!(bus.regs[0], 0b0000_1111_1100_0111);
}

#[test]
fn reserved_mode_read_back() {
    let mut bus = StubBus::new();
    bus.regs[0] = 0x0124;
    let mut dev = INA3221::new(bus, AddressPin::Gnd);
    assert_eq!(dev.get_mode().unwrap(), Mode::Reserved);
}

#[test]
fn voltages_are_scaled() {
    let mut bus = StubBus::new();
    bus.regs[0x01] = 0b0000_0000_0000_1000;
    bus.regs[0x02] = 0b0000_0000_0000_1000;
    bus.regs[0x03] = 0xfff8;
    bus.regs[0x04] = 0xfff8;
    bus.regs[0x05] = 0x7ff8;
    bus.regs[0x06] = 0x8000;
    let mut dev = INA3221::new(bus, AddressPin::Gnd);
    assert_eq!(dev.shunt_voltage_uv(Channel::Ch1).unwrap(), 40);
    assert_eq!(dev.bus_voltage_mv(Channel::Ch1).unwrap(), 8);
    assert_eq!(dev.shunt_voltage_uv(Channel::Ch2).unwrap(), -40);
    assert_eq!(dev.bus_voltage_mv(Channel::Ch2).unwrap(), -8);
    assert_eq!(dev.shunt_voltage_uv(Channel::Ch3).unwrap(), 4095 * 40);
    assert_eq!(dev.bus_voltage_mv(Channel::Ch3).unwrap(), -4096 * 8);
}

#[test]
fn bus_error_on_read_is_passed_through() {
    let mut bus = StubBus::new();
    bus.fail_after = Some(0);
    let mut dev = INA3221::new(bus, AddressPin::Gnd);
    assert!(matches!(dev.manufacturer_id(), Err(Error::I2C("nack"))));
    assert!(matches!(dev.set_mode(Mode::PowerDown), Err(Error::I2C("nack"))));
    let bus = dev.release();
    assert_eq!(bus.ops.len(), 2);
}

#[test]
fn failed_pointer_write_stops_the_write() {
    let mut bus = StubBus::new();
    bus.fail_after = Some(0);
    let mut dev = INA3221::new(bus, AddressPin::Gnd);
    assert!(matches!(dev.reset(), Err(Error::I2C("nack"))));
    let bus = dev.release();
    assert_eq!(bus.ops, vec![Op::Write(0x40, vec![0x00])]);
    assert_eq!(bus.regs[0], 0x0127);
}

#[test]
fn failed_payload_write_is_reported() {
    let mut bus = StubBus::new();
    bus.fail_after = Some(2);
    let mut dev = INA3221::new(bus, AddressPin::Gnd);
    assert!(matches!(dev.set_mode(Mode::PowerDown), Err(Error::I2C("nack"))));
    let bus = dev.release();
    assert_eq!(bus.ops.len(), 3);
}
