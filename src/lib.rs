//! Driver for the INA3221 three-channel shunt and bus voltage monitor.
//!
//! The driver talks to the device through any [`I2cBus`]. Every register access is a fresh bus
//! transaction; nothing is cached. The contracts of the driver's methods say which calls each one
//! makes on the bus, with which bytes, and how the bus's answers decide the result.
use vstd::prelude::*;

pub mod registers;

use crate::registers::{
    bytes_of, voltage_of, word_of, Address, Averages, Ch1BusVoltage, Ch1ShuntVoltage,
    Ch2BusVoltage, Ch2ShuntVoltage, Ch3BusVoltage, Ch3ShuntVoltage, ConfigUpdate, Configuration,
    ConversionTime, DieId, ManufacturerId, Mode, PackingError, Register,
};

verus! {

/// One call made on an [`I2cBus`]: the device addressed, the bytes written, the bytes read back
/// (none for a plain write, two for a write-read) and what the call returned.
pub struct Transfer<E> {
    pub address: u8,
    pub written: Seq<u8>,
    pub read: Seq<u8>,
    pub result: Result<(), E>,
}

/// A blocking two-wire bus. An implementation models its history as the sequence of calls made
/// on it; each call appends itself, whether it succeeded or not.
pub trait I2cBus {
    type Error;

    /// The calls made on this bus so far, oldest first. An implementation checked by Verus gives
    /// its own model; the default names no particular history, and the contracts below are what
    /// every implementation must keep.
    closed spec fn transfers(&self) -> Seq<Transfer<Self::Error>> {
        arbitrary()
    }

    /// Writes `bytes` to the device at 7-bit address `address`.
    fn write(&mut self, address: u8, bytes: &[u8]) -> (r: Result<(), Self::Error>)
        ensures
            final(self).transfers() == old(self).transfers().push(
                (Transfer { address, written: bytes@, read: Seq::empty(), result: r }),
            ),
    ;

    /// Writes `bytes` to the device at `address`, then reads two bytes from it into `buffer`.
    fn write_read(&mut self, address: u8, bytes: &[u8], buffer: &mut [u8; 2]) -> (r: Result<
        (),
        Self::Error,
    >)
        ensures
            final(self).transfers() == old(self).transfers().push(
                (Transfer { address, written: bytes@, read: final(buffer)@, result: r }),
            ),
    ;
}

#[derive(Debug)]
pub enum Error<E> {
    /// The bus reported an error.
    I2C(E),
    /// The bytes read from a register hold no value of its type.
    RegisterUnpacking(PackingError),
    /// The value to write does not fit the register's layout.
    RegisterPacking(PackingError),
}

/// Where the A0 pin is tied; it selects the device's bus address.
#[derive(Debug, Clone, Copy, PartialEq, Eq, Structural)]
pub enum AddressPin {
    Gnd,
    Vs,
    Sda,
    Scl,
}

impl AddressPin {
    pub open spec fn spec_addr(self) -> u8 {
        match self {
            AddressPin::Gnd => 0b1000000,
            AddressPin::Vs => 0b1000001,
            AddressPin::Sda => 0b1000010,
            AddressPin::Scl => 0b1000011,
        }
    }

    /// The 7-bit bus address selected by this pin.
    pub fn addr(&self) -> (r: u8)
        ensures
            r == self.spec_addr(),
    {
        match self {
            AddressPin::Gnd => 0b1000000,
            AddressPin::Vs => 0b1000001,
            AddressPin::Sda => 0b1000010,
            AddressPin::Scl => 0b1000011,
        }
    }
}

/// The three measurement channels of the INA3221
#[derive(Debug, Clone, Copy, PartialEq, Eq, Structural)]
pub enum Channel {
    Ch1,
    Ch2,
    Ch3,
}

/// `x` is a plain write of `bytes` to `device`.
pub open spec fn is_write<E>(x: Transfer<E>, device: u8, bytes: Seq<u8>) -> bool {
    x.address == device && x.written == bytes && x.read.len() == 0
}

/// `x` is a write-read to `device` that first wrote `bytes`.
pub open spec fn is_write_read<E>(x: Transfer<E>, device: u8, bytes: Seq<u8>) -> bool {
    x.address == device && x.written == bytes && x.read.len() == 2
}

/// `r` succeeds exactly when the last call on the bus succeeded, and otherwise is that call's
/// error, unchanged.
pub open spec fn outcome<E, T>(r: Result<T, Error<E>>, after: Seq<Transfer<E>>) -> bool {
    &&& (r is Ok <==> after.last().result is Ok)
    &&& (r is Err ==> r->Err_0 == Error::I2C(after.last().result->Err_0))
}

/// `after` is `before` and then one write-read to `device` that reads register `register`.
pub open spec fn register_read<E>(before: Seq<Transfer<E>>, after: Seq<Transfer<E>>, device: u8, register: u8) -> bool {
    &&& after.len() == before.len() + 1
    &&& after.subrange(0, before.len() as int) == before
    &&& is_write_read(after.last(), device, seq![register])
}

/// `after` is `before` and then the calls that write `word` to register `register` of `device`:
/// the pointer write and, only if that succeeded, the write of the two payload bytes.
pub open spec fn register_written<E>(
    before: Seq<Transfer<E>>,
    after: Seq<Transfer<E>>,
    device: u8,
    register: u8,
    word: u16,
) -> bool {
    let n = before.len() as int;
    &&& after.len() > n
    &&& after.subrange(0, n) == before
    &&& is_write(after[n], device, seq![register])
    &&& after[n].result is Err ==> after.len() == n + 1
    &&& after[n].result is Ok ==> after.len() == n + 2 && is_write(after[n + 1], device, bytes_of(word))
}

/// `after` is `before` and then a read of the Configuration register of `device` and, only if it
/// succeeded, the write of what was read with the change `u` made.
pub open spec fn configuration_modified<E>(
    before: Seq<Transfer<E>>,
    after: Seq<Transfer<E>>,
    device: u8,
    u: ConfigUpdate,
) -> bool {
    let n = before.len() as int;
    &&& after.len() > n
    &&& register_read(before, after.subrange(0, n + 1), device, 0x00)
    &&& after[n].result is Err ==> after.len() == n + 1
    &&& after[n].result is Ok ==> register_written(
        after.subrange(0, n + 1),
        after,
        device,
        0x00,
        Configuration::from_word(word_of(after[n].read)).applied(u).to_word(),
    )
}

/// In a read-modify-write of the Configuration register whose read and pointer write succeeded,
/// the payload sent keeps every bit outside the changed field exactly as it was read, and holds
/// the new value in that field.
pub proof fn lemma_modify_keeps_other_fields<E>(
    before: Seq<Transfer<E>>,
    after: Seq<Transfer<E>>,
    device: u8,
    u: ConfigUpdate,
)
    requires
        configuration_modified(before, after, device, u),
        after[before.len() as int].result is Ok,
        after[before.len() as int + 1].result is Ok,
    ensures
        word_of(after[before.len() as int + 2].written) & !u.mask() == word_of(after[before.len() as int].read)
            & !u.mask(),
        word_of(after[before.len() as int + 2].written) & u.mask() == u.field_bits(),
{
    let n = before.len() as int;
    let w = word_of(after[n].read);
    let prefix = after.subrange(0, n + 1);
    assert(prefix[n] == after[n]);
    assert(after.subrange(0, prefix.len() as int)[n] == after[n]);
    registers::lemma_bytes_round_trip(Configuration::from_word(w).applied(u).to_word());
    registers::lemma_field_isolation(w, u);
}

/// The register that holds the shunt voltage of `channel`.
pub open spec fn shunt_register(channel: Channel) -> u8 {
    match channel {
        Channel::Ch1 => 0x01,
        Channel::Ch2 => 0x03,
        Channel::Ch3 => 0x05,
    }
}

/// The register that holds the bus voltage of `channel`.
pub open spec fn bus_register(channel: Channel) -> u8 {
    match channel {
        Channel::Ch1 => 0x02,
        Channel::Ch2 => 0x04,
        Channel::Ch3 => 0x06,
    }
}

/// The Configuration value written by a reset: the reset flag and every other field at its default.
pub const RESET_WORD: u16 = 0x8127;

pub struct INA3221<I> {
    i2c: I,
    address: u8,
}

impl<I: I2cBus> INA3221<I> {
    /// The bus address of the device this driver talks to.
    pub closed spec fn device_address(&self) -> u8 {
        self.address
    }

    /// The calls made so far on the bus the driver holds.
    pub closed spec fn bus_transfers(&self) -> Seq<Transfer<I::Error>> {
        self.i2c.transfers()
    }

    pub fn new(i2c: I, addr_pin: AddressPin) -> (r: Self)
        ensures
            r.device_address() == addr_pin.spec_addr(),
            r.bus_transfers() == i2c.transfers(),
    {
        INA3221 { i2c, address: addr_pin.addr() }
    }

    /// Gives the bus back.
    pub fn release(self) -> (r: I)
        ensures
            r.transfers() == self.bus_transfers(),
    {
        self.i2c
    }

    /// Reads the two bytes of the register at pointer `addr`.
    pub fn read(&mut self, addr: u8) -> (r: Result<[u8; 2], Error<I::Error>>)
        ensures
            final(self).device_address() == old(self).device_address(),
            register_read(old(self).bus_transfers(), final(self).bus_transfers(), old(self).device_address(), addr),
            outcome(r, final(self).bus_transfers()),
            r is Ok ==> r->Ok_0@ == final(self).bus_transfers().last().read,
    {
        let mut buf = [0u8; 2];
        let pointer = [addr];
        assert(pointer@ =~= seq![addr]);
        let res = self.i2c.write_read(self.address, &pointer, &mut buf);
        proof {
            assert(self.i2c.transfers().subrange(0, old(self).bus_transfers().len() as int) =~= old(self).bus_transfers());
        }
        match res {
            Ok(()) => Ok(buf),
            Err(e) => Err(Error::I2C(e)),
        }
    }

    /// Sets the register pointer to `addr`, then writes the two bytes of `payload`. A failed
    /// pointer write ends the call before the payload is sent.
    pub fn write(&mut self, addr: u8, payload: &[u8; 2]) -> (r: Result<(), Error<I::Error>>)
        ensures
            final(self).device_address() == old(self).device_address(),
            register_written(
                old(self).bus_transfers(),
                final(self).bus_transfers(),
                old(self).device_address(),
                addr,
                word_of(payload@),
            ),
            outcome(r, final(self).bus_transfers()),
    {
        let ghost before = self.bus_transfers();
        proof {
            registers::lemma_word_bytes(payload@);
        }
        let pointer = [addr];
        assert(pointer@ =~= seq![addr]);
        match self.i2c.write(self.address, &pointer) {
            Ok(()) => {},
            Err(e) => {
                proof {
                    assert(self.bus_transfers().subrange(0, before.len() as int) =~= before);
                }
                return Err(Error::I2C(e));
            },
        }
        let ghost mid = self.bus_transfers();
        let res = self.i2c.write(self.address, payload);
        proof {
            assert(self.bus_transfers().subrange(0, before.len() as int) =~= before);
            assert(self.bus_transfers()[before.len() as int] == mid[before.len() as int]);
        }
        match res {
            Ok(()) => Ok(()),
            Err(e) => Err(Error::I2C(e)),
        }
    }

    /// Reads the register `T` and unpacks it.
    pub fn read_reg<T: Register>(&mut self) -> (r: Result<T, Error<I::Error>>)
        ensures
            final(self).device_address() == old(self).device_address(),
            register_read(old(self).bus_transfers(), final(self).bus_transfers(), old(self).device_address(), T::spec_addr()),
            outcome(r, final(self).bus_transfers()),
            r is Ok ==> r->Ok_0 == T::from_word(word_of(final(self).bus_transfers().last().read)),
    {
        let bytes = self.read(T::addr())?;
        match T::unpack(&bytes) {
            Ok(v) => Ok(v),
            Err(e) => Err(Error::RegisterUnpacking(e)),
        }
    }

    /// Packs `reg` and writes it to register `T`. A value that does not fit the layout is
    /// refused before anything is sent.
    pub fn write_reg<T: Register>(&mut self, reg: T) -> (r: Result<(), Error<I::Error>>)
        ensures
            final(self).device_address() == old(self).device_address(),
            reg.representable() ==> register_written(
                old(self).bus_transfers(),
                final(self).bus_transfers(),
                old(self).device_address(),
                T::spec_addr(),
                reg.to_word(),
            ) && outcome(r, final(self).bus_transfers()),
            !reg.representable() ==> final(self).bus_transfers() == old(self).bus_transfers() && r
                == Err::<(), Error<I::Error>>(Error::RegisterPacking(PackingError::OutOfRange)),
    {
        let bytes = match reg.pack() {
            Ok(b) => b,
            Err(e) => {
                return Err(Error::RegisterPacking(e));
            },
        };
        proof {
            registers::lemma_bytes_round_trip(reg.to_word());
        }
        self.write(T::addr(), &bytes)
    }

    /// Reads the Configuration register, changes one field and writes the result back; returns
    /// the value written. The other fields keep the bits that were read. The driver never sets the
    /// reserved mode code itself; it only keeps it where it was read.
    pub fn modify_configuration(&mut self, u: ConfigUpdate) -> (r: Result<
        Configuration,
        Error<I::Error>,
    >)
        requires
            u != ConfigUpdate::OperatingMode(Mode::Reserved),
        ensures
            final(self).device_address() == old(self).device_address(),
            configuration_modified(old(self).bus_transfers(), final(self).bus_transfers(), old(self).device_address(), u),
            outcome(r, final(self).bus_transfers()),
            r is Ok ==> r->Ok_0 == Configuration::from_word(
                word_of(final(self).bus_transfers()[old(self).bus_transfers().len() as int].read),
            ).applied(u),
    {
        let ghost before = self.bus_transfers();
        let config: Configuration = match self.read_reg() {
            Ok(c) => c,
            Err(e) => {
                proof {
                    assert(self.bus_transfers().subrange(0, before.len() as int + 1) =~= self.bus_transfers());
                }
                return Err(e);
            },
        };
        let ghost mid = self.bus_transfers();
        proof {
            assert(mid.subrange(0, before.len() as int + 1) =~= mid);
        }
        let updated = config.apply(u);
        let res = self.write_reg(updated);
        proof {
            let n = before.len() as int;
            let after = self.bus_transfers();
            assert(after.subrange(0, n + 1) =~= mid);
            assert(after[n] == mid[n]);
        }
        match res {
            Ok(()) => Ok(updated),
            Err(e) => Err(e),
        }
    }

    /// Generates a system reset that is the same as the power-on reset: writes the Configuration
    /// register with the reset flag set and every other field at its default.
    pub fn reset(&mut self) -> (r: Result<(), Error<I::Error>>)
        ensures
            final(self).device_address() == old(self).device_address(),
            register_written(old(self).bus_transfers(), final(self).bus_transfers(), old(self).device_address(), 0x00, RESET_WORD),
            outcome(r, final(self).bus_transfers()),
    {
        let payload = Configuration { rst: true, ..Configuration::default() };
        proof {
            assert((1u16 << 15u16) | (0u16 << 14u16) | (0u16 << 13u16) | (0u16 << 12u16) | (0u16 << 9u16)
                | (4u16 << 6u16) | (4u16 << 3u16) | 7u16 == 0x8127u16) by (bit_vector);
        }
        self.write_reg(payload)
    }

    /// Sets the enable bit of `channel`; the other fields are kept.
    pub fn enable_channel(&mut self, channel: Channel, enabled: bool) -> (r: Result<(), Error<I::Error>>)
        ensures
            final(self).device_address() == old(self).device_address(),
            configuration_modified(
                old(self).bus_transfers(),
                final(self).bus_transfers(),
                old(self).device_address(),
                ConfigUpdate::EnableChannel(channel, enabled),
            ),
            outcome(r, final(self).bus_transfers()),
    {
        self.modify_configuration(ConfigUpdate::EnableChannel(channel, enabled))?;
        Ok(())
    }

    /// Gets the current bus-voltage conversion time.
    pub fn get_bus_ct(&mut self) -> (r: Result<ConversionTime, Error<I::Error>>)
        ensures
            final(self).device_address() == old(self).device_address(),
            register_read(old(self).bus_transfers(), final(self).bus_transfers(), old(self).device_address(), 0x00),
            outcome(r, final(self).bus_transfers()),
            r is Ok ==> r->Ok_0 == Configuration::from_word(word_of(final(self).bus_transfers().last().read)).vbus_ct,
    {
        let config: Configuration = self.read_reg()?;
        Ok(config.vbus_ct)
    }

    /// Gets the current shunt-voltage conversion time.
    pub fn get_shunt_ct(&mut self) -> (r: Result<ConversionTime, Error<I::Error>>)
        ensures
            final(self).device_address() == old(self).device_address(),
            register_read(old(self).bus_transfers(), final(self).bus_transfers(), old(self).device_address(), 0x00),
            outcome(r, final(self).bus_transfers()),
            r is Ok ==> r->Ok_0 == Configuration::from_word(word_of(final(self).bus_transfers().last().read)).vsh_ct,
    {
        let config: Configuration = self.read_reg()?;
        Ok(config.vsh_ct)
    }

    /// Sets the bus-voltage conversion time; the other fields are kept.
    pub fn set_bus_ct(&mut self, ct: ConversionTime) -> (r: Result<(), Error<I::Error>>)
        ensures
            final(self).device_address() == old(self).device_address(),
            configuration_modified(
                old(self).bus_transfers(),
                final(self).bus_transfers(),
                old(self).device_address(),
                ConfigUpdate::BusConversionTime(ct),
            ),
            outcome(r, final(self).bus_transfers()),
    {
        self.modify_configuration(ConfigUpdate::BusConversionTime(ct))?;
        Ok(())
    }

    /// Sets the shunt-voltage conversion time; the other fields are kept.
    pub fn set_shunt_ct(&mut self, ct: ConversionTime) -> (r: Result<(), Error<I::Error>>)
        ensures
            final(self).device_address() == old(self).device_address(),
            configuration_modified(
                old(self).bus_transfers(),
                final(self).bus_transfers(),
                old(self).device_address(),
                ConfigUpdate::ShuntConversionTime(ct),
            ),
            outcome(r, final(self).bus_transfers()),
    {
        self.modify_configuration(ConfigUpdate::ShuntConversionTime(ct))?;
        Ok(())
    }

    /// Gets the current averaging mode.
    pub fn get_averages(&mut self) -> (r: Result<Averages, Error<I::Error>>)
        ensures
            final(self).device_address() == old(self).device_address(),
            register_read(old(self).bus_transfers(), final(self).bus_transfers(), old(self).device_address(), 0x00),
            outcome(r, final(self).bus_transfers()),
            r is Ok ==> r->Ok_0 == Configuration::from_word(word_of(final(self).bus_transfers().last().read)).avg,
    {
        let config: Configuration = self.read_reg()?;
        Ok(config.avg)
    }

    /// Sets the averaging mode; the other fields are kept.
    pub fn set_averages(&mut self, avg: Averages) -> (r: Result<(), Error<I::Error>>)
        ensures
            final(self).device_address() == old(self).device_address(),
            configuration_modified(
                old(self).bus_transfers(),
                final(self).bus_transfers(),
                old(self).device_address(),
                ConfigUpdate::Averaging(avg),
            ),
            outcome(r, final(self).bus_transfers()),
    {
        self.modify_configuration(ConfigUpdate::Averaging(avg))?;
        Ok(())
    }

    /// Gets the current operating mode.
    pub fn get_mode(&mut self) -> (r: Result<Mode, Error<I::Error>>)
        ensures
            final(self).device_address() == old(self).device_address(),
            register_read(old(self).bus_transfers(), final(self).bus_transfers(), old(self).device_address(), 0x00),
            outcome(r, final(self).bus_transfers()),
            r is Ok ==> r->Ok_0 == Configuration::from_word(word_of(final(self).bus_transfers().last().read)).mode,
    {
        let config: Configuration = self.read_reg()?;
        Ok(config.mode)
    }

    /// Sets the operating mode; the other fields are kept. The reserved code is never written.
    pub fn set_mode(&mut self, mode: Mode) -> (r: Result<(), Error<I::Error>>)
        requires
            mode != Mode::Reserved,
        ensures
            final(self).device_address() == old(self).device_address(),
            configuration_modified(
                old(self).bus_transfers(),
                final(self).bus_transfers(),
                old(self).device_address(),
                ConfigUpdate::OperatingMode(mode),
            ),
            outcome(r, final(self).bus_transfers()),
    {
        self.modify_configuration(ConfigUpdate::OperatingMode(mode))?;
        Ok(())
    }

    /// Gets the shunt voltage of `channel`, in microvolts (one register unit is 40 uV).
    pub fn shunt_voltage_uv(&mut self, channel: Channel) -> (r: Result<i32, Error<I::Error>>)
        ensures
            final(self).device_address() == old(self).device_address(),
            register_read(
                old(self).bus_transfers(),
                final(self).bus_transfers(),
                old(self).device_address(),
                shunt_register(channel),
            ),
            outcome(r, final(self).bus_transfers()),
            r is Ok ==> r->Ok_0 == voltage_of(word_of(final(self).bus_transfers().last().read)) * 40,
    {
        proof {
            registers::lemma_voltage_range();
        }
        let raw: i16 = match channel {
            Channel::Ch1 => self.read_reg::<Ch1ShuntVoltage>()?.voltage,
            Channel::Ch2 => self.read_reg::<Ch2ShuntVoltage>()?.voltage,
            Channel::Ch3 => self.read_reg::<Ch3ShuntVoltage>()?.voltage,
        };
        Ok(raw as i32 * 40)
    }

    /// Gets the bus voltage of `channel`, in millivolts (one register unit is 8 mV).
    pub fn bus_voltage_mv(&mut self, channel: Channel) -> (r: Result<i32, Error<I::Error>>)
        ensures
            final(self).device_address() == old(self).device_address(),
            register_read(
                old(self).bus_transfers(),
                final(self).bus_transfers(),
                old(self).device_address(),
                bus_register(channel),
            ),
            outcome(r, final(self).bus_transfers()),
            r is Ok ==> r->Ok_0 == voltage_of(word_of(final(self).bus_transfers().last().read)) * 8,
    {
        proof {
            registers::lemma_voltage_range();
        }
        let raw: i16 = match channel {
            Channel::Ch1 => self.read_reg::<Ch1BusVoltage>()?.voltage,
            Channel::Ch2 => self.read_reg::<Ch2BusVoltage>()?.voltage,
            Channel::Ch3 => self.read_reg::<Ch3BusVoltage>()?.voltage,
        };
        Ok(raw as i32 * 8)
    }

    /// Gets the manufacturer id. This should equal 0x5449.
    pub fn manufacturer_id(&mut self) -> (r: Result<u16, Error<I::Error>>)
        ensures
            final(self).device_address() == old(self).device_address(),
            register_read(old(self).bus_transfers(), final(self).bus_transfers(), old(self).device_address(), 0xFE),
            outcome(r, final(self).bus_transfers()),
            r is Ok ==> r->Ok_0 == word_of(final(self).bus_transfers().last().read),
    {
        let reg: ManufacturerId = self.read_reg()?;
        Ok(reg.id)
    }

    /// Gets the die id. This should equal 0x3220.
    pub fn die_id(&mut self) -> (r: Result<u16, Error<I::Error>>)
        ensures
            final(self).device_address() == old(self).device_address(),
            register_read(old(self).bus_transfers(), final(self).bus_transfers(), old(self).device_address(), 0xFF),
            outcome(r, final(self).bus_transfers()),
            r is Ok ==> r->Ok_0 == word_of(final(self).bus_transfers().last().read),
    {
        let reg: DieId = self.read_reg()?;
        Ok(reg.id)
    }
}

} // verus!
