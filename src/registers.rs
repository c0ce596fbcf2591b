//! The register layout of the INA3221: addresses and the bit packing of each register.
use vstd::prelude::*;

use crate::Channel;

verus! {

/// Why a register value could not be packed into, or unpacked from, its bytes.
#[derive(Debug, Clone, Copy, PartialEq, Eq, Structural)]
pub enum PackingError {
    /// A field's bits hold a code that names no variant.
    InvalidValue,
    /// A numeric field does not fit in its bits.
    OutOfRange,
}

/// The 16-bit register value carried by two bytes, most significant byte first.
pub open spec fn word_of(b: Seq<u8>) -> u16 {
    ((b[0] as u16) << 8u16) | (b[1] as u16)
}

/// The two bytes that carry a 16-bit register value, most significant byte first.
pub open spec fn bytes_of(w: u16) -> Seq<u8> {
    seq![(w >> 8u16) as u8, (w & 0xffu16) as u8]
}

pub proof fn lemma_bytes_round_trip(w: u16)
    ensures
        word_of(bytes_of(w)) == w,
{
    let hi = (w >> 8u16) as u8;
    let lo = (w & 0xffu16) as u8;
    assert(((hi as u16) << 8u16) | (lo as u16) == w) by (bit_vector)
        requires
            hi == (w >> 8u16) as u8,
            lo == (w & 0xffu16) as u8,
    ;
}

/// Two bytes are the bytes of the value they carry.
pub proof fn lemma_word_bytes(b: Seq<u8>)
    requires
        b.len() == 2,
    ensures
        bytes_of(word_of(b)) == b,
{
    let (b0, b1) = (b[0], b[1]);
    let w = ((b0 as u16) << 8u16) | (b1 as u16);
    assert((w >> 8u16) as u8 == b0 && (w & 0xffu16) as u8 == b1) by (bit_vector)
        requires
            w == ((b0 as u16) << 8u16) | (b1 as u16),
    ;
    assert(bytes_of(word_of(b)) =~= b);
}

pub fn to_bytes(w: u16) -> (r: [u8; 2])
    ensures
        r@ == bytes_of(w),
{
    let r = [(w >> 8u16) as u8, (w & 0xffu16) as u8];
    assert(r@ =~= bytes_of(w));
    r
}

pub fn from_bytes(b: &[u8; 2]) -> (r: u16)
    ensures
        r == word_of(b@),
{
    ((b[0] as u16) << 8u16) | (b[1] as u16)
}

/// Averaging mode. This sets the number of samples that are collected and averaged.
#[derive(Debug, Clone, Copy, PartialEq, Eq, Structural)]
pub enum Averages {
    _1,
    _4,
    _16,
    _64,
    _128,
    _256,
    _512,
    _1024,
}

impl Averages {
    /// The 3-bit code of this setting.
    pub open spec fn code(self) -> u16 {
        match self {
            Averages::_1 => 0,
            Averages::_4 => 1,
            Averages::_16 => 2,
            Averages::_64 => 3,
            Averages::_128 => 4,
            Averages::_256 => 5,
            Averages::_512 => 6,
            Averages::_1024 => 7,
        }
    }

    /// The setting whose code is the low three bits of `c`.
    pub open spec fn of_code(c: u16) -> Averages {
        let c = c & 7;
        if c == 0 { Averages::_1 }
        else if c == 1 { Averages::_4 }
        else if c == 2 { Averages::_16 }
        else if c == 3 { Averages::_64 }
        else if c == 4 { Averages::_128 }
        else if c == 5 { Averages::_256 }
        else if c == 6 { Averages::_512 }
        else { Averages::_1024 }
    }

    pub fn to_primitive(self) -> (r: u8)
        ensures
            r as u16 == self.code(),
    {
        match self {
            Averages::_1 => 0,
            Averages::_4 => 1,
            Averages::_16 => 2,
            Averages::_64 => 3,
            Averages::_128 => 4,
            Averages::_256 => 5,
            Averages::_512 => 6,
            Averages::_1024 => 7,
        }
    }

    /// The setting with code `c`, if there is one.
    pub fn from_primitive(c: u8) -> (r: Option<Averages>)
        ensures
            r == (if c < 8 { Some(Averages::of_code(c as u16)) } else { None::<Averages> }),
    {
        assert((c as u16) < 8 ==> (c as u16) & 7 == c as u16) by (bit_vector);
        match c {
            0 => Some(Averages::_1),
            1 => Some(Averages::_4),
            2 => Some(Averages::_16),
            3 => Some(Averages::_64),
            4 => Some(Averages::_128),
            5 => Some(Averages::_256),
            6 => Some(Averages::_512),
            7 => Some(Averages::_1024),
            _ => None,
        }
    }

    pub proof fn lemma_code(self)
        ensures
            self.code() < 8,
            Averages::of_code(self.code()) == self,
    {
        let c = self.code();
        assert(c < 8 ==> c & 7 == c) by (bit_vector);
    }

    pub proof fn lemma_of_code(c: u16)
        ensures
            Averages::of_code(c).code() == c & 7,
    {
        assert(c & 7 < 8) by (bit_vector);
    }

    pub proof fn lemma_of_code_low_bits(x: u16, y: u16)
        requires
            x & 7 == y & 7,
        ensures
            Averages::of_code(x) == Averages::of_code(y),
    {
    }
}

impl Default for Averages {
    fn default() -> (r: Self)
        ensures
            r == Averages::_1,
    {
        Averages::_1
    }
}

/// Conversion time in ms.
#[derive(Debug, Clone, Copy, PartialEq, Eq, Structural)]
pub enum ConversionTime {
    _0_140,
    _0_204,
    _0_332,
    _0_588,
    _1_1,
    _2_116,
    _4_1566,
    _8_244,
}

impl ConversionTime {
    /// The 3-bit code of this setting.
    pub open spec fn code(self) -> u16 {
        match self {
            ConversionTime::_0_140 => 0,
            ConversionTime::_0_204 => 1,
            ConversionTime::_0_332 => 2,
            ConversionTime::_0_588 => 3,
            ConversionTime::_1_1 => 4,
            ConversionTime::_2_116 => 5,
            ConversionTime::_4_1566 => 6,
            ConversionTime::_8_244 => 7,
        }
    }

    /// The setting whose code is the low three bits of `c`.
    pub open spec fn of_code(c: u16) -> ConversionTime {
        let c = c & 7;
        if c == 0 { ConversionTime::_0_140 }
        else if c == 1 { ConversionTime::_0_204 }
        else if c == 2 { ConversionTime::_0_332 }
        else if c == 3 { ConversionTime::_0_588 }
        else if c == 4 { ConversionTime::_1_1 }
        else if c == 5 { ConversionTime::_2_116 }
        else if c == 6 { ConversionTime::_4_1566 }
        else { ConversionTime::_8_244 }
    }

    pub fn to_primitive(self) -> (r: u8)
        ensures
            r as u16 == self.code(),
    {
        match self {
            ConversionTime::_0_140 => 0,
            ConversionTime::_0_204 => 1,
            ConversionTime::_0_332 => 2,
            ConversionTime::_0_588 => 3,
            ConversionTime::_1_1 => 4,
            ConversionTime::_2_116 => 5,
            ConversionTime::_4_1566 => 6,
            ConversionTime::_8_244 => 7,
        }
    }

    /// The setting with code `c`, if there is one.
    pub fn from_primitive(c: u8) -> (r: Option<ConversionTime>)
        ensures
            r == (if c < 8 { Some(ConversionTime::of_code(c as u16)) } else { None::<ConversionTime> }),
    {
        assert((c as u16) < 8 ==> (c as u16) & 7 == c as u16) by (bit_vector);
        match c {
            0 => Some(ConversionTime::_0_140),
            1 => Some(ConversionTime::_0_204),
            2 => Some(ConversionTime::_0_332),
            3 => Some(ConversionTime::_0_588),
            4 => Some(ConversionTime::_1_1),
            5 => Some(ConversionTime::_2_116),
            6 => Some(ConversionTime::_4_1566),
            7 => Some(ConversionTime::_8_244),
            _ => None,
        }
    }

    pub proof fn lemma_code(self)
        ensures
            self.code() < 8,
            ConversionTime::of_code(self.code()) == self,
    {
        let c = self.code();
        assert(c < 8 ==> c & 7 == c) by (bit_vector);
    }

    pub proof fn lemma_of_code(c: u16)
        ensures
            ConversionTime::of_code(c).code() == c & 7,
    {
        assert(c & 7 < 8) by (bit_vector);
    }

    pub proof fn lemma_of_code_low_bits(x: u16, y: u16)
        requires
            x & 7 == y & 7,
        ensures
            ConversionTime::of_code(x) == ConversionTime::of_code(y),
    {
    }
}

impl Default for ConversionTime {
    fn default() -> (r: Self)
        ensures
            r == ConversionTime::_1_1,
    {
        ConversionTime::_1_1
    }
}

/// Operating mode. Code 4 is reserved by the device; it is read back as `Reserved`.
#[derive(Debug, Clone, Copy, PartialEq, Eq, Structural)]
pub enum Mode {
    PowerDown,
    ShuntVoltSS,
    BusVoltSS,
    ShuntBusSS,
    Reserved,
    ShuntVoltCont,
    BusVoltCont,
    ShutBusCont,
}

impl Mode {
    /// The 3-bit code of this setting.
    pub open spec fn code(self) -> u16 {
        match self {
            Mode::PowerDown => 0,
            Mode::ShuntVoltSS => 1,
            Mode::BusVoltSS => 2,
            Mode::ShuntBusSS => 3,
            Mode::Reserved => 4,
            Mode::ShuntVoltCont => 5,
            Mode::BusVoltCont => 6,
            Mode::ShutBusCont => 7,
        }
    }

    /// The setting whose code is the low three bits of `c`.
    pub open spec fn of_code(c: u16) -> Mode {
        let c = c & 7;
        if c == 0 { Mode::PowerDown }
        else if c == 1 { Mode::ShuntVoltSS }
        else if c == 2 { Mode::BusVoltSS }
        else if c == 3 { Mode::ShuntBusSS }
        else if c == 4 { Mode::Reserved }
        else if c == 5 { Mode::ShuntVoltCont }
        else if c == 6 { Mode::BusVoltCont }
        else { Mode::ShutBusCont }
    }

    pub fn to_primitive(self) -> (r: u8)
        ensures
            r as u16 == self.code(),
    {
        match self {
            Mode::PowerDown => 0,
            Mode::ShuntVoltSS => 1,
            Mode::BusVoltSS => 2,
            Mode::ShuntBusSS => 3,
            Mode::Reserved => 4,
            Mode::ShuntVoltCont => 5,
            Mode::BusVoltCont => 6,
            Mode::ShutBusCont => 7,
        }
    }

    /// The setting with code `c`, if there is one.
    pub fn from_primitive(c: u8) -> (r: Option<Mode>)
        ensures
            r == (if c < 8 { Some(Mode::of_code(c as u16)) } else { None::<Mode> }),
    {
        assert((c as u16) < 8 ==> (c as u16) & 7 == c as u16) by (bit_vector);
        match c {
            0 => Some(Mode::PowerDown),
            1 => Some(Mode::ShuntVoltSS),
            2 => Some(Mode::BusVoltSS),
            3 => Some(Mode::ShuntBusSS),
            4 => Some(Mode::Reserved),
            5 => Some(Mode::ShuntVoltCont),
            6 => Some(Mode::BusVoltCont),
            7 => Some(Mode::ShutBusCont),
            _ => None,
        }
    }

    pub proof fn lemma_code(self)
        ensures
            self.code() < 8,
            Mode::of_code(self.code()) == self,
    {
        let c = self.code();
        assert(c < 8 ==> c & 7 == c) by (bit_vector);
    }

    pub proof fn lemma_of_code(c: u16)
        ensures
            Mode::of_code(c).code() == c & 7,
    {
        assert(c & 7 < 8) by (bit_vector);
    }

    pub proof fn lemma_of_code_low_bits(x: u16, y: u16)
        requires
            x & 7 == y & 7,
        ensures
            Mode::of_code(x) == Mode::of_code(y),
    {
    }
}

impl Default for Mode {
    fn default() -> (r: Self)
        ensures
            r == Mode::ShutBusCont,
    {
        Mode::ShutBusCont
    }
}

/// A register at a fixed pointer address.
pub trait Address {
    spec fn spec_addr() -> u8;

    fn addr() -> (r: u8)
        ensures
            r == Self::spec_addr(),
    ;
}

/// A 16-bit register and the packing of its fields.
pub trait Register: Address + Sized {
    /// Every field fits in the bits that the layout gives it.
    spec fn representable(&self) -> bool;

    /// The 16-bit value that carries this register's fields.
    spec fn to_word(&self) -> u16;

    /// The register that a 16-bit value read from the device holds.
    spec fn from_word(w: u16) -> Self;

    fn pack(&self) -> (r: Result<[u8; 2], PackingError>)
        ensures
            r is Ok <==> self.representable(),
            r is Ok ==> r->Ok_0@ == bytes_of(self.to_word()),
            r is Err ==> r->Err_0 == PackingError::OutOfRange,
    ;

    fn unpack(bytes: &[u8; 2]) -> (r: Result<Self, PackingError>)
        ensures
            r == Ok::<Self, PackingError>(Self::from_word(word_of(bytes@))),
    ;

    /// Unpacking what was packed gives the value back.
    proof fn lemma_round_trip(v: Self)
        requires
            v.representable(),
        ensures
            Self::from_word(v.to_word()) == v,
    ;
}

pub open spec fn bit(b: bool) -> u16 {
    if b {
        1
    } else {
        0
    }
}

/// The Configuration layout: flags at bits 15, 14, 13, 12 and 3-bit codes at 9, 6, 3 and 0.
pub open spec fn pack_fields(r: u16, a: u16, b: u16, c: u16, d: u16, e: u16, f: u16, g: u16) -> u16 {
    (r << 15u16) | (a << 14u16) | (b << 13u16) | (c << 12u16) | (d << 9u16) | (e << 6u16) | (f << 3u16) | g
}

proof fn lemma_pack_fields(r: u16, a: u16, b: u16, c: u16, d: u16, e: u16, f: u16, g: u16)
    requires
        r < 2, a < 2, b < 2, c < 2, d < 8, e < 8, f < 8, g < 8,
    ensures
        (pack_fields(r, a, b, c, d, e, f, g) >> 15u16) & 1 == r,
        (pack_fields(r, a, b, c, d, e, f, g) >> 14u16) & 1 == a,
        (pack_fields(r, a, b, c, d, e, f, g) >> 13u16) & 1 == b,
        (pack_fields(r, a, b, c, d, e, f, g) >> 12u16) & 1 == c,
        (pack_fields(r, a, b, c, d, e, f, g) >> 9u16) & 7 == d,
        (pack_fields(r, a, b, c, d, e, f, g) >> 6u16) & 7 == e,
        (pack_fields(r, a, b, c, d, e, f, g) >> 3u16) & 7 == f,
        pack_fields(r, a, b, c, d, e, f, g) & 7 == g,
{
    assert(
        ((((r << 15u16) | (a << 14u16) | (b << 13u16) | (c << 12u16) | (d << 9u16) | (e << 6u16) | (f << 3u16) | g) >> 15u16) & 1 == r)
        && ((((r << 15u16) | (a << 14u16) | (b << 13u16) | (c << 12u16) | (d << 9u16) | (e << 6u16) | (f << 3u16) | g) >> 14u16) & 1 == a)
        && ((((r << 15u16) | (a << 14u16) | (b << 13u16) | (c << 12u16) | (d << 9u16) | (e << 6u16) | (f << 3u16) | g) >> 13u16) & 1 == b)
        && ((((r << 15u16) | (a << 14u16) | (b << 13u16) | (c << 12u16) | (d << 9u16) | (e << 6u16) | (f << 3u16) | g) >> 12u16) & 1 == c)
        && ((((r << 15u16) | (a << 14u16) | (b << 13u16) | (c << 12u16) | (d << 9u16) | (e << 6u16) | (f << 3u16) | g) >> 9u16) & 7 == d)
        && ((((r << 15u16) | (a << 14u16) | (b << 13u16) | (c << 12u16) | (d << 9u16) | (e << 6u16) | (f << 3u16) | g) >> 6u16) & 7 == e)
        && ((((r << 15u16) | (a << 14u16) | (b << 13u16) | (c << 12u16) | (d << 9u16) | (e << 6u16) | (f << 3u16) | g) >> 3u16) & 7 == f)
        && ((((r << 15u16) | (a << 14u16) | (b << 13u16) | (c << 12u16) | (d << 9u16) | (e << 6u16) | (f << 3u16) | g)) & 7 == g)
    ) by (bit_vector)
        requires
            r < 2, a < 2, b < 2, c < 2, d < 8, e < 8, f < 8, g < 8,
    ;
}

proof fn lemma_unpack_fields(w: u16)
    ensures
        pack_fields(
            (w >> 15u16) & 1,
            (w >> 14u16) & 1,
            (w >> 13u16) & 1,
            (w >> 12u16) & 1,
            (w >> 9u16) & 7,
            (w >> 6u16) & 7,
            (w >> 3u16) & 7,
            w & 7,
        ) == w,
        (w >> 15u16) & 1 < 2,
        (w >> 14u16) & 1 < 2,
        (w >> 13u16) & 1 < 2,
        (w >> 12u16) & 1 < 2,
{
    assert(
        ((((w >> 15u16) & 1) << 15u16) | (((w >> 14u16) & 1) << 14u16) | (((w >> 13u16) & 1) << 13u16)
            | (((w >> 12u16) & 1) << 12u16) | (((w >> 9u16) & 7) << 9u16) | (((w >> 6u16) & 7) << 6u16)
            | (((w >> 3u16) & 7) << 3u16) | (w & 7)) == w
    ) by (bit_vector);
    assert((w >> 15u16) & 1 < 2 && (w >> 14u16) & 1 < 2 && (w >> 13u16) & 1 < 2 && (w >> 12u16) & 1 < 2)
        by (bit_vector);
}

proof fn lemma_pack_replace(
    r: u16, a: u16, b: u16, c: u16, d: u16, e: u16, f: u16, g: u16,
    a2: u16, b2: u16, c2: u16, d2: u16, e2: u16, f2: u16, g2: u16,
)
    requires
        r < 2, a < 2, b < 2, c < 2, d < 8, e < 8, f < 8, g < 8,
        a2 < 2, b2 < 2, c2 < 2, d2 < 8, e2 < 8, f2 < 8, g2 < 8,
    ensures
        pack_fields(r, a2, b, c, d, e, f, g) & !0x4000u16 == pack_fields(r, a, b, c, d, e, f, g) & !0x4000u16,
        pack_fields(r, a2, b, c, d, e, f, g) & 0x4000u16 == a2 << 14u16,
        pack_fields(r, a, b2, c, d, e, f, g) & !0x2000u16 == pack_fields(r, a, b, c, d, e, f, g) & !0x2000u16,
        pack_fields(r, a, b2, c, d, e, f, g) & 0x2000u16 == b2 << 13u16,
        pack_fields(r, a, b, c2, d, e, f, g) & !0x1000u16 == pack_fields(r, a, b, c, d, e, f, g) & !0x1000u16,
        pack_fields(r, a, b, c2, d, e, f, g) & 0x1000u16 == c2 << 12u16,
        pack_fields(r, a, b, c, d2, e, f, g) & !0x0e00u16 == pack_fields(r, a, b, c, d, e, f, g) & !0x0e00u16,
        pack_fields(r, a, b, c, d2, e, f, g) & 0x0e00u16 == d2 << 9u16,
        pack_fields(r, a, b, c, d, e2, f, g) & !0x01c0u16 == pack_fields(r, a, b, c, d, e, f, g) & !0x01c0u16,
        pack_fields(r, a, b, c, d, e2, f, g) & 0x01c0u16 == e2 << 6u16,
        pack_fields(r, a, b, c, d, e, f2, g) & !0x0038u16 == pack_fields(r, a, b, c, d, e, f, g) & !0x0038u16,
        pack_fields(r, a, b, c, d, e, f2, g) & 0x0038u16 == f2 << 3u16,
        pack_fields(r, a, b, c, d, e, f, g2) & !0x0007u16 == pack_fields(r, a, b, c, d, e, f, g) & !0x0007u16,
        pack_fields(r, a, b, c, d, e, f, g2) & 0x0007u16 == g2,
{
    assert(
        (((r << 15u16) | (a2 << 14u16) | (b << 13u16) | (c << 12u16) | (d << 9u16) | (e << 6u16) | (f << 3u16) | g) & !0x4000u16 == ((r << 15u16) | (a << 14u16) | (b << 13u16) | (c << 12u16) | (d << 9u16) | (e << 6u16) | (f << 3u16) | g) & !0x4000u16)
        && (((r << 15u16) | (a2 << 14u16) | (b << 13u16) | (c << 12u16) | (d << 9u16) | (e << 6u16) | (f << 3u16) | g) & 0x4000u16 == a2 << 14u16)
        && (((r << 15u16) | (a << 14u16) | (b2 << 13u16) | (c << 12u16) | (d << 9u16) | (e << 6u16) | (f << 3u16) | g) & !0x2000u16 == ((r << 15u16) | (a << 14u16) | (b << 13u16) | (c << 12u16) | (d << 9u16) | (e << 6u16) | (f << 3u16) | g) & !0x2000u16)
        && (((r << 15u16) | (a << 14u16) | (b2 << 13u16) | (c << 12u16) | (d << 9u16) | (e << 6u16) | (f << 3u16) | g) & 0x2000u16 == b2 << 13u16)
        && (((r << 15u16) | (a << 14u16) | (b << 13u16) | (c2 << 12u16) | (d << 9u16) | (e << 6u16) | (f << 3u16) | g) & !0x1000u16 == ((r << 15u16) | (a << 14u16) | (b << 13u16) | (c << 12u16) | (d << 9u16) | (e << 6u16) | (f << 3u16) | g) & !0x1000u16)
        && (((r << 15u16) | (a << 14u16) | (b << 13u16) | (c2 << 12u16) | (d << 9u16) | (e << 6u16) | (f << 3u16) | g) & 0x1000u16 == c2 << 12u16)
        && (((r << 15u16) | (a << 14u16) | (b << 13u16) | (c << 12u16) | (d2 << 9u16) | (e << 6u16) | (f << 3u16) | g) & !0x0e00u16 == ((r << 15u16) | (a << 14u16) | (b << 13u16) | (c << 12u16) | (d << 9u16) | (e << 6u16) | (f << 3u16) | g) & !0x0e00u16)
        && (((r << 15u16) | (a << 14u16) | (b << 13u16) | (c << 12u16) | (d2 << 9u16) | (e << 6u16) | (f << 3u16) | g) & 0x0e00u16 == d2 << 9u16)
        && (((r << 15u16) | (a << 14u16) | (b << 13u16) | (c << 12u16) | (d << 9u16) | (e2 << 6u16) | (f << 3u16) | g) & !0x01c0u16 == ((r << 15u16) | (a << 14u16) | (b << 13u16) | (c << 12u16) | (d << 9u16) | (e << 6u16) | (f << 3u16) | g) & !0x01c0u16)
        && (((r << 15u16) | (a << 14u16) | (b << 13u16) | (c << 12u16) | (d << 9u16) | (e2 << 6u16) | (f << 3u16) | g) & 0x01c0u16 == e2 << 6u16)
        && (((r << 15u16) | (a << 14u16) | (b << 13u16) | (c << 12u16) | (d << 9u16) | (e << 6u16) | (f2 << 3u16) | g) & !0x0038u16 == ((r << 15u16) | (a << 14u16) | (b << 13u16) | (c << 12u16) | (d << 9u16) | (e << 6u16) | (f << 3u16) | g) & !0x0038u16)
        && (((r << 15u16) | (a << 14u16) | (b << 13u16) | (c << 12u16) | (d << 9u16) | (e << 6u16) | (f2 << 3u16) | g) & 0x0038u16 == f2 << 3u16)
        && (((r << 15u16) | (a << 14u16) | (b << 13u16) | (c << 12u16) | (d << 9u16) | (e << 6u16) | (f << 3u16) | g2) & !0x0007u16 == ((r << 15u16) | (a << 14u16) | (b << 13u16) | (c << 12u16) | (d << 9u16) | (e << 6u16) | (f << 3u16) | g) & !0x0007u16)
        && (((r << 15u16) | (a << 14u16) | (b << 13u16) | (c << 12u16) | (d << 9u16) | (e << 6u16) | (f << 3u16) | g2) & 0x0007u16 == g2)
    ) by (bit_vector)
        requires
            r < 2, a < 2, b < 2, c < 2, d < 8, e < 8, f < 8, g < 8,
            a2 < 2, b2 < 2, c2 < 2, d2 < 8, e2 < 8, f2 < 8, g2 < 8,
    ;
}

/// The Configuration register: reset flag, channel enables, averaging, conversion times and mode.
#[derive(Debug, Clone, Copy, PartialEq, Eq, Structural)]
pub struct Configuration {
    pub rst: bool,
    pub enable_ch1: bool,
    pub enable_ch2: bool,
    pub enable_ch3: bool,
    pub avg: Averages,
    pub vbus_ct: ConversionTime,
    pub vsh_ct: ConversionTime,
    pub mode: Mode,
}

impl Default for Configuration {
    fn default() -> (r: Self)
        ensures
            r == (Configuration {
                rst: false,
                enable_ch1: false,
                enable_ch2: false,
                enable_ch3: false,
                avg: Averages::_1,
                vbus_ct: ConversionTime::_1_1,
                vsh_ct: ConversionTime::_1_1,
                mode: Mode::ShutBusCont,
            }),
    {
        Configuration {
            rst: false,
            enable_ch1: false,
            enable_ch2: false,
            enable_ch3: false,
            avg: Averages::default(),
            vbus_ct: ConversionTime::default(),
            vsh_ct: ConversionTime::default(),
            mode: Mode::default(),
        }
    }
}

impl Address for Configuration {
    open spec fn spec_addr() -> u8 {
        0x00
    }

    fn addr() -> (r: u8) {
        0x00
    }
}

impl Register for Configuration {
    open spec fn representable(&self) -> bool {
        true
    }

    open spec fn to_word(&self) -> u16 {
        pack_fields(
            bit(self.rst),
            bit(self.enable_ch1),
            bit(self.enable_ch2),
            bit(self.enable_ch3),
            self.avg.code(),
            self.vbus_ct.code(),
            self.vsh_ct.code(),
            self.mode.code(),
        )
    }

    open spec fn from_word(w: u16) -> Configuration {
        Configuration {
            rst: (w >> 15u16) & 1 == 1,
            enable_ch1: (w >> 14u16) & 1 == 1,
            enable_ch2: (w >> 13u16) & 1 == 1,
            enable_ch3: (w >> 12u16) & 1 == 1,
            avg: Averages::of_code(w >> 9u16),
            vbus_ct: ConversionTime::of_code(w >> 6u16),
            vsh_ct: ConversionTime::of_code(w >> 3u16),
            mode: Mode::of_code(w),
        }
    }

    fn pack(&self) -> (r: Result<[u8; 2], PackingError>) {
        let r: u16 = if self.rst { 1 } else { 0 };
        let a: u16 = if self.enable_ch1 { 1 } else { 0 };
        let b: u16 = if self.enable_ch2 { 1 } else { 0 };
        let c: u16 = if self.enable_ch3 { 1 } else { 0 };
        let d = self.avg.to_primitive() as u16;
        let e = self.vbus_ct.to_primitive() as u16;
        let f = self.vsh_ct.to_primitive() as u16;
        let g = self.mode.to_primitive() as u16;
        let w = (r << 15u16) | (a << 14u16) | (b << 13u16) | (c << 12u16) | (d << 9u16) | (e << 6u16) | (f << 3u16) | g;
        Ok(to_bytes(w))
    }

    fn unpack(bytes: &[u8; 2]) -> (r: Result<Configuration, PackingError>) {
        let w = from_bytes(bytes);
        proof {
            assert((w >> 9u16) & 7 < 8 && (w >> 6u16) & 7 < 8 && (w >> 3u16) & 7 < 8 && w & 7 < 8) by (bit_vector);
            assert(((w >> 9u16) & 7) & 7 == (w >> 9u16) & 7 && ((w >> 6u16) & 7) & 7 == (w >> 6u16) & 7
                && ((w >> 3u16) & 7) & 7 == (w >> 3u16) & 7 && (w & 7) & 7 == w & 7) by (bit_vector);
        }
        let avg = match Averages::from_primitive(((w >> 9u16) & 7) as u8) {
            Some(v) => v,
            None => { return Err(PackingError::InvalidValue); },
        };
        let vbus_ct = match ConversionTime::from_primitive(((w >> 6u16) & 7) as u8) {
            Some(v) => v,
            None => { return Err(PackingError::InvalidValue); },
        };
        let vsh_ct = match ConversionTime::from_primitive(((w >> 3u16) & 7) as u8) {
            Some(v) => v,
            None => { return Err(PackingError::InvalidValue); },
        };
        let mode = match Mode::from_primitive((w & 7) as u8) {
            Some(v) => v,
            None => { return Err(PackingError::InvalidValue); },
        };
        Ok(Configuration {
            rst: (w >> 15u16) & 1 == 1,
            enable_ch1: (w >> 14u16) & 1 == 1,
            enable_ch2: (w >> 13u16) & 1 == 1,
            enable_ch3: (w >> 12u16) & 1 == 1,
            avg,
            vbus_ct,
            vsh_ct,
            mode,
        })
    }

    proof fn lemma_round_trip(v: Configuration) {
        v.avg.lemma_code();
        v.vbus_ct.lemma_code();
        v.vsh_ct.lemma_code();
        v.mode.lemma_code();
        let (d, e, f, g) = (v.avg.code(), v.vbus_ct.code(), v.vsh_ct.code(), v.mode.code());
        lemma_pack_fields(bit(v.rst), bit(v.enable_ch1), bit(v.enable_ch2), bit(v.enable_ch3), d, e, f, g);
        let w = v.to_word();
        assert(d & 7 == d && e & 7 == e && f & 7 == f && g & 7 == g) by (bit_vector)
            requires
                d < 8, e < 8, f < 8, g < 8,
        ;
        Averages::lemma_of_code_low_bits(w >> 9u16, d);
        ConversionTime::lemma_of_code_low_bits(w >> 6u16, e);
        ConversionTime::lemma_of_code_low_bits(w >> 3u16, f);
        Mode::lemma_of_code_low_bits(w, g);
        assert(Configuration::from_word(w) == v);
    }

}

impl Configuration {
    /// Every 16-bit value read from the device survives unpacking and packing unchanged.
    pub proof fn lemma_word_round_trip(w: u16)
        ensures
            Configuration::from_word(w).to_word() == w,
    {
        lemma_unpack_fields(w);
        Averages::lemma_of_code(w >> 9u16);
        ConversionTime::lemma_of_code(w >> 6u16);
        ConversionTime::lemma_of_code(w >> 3u16);
        Mode::lemma_of_code(w);
    }

    /// This configuration with one field changed.
    pub open spec fn applied(self, u: ConfigUpdate) -> Configuration {
        match u {
            ConfigUpdate::EnableChannel(Channel::Ch1, on) => Configuration { enable_ch1: on, ..self },
            ConfigUpdate::EnableChannel(Channel::Ch2, on) => Configuration { enable_ch2: on, ..self },
            ConfigUpdate::EnableChannel(Channel::Ch3, on) => Configuration { enable_ch3: on, ..self },
            ConfigUpdate::Averaging(avg) => Configuration { avg, ..self },
            ConfigUpdate::BusConversionTime(ct) => Configuration { vbus_ct: ct, ..self },
            ConfigUpdate::ShuntConversionTime(ct) => Configuration { vsh_ct: ct, ..self },
            ConfigUpdate::OperatingMode(mode) => Configuration { mode, ..self },
        }
    }

    pub fn apply(self, u: ConfigUpdate) -> (r: Configuration)
        ensures
            r == self.applied(u),
    {
        let mut c = self;
        match u {
            ConfigUpdate::EnableChannel(Channel::Ch1, on) => c.enable_ch1 = on,
            ConfigUpdate::EnableChannel(Channel::Ch2, on) => c.enable_ch2 = on,
            ConfigUpdate::EnableChannel(Channel::Ch3, on) => c.enable_ch3 = on,
            ConfigUpdate::Averaging(avg) => c.avg = avg,
            ConfigUpdate::BusConversionTime(ct) => c.vbus_ct = ct,
            ConfigUpdate::ShuntConversionTime(ct) => c.vsh_ct = ct,
            ConfigUpdate::OperatingMode(mode) => c.mode = mode,
        }
        c
    }
}

/// A change of one field of the Configuration register.
#[derive(Debug, Clone, Copy, PartialEq, Eq, Structural)]
pub enum ConfigUpdate {
    EnableChannel(Channel, bool),
    Averaging(Averages),
    BusConversionTime(ConversionTime),
    ShuntConversionTime(ConversionTime),
    OperatingMode(Mode),
}

impl ConfigUpdate {
    /// The bits of the Configuration register that hold the field this update changes.
    pub open spec fn mask(self) -> u16 {
        match self {
            ConfigUpdate::EnableChannel(Channel::Ch1, _) => 0x4000,
            ConfigUpdate::EnableChannel(Channel::Ch2, _) => 0x2000,
            ConfigUpdate::EnableChannel(Channel::Ch3, _) => 0x1000,
            ConfigUpdate::Averaging(_) => 0x0e00,
            ConfigUpdate::BusConversionTime(_) => 0x01c0,
            ConfigUpdate::ShuntConversionTime(_) => 0x0038,
            ConfigUpdate::OperatingMode(_) => 0x0007,
        }
    }

    /// What those bits hold once the update is made.
    pub open spec fn field_bits(self) -> u16 {
        match self {
            ConfigUpdate::EnableChannel(Channel::Ch1, on) => bit(on) << 14u16,
            ConfigUpdate::EnableChannel(Channel::Ch2, on) => bit(on) << 13u16,
            ConfigUpdate::EnableChannel(Channel::Ch3, on) => bit(on) << 12u16,
            ConfigUpdate::Averaging(avg) => avg.code() << 9u16,
            ConfigUpdate::BusConversionTime(ct) => ct.code() << 6u16,
            ConfigUpdate::ShuntConversionTime(ct) => ct.code() << 3u16,
            ConfigUpdate::OperatingMode(mode) => mode.code(),
        }
    }
}

/// Changing one field of a Configuration read from the device, and packing it again, leaves
/// every bit outside that field as it was read and puts the new value in the field's bits.
#[verifier::rlimit(50)]
pub proof fn lemma_field_isolation(w: u16, u: ConfigUpdate)
    ensures
        Configuration::from_word(w).applied(u).to_word() & !u.mask() == w & !u.mask(),
        Configuration::from_word(w).applied(u).to_word() & u.mask() == u.field_bits(),
{
    let c = Configuration::from_word(w);
    Configuration::lemma_word_round_trip(w);
    let n = c.applied(u);
    c.avg.lemma_code();
    c.vbus_ct.lemma_code();
    c.vsh_ct.lemma_code();
    c.mode.lemma_code();
    n.avg.lemma_code();
    n.vbus_ct.lemma_code();
    n.vsh_ct.lemma_code();
    n.mode.lemma_code();
    let (r, a, b, cc) = (bit(c.rst), bit(c.enable_ch1), bit(c.enable_ch2), bit(c.enable_ch3));
    let (d, e, f, g) = (c.avg.code(), c.vbus_ct.code(), c.vsh_ct.code(), c.mode.code());
    let (a2, b2, c2) = (bit(n.enable_ch1), bit(n.enable_ch2), bit(n.enable_ch3));
    let (d2, e2, f2, g2) = (n.avg.code(), n.vbus_ct.code(), n.vsh_ct.code(), n.mode.code());
    lemma_pack_replace(r, a, b, cc, d, e, f, g, a2, b2, c2, d2, e2, f2, g2);
    assert(c.to_word() == pack_fields(r, a, b, cc, d, e, f, g));
    match u {
        ConfigUpdate::EnableChannel(Channel::Ch1, _) => {
            assert(n.to_word() == pack_fields(r, a2, b, cc, d, e, f, g));
        },
        ConfigUpdate::EnableChannel(Channel::Ch2, _) => {
            assert(n.to_word() == pack_fields(r, a, b2, cc, d, e, f, g));
        },
        ConfigUpdate::EnableChannel(Channel::Ch3, _) => {
            assert(n.to_word() == pack_fields(r, a, b, c2, d, e, f, g));
        },
        ConfigUpdate::Averaging(_) => {
            assert(n.to_word() == pack_fields(r, a, b, cc, d2, e, f, g));
        },
        ConfigUpdate::BusConversionTime(_) => {
            assert(n.to_word() == pack_fields(r, a, b, cc, d, e2, f, g));
        },
        ConfigUpdate::ShuntConversionTime(_) => {
            assert(n.to_word() == pack_fields(r, a, b, cc, d, e, f2, g));
        },
        ConfigUpdate::OperatingMode(_) => {
            assert(n.to_word() == pack_fields(r, a, b, cc, d, e, f, g2));
        },
    }
}

/// The 13-bit two's complement value held in bits 3 to 15 of a register, sign extended.
pub open spec fn voltage_of(w: u16) -> int {
    let f = (w / 8) as int;
    if f >= 4096 {
        f - 8192
    } else {
        f
    }
}

/// The register value that holds `v` in bits 3 to 15, with bits 0 to 2 clear.
pub open spec fn voltage_word(v: int) -> u16 {
    ((if v < 0 {
        v + 8192
    } else {
        v
    }) * 8) as u16
}

/// `v` fits in a 13-bit two's complement field.
pub open spec fn voltage_fits(v: int) -> bool {
    -4096 <= v < 4096
}

proof fn lemma_voltage_round_trip(v: int)
    requires
        voltage_fits(v),
    ensures
        voltage_of(voltage_word(v)) == v,
{
}

/// Every register value holds a voltage that fits in 13 bits.
pub proof fn lemma_voltage_range()
    ensures
        forall|w: u16| -4096 <= #[trigger] voltage_of(w) < 4096,
{
}

fn pack_voltage(v: i16) -> (r: Result<[u8; 2], PackingError>)
    ensures
        r is Ok <==> voltage_fits(v as int),
        r is Ok ==> r->Ok_0@ == bytes_of(voltage_word(v as int)),
        r is Err ==> r->Err_0 == PackingError::OutOfRange,
{
    if v < -4096 || v >= 4096 {
        return Err(PackingError::OutOfRange);
    }
    let f: u16 = if v < 0 {
        (v + 8192) as u16
    } else {
        v as u16
    };
    Ok(to_bytes(f * 8))
}

fn unpack_voltage(bytes: &[u8; 2]) -> (r: i16)
    ensures
        r as int == voltage_of(word_of(bytes@)),
{
    let f: u16 = from_bytes(bytes) / 8;
    if f >= 4096 {
        (f as i16) - 8192
    } else {
        f as i16
    }
}

/// Shunt voltage of channel 1. One unit is 40 uV for a shunt voltage and 8 mV for a bus voltage.
#[derive(Debug, Clone, Copy, PartialEq, Eq, Structural)]
pub struct Ch1ShuntVoltage {
    pub voltage: i16,
}

impl Address for Ch1ShuntVoltage {
    open spec fn spec_addr() -> u8 {
        0x01
    }

    fn addr() -> (r: u8) {
        0x01
    }
}

impl Register for Ch1ShuntVoltage {
    open spec fn representable(&self) -> bool {
        voltage_fits(self.voltage as int)
    }

    open spec fn to_word(&self) -> u16 {
        voltage_word(self.voltage as int)
    }

    open spec fn from_word(w: u16) -> Ch1ShuntVoltage {
        Ch1ShuntVoltage { voltage: voltage_of(w) as i16 }
    }

    fn pack(&self) -> (r: Result<[u8; 2], PackingError>) {
        pack_voltage(self.voltage)
    }

    fn unpack(bytes: &[u8; 2]) -> (r: Result<Ch1ShuntVoltage, PackingError>) {
        Ok(Ch1ShuntVoltage { voltage: unpack_voltage(bytes) })
    }

    proof fn lemma_round_trip(v: Ch1ShuntVoltage) {
        lemma_voltage_round_trip(v.voltage as int);
    }

}

/// Bus voltage of channel 1. One unit is 40 uV for a shunt voltage and 8 mV for a bus voltage.
#[derive(Debug, Clone, Copy, PartialEq, Eq, Structural)]
pub struct Ch1BusVoltage {
    pub voltage: i16,
}

impl Address for Ch1BusVoltage {
    open spec fn spec_addr() -> u8 {
        0x02
    }

    fn addr() -> (r: u8) {
        0x02
    }
}

impl Register for Ch1BusVoltage {
    open spec fn representable(&self) -> bool {
        voltage_fits(self.voltage as int)
    }

    open spec fn to_word(&self) -> u16 {
        voltage_word(self.voltage as int)
    }

    open spec fn from_word(w: u16) -> Ch1BusVoltage {
        Ch1BusVoltage { voltage: voltage_of(w) as i16 }
    }

    fn pack(&self) -> (r: Result<[u8; 2], PackingError>) {
        pack_voltage(self.voltage)
    }

    fn unpack(bytes: &[u8; 2]) -> (r: Result<Ch1BusVoltage, PackingError>) {
        Ok(Ch1BusVoltage { voltage: unpack_voltage(bytes) })
    }

    proof fn lemma_round_trip(v: Ch1BusVoltage) {
        lemma_voltage_round_trip(v.voltage as int);
    }

}

/// Shunt voltage of channel 2. One unit is 40 uV for a shunt voltage and 8 mV for a bus voltage.
#[derive(Debug, Clone, Copy, PartialEq, Eq, Structural)]
pub struct Ch2ShuntVoltage {
    pub voltage: i16,
}

impl Address for Ch2ShuntVoltage {
    open spec fn spec_addr() -> u8 {
        0x03
    }

    fn addr() -> (r: u8) {
        0x03
    }
}

impl Register for Ch2ShuntVoltage {
    open spec fn representable(&self) -> bool {
        voltage_fits(self.voltage as int)
    }

    open spec fn to_word(&self) -> u16 {
        voltage_word(self.voltage as int)
    }

    open spec fn from_word(w: u16) -> Ch2ShuntVoltage {
        Ch2ShuntVoltage { voltage: voltage_of(w) as i16 }
    }

    fn pack(&self) -> (r: Result<[u8; 2], PackingError>) {
        pack_voltage(self.voltage)
    }

    fn unpack(bytes: &[u8; 2]) -> (r: Result<Ch2ShuntVoltage, PackingError>) {
        Ok(Ch2ShuntVoltage { voltage: unpack_voltage(bytes) })
    }

    proof fn lemma_round_trip(v: Ch2ShuntVoltage) {
        lemma_voltage_round_trip(v.voltage as int);
    }

}

/// Bus voltage of channel 2. One unit is 40 uV for a shunt voltage and 8 mV for a bus voltage.
#[derive(Debug, Clone, Copy, PartialEq, Eq, Structural)]
pub struct Ch2BusVoltage {
    pub voltage: i16,
}

impl Address for Ch2BusVoltage {
    open spec fn spec_addr() -> u8 {
        0x04
    }

    fn addr() -> (r: u8) {
        0x04
    }
}

impl Register for Ch2BusVoltage {
    open spec fn representable(&self) -> bool {
        voltage_fits(self.voltage as int)
    }

    open spec fn to_word(&self) -> u16 {
        voltage_word(self.voltage as int)
    }

    open spec fn from_word(w: u16) -> Ch2BusVoltage {
        Ch2BusVoltage { voltage: voltage_of(w) as i16 }
    }

    fn pack(&self) -> (r: Result<[u8; 2], PackingError>) {
        pack_voltage(self.voltage)
    }

    fn unpack(bytes: &[u8; 2]) -> (r: Result<Ch2BusVoltage, PackingError>) {
        Ok(Ch2BusVoltage { voltage: unpack_voltage(bytes) })
    }

    proof fn lemma_round_trip(v: Ch2BusVoltage) {
        lemma_voltage_round_trip(v.voltage as int);
    }

}

/// Shunt voltage of channel 3. One unit is 40 uV for a shunt voltage and 8 mV for a bus voltage.
#[derive(Debug, Clone, Copy, PartialEq, Eq, Structural)]
pub struct Ch3ShuntVoltage {
    pub voltage: i16,
}

impl Address for Ch3ShuntVoltage {
    open spec fn spec_addr() -> u8 {
        0x05
    }

    fn addr() -> (r: u8) {
        0x05
    }
}

impl Register for Ch3ShuntVoltage {
    open spec fn representable(&self) -> bool {
        voltage_fits(self.voltage as int)
    }

    open spec fn to_word(&self) -> u16 {
        voltage_word(self.voltage as int)
    }

    open spec fn from_word(w: u16) -> Ch3ShuntVoltage {
        Ch3ShuntVoltage { voltage: voltage_of(w) as i16 }
    }

    fn pack(&self) -> (r: Result<[u8; 2], PackingError>) {
        pack_voltage(self.voltage)
    }

    fn unpack(bytes: &[u8; 2]) -> (r: Result<Ch3ShuntVoltage, PackingError>) {
        Ok(Ch3ShuntVoltage { voltage: unpack_voltage(bytes) })
    }

    proof fn lemma_round_trip(v: Ch3ShuntVoltage) {
        lemma_voltage_round_trip(v.voltage as int);
    }

}

/// Bus voltage of channel 3. One unit is 40 uV for a shunt voltage and 8 mV for a bus voltage.
#[derive(Debug, Clone, Copy, PartialEq, Eq, Structural)]
pub struct Ch3BusVoltage {
    pub voltage: i16,
}

impl Address for Ch3BusVoltage {
    open spec fn spec_addr() -> u8 {
        0x06
    }

    fn addr() -> (r: u8) {
        0x06
    }
}

impl Register for Ch3BusVoltage {
    open spec fn representable(&self) -> bool {
        voltage_fits(self.voltage as int)
    }

    open spec fn to_word(&self) -> u16 {
        voltage_word(self.voltage as int)
    }

    open spec fn from_word(w: u16) -> Ch3BusVoltage {
        Ch3BusVoltage { voltage: voltage_of(w) as i16 }
    }

    fn pack(&self) -> (r: Result<[u8; 2], PackingError>) {
        pack_voltage(self.voltage)
    }

    fn unpack(bytes: &[u8; 2]) -> (r: Result<Ch3BusVoltage, PackingError>) {
        Ok(Ch3BusVoltage { voltage: unpack_voltage(bytes) })
    }

    proof fn lemma_round_trip(v: Ch3BusVoltage) {
        lemma_voltage_round_trip(v.voltage as int);
    }

}

/// The manufacturer identifier; 0x5449 on this device.
#[derive(Debug, Clone, Copy, PartialEq, Eq, Structural)]
pub struct ManufacturerId {
    pub id: u16,
}

impl Address for ManufacturerId {
    open spec fn spec_addr() -> u8 {
        0xFE
    }

    fn addr() -> (r: u8) {
        0xFE
    }
}

impl Register for ManufacturerId {
    open spec fn representable(&self) -> bool {
        true
    }

    open spec fn to_word(&self) -> u16 {
        self.id
    }

    open spec fn from_word(w: u16) -> ManufacturerId {
        ManufacturerId { id: w }
    }

    fn pack(&self) -> (r: Result<[u8; 2], PackingError>) {
        Ok(to_bytes(self.id))
    }

    fn unpack(bytes: &[u8; 2]) -> (r: Result<ManufacturerId, PackingError>) {
        Ok(ManufacturerId { id: from_bytes(bytes) })
    }

    proof fn lemma_round_trip(v: ManufacturerId) {
    }

}

/// The die identifier; 0x3220 on this device.
#[derive(Debug, Clone, Copy, PartialEq, Eq, Structural)]
pub struct DieId {
    pub id: u16,
}

impl Address for DieId {
    open spec fn spec_addr() -> u8 {
        0xFF
    }

    fn addr() -> (r: u8) {
        0xFF
    }
}

impl Register for DieId {
    open spec fn representable(&self) -> bool {
        true
    }

    open spec fn to_word(&self) -> u16 {
        self.id
    }

    open spec fn from_word(w: u16) -> DieId {
        DieId { id: w }
    }

    fn pack(&self) -> (r: Result<[u8; 2], PackingError>) {
        Ok(to_bytes(self.id))
    }

    fn unpack(bytes: &[u8; 2]) -> (r: Result<DieId, PackingError>) {
        Ok(DieId { id: from_bytes(bytes) })
    }

    proof fn lemma_round_trip(v: DieId) {
    }

}

/// Packing a representable register value into its two bytes and unpacking them gives the
/// value back, for every register.
pub proof fn lemma_pack_unpack<T: Register>(v: T)
    requires
        v.representable(),
    ensures
        T::from_word(word_of(bytes_of(v.to_word()))) == v,
{
    lemma_bytes_round_trip(v.to_word());
    T::lemma_round_trip(v);
}

/// The pointer addresses of all registers, in the order of the layout table.
pub open spec fn register_addresses() -> Seq<u8> {
    seq![
        Configuration::spec_addr(),
        Ch1ShuntVoltage::spec_addr(),
        Ch1BusVoltage::spec_addr(),
        Ch2ShuntVoltage::spec_addr(),
        Ch2BusVoltage::spec_addr(),
        Ch3ShuntVoltage::spec_addr(),
        Ch3BusVoltage::spec_addr(),
        ManufacturerId::spec_addr(),
        DieId::spec_addr(),
    ]
}

/// No two registers share a pointer address.
pub proof fn lemma_addresses_distinct()
    ensures
        forall|i: int, j: int|
            0 <= i < j < register_addresses().len() ==> register_addresses()[i]
                != register_addresses()[j],
{
    let s = register_addresses();
    assert(s =~= seq![0x00u8, 0x01, 0x02, 0x03, 0x04, 0x05, 0x06, 0xFE, 0xFF]);
}

} // verus!
