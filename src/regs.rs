//! Low-level register definitions
use vstd::prelude::*;

use crate::Mode;

verus! {

/// Register address
#[derive(Copy, Clone, Debug, PartialEq, Eq, Structural)]
pub enum RegisterAddress {
    /// Company ID
    Wia1,
    /// Device ID
    Wia2,
    /// Reserved 1
    Rsv1,
    /// Reserved 2
    Rsv2,
    /// Status 1
    St1,
    /// Measurement Magnetic Data (X axis, LSB)
    Hxl,
    /// Measurement Magnetic Data (X axis, MSB)
    Hxh,
    /// Measurement Magnetic Data (Y axis, LSB)
    Hyl,
    /// Measurement Magnetic Data (Y axis, MSB)
    Hyh,
    /// Measurement Magnetic Data (Z axis, LSB)
    Hzl,
    /// Measurement Magnetic Data (Z axis, MSB)
    Hzh,
    /// Dummy
    Tmps,
    /// Status 2
    St2,
    /// Dummy
    Cntl1,
    /// Control 2
    Cntl2,
    /// Control 3
    Cntl3,
    /// Test (not to be accessed)
    Ts1,
    /// Test (not to be accessed)
    Ts2,
}

impl RegisterAddress {
    /// The byte address of the register.
    pub open spec fn addr(self) -> u8 {
        match self {
            RegisterAddress::Wia1 => 0x00,
            RegisterAddress::Wia2 => 0x01,
            RegisterAddress::Rsv1 => 0x02,
            RegisterAddress::Rsv2 => 0x03,
            RegisterAddress::St1 => 0x10,
            RegisterAddress::Hxl => 0x11,
            RegisterAddress::Hxh => 0x12,
            RegisterAddress::Hyl => 0x13,
            RegisterAddress::Hyh => 0x14,
            RegisterAddress::Hzl => 0x15,
            RegisterAddress::Hzh => 0x16,
            RegisterAddress::Tmps => 0x17,
            RegisterAddress::St2 => 0x18,
            RegisterAddress::Cntl1 => 0x30,
            RegisterAddress::Cntl2 => 0x31,
            RegisterAddress::Cntl3 => 0x32,
            RegisterAddress::Ts1 => 0x33,
            RegisterAddress::Ts2 => 0x34,
        }
    }
}

impl From<RegisterAddress> for u8 {
    fn from(value: RegisterAddress) -> (r: u8) {
        match value {
            RegisterAddress::Wia1 => 0x00,
            RegisterAddress::Wia2 => 0x01,
            RegisterAddress::Rsv1 => 0x02,
            RegisterAddress::Rsv2 => 0x03,
            RegisterAddress::St1 => 0x10,
            RegisterAddress::Hxl => 0x11,
            RegisterAddress::Hxh => 0x12,
            RegisterAddress::Hyl => 0x13,
            RegisterAddress::Hyh => 0x14,
            RegisterAddress::Hzl => 0x15,
            RegisterAddress::Hzh => 0x16,
            RegisterAddress::Tmps => 0x17,
            RegisterAddress::St2 => 0x18,
            RegisterAddress::Cntl1 => 0x30,
            RegisterAddress::Cntl2 => 0x31,
            RegisterAddress::Cntl3 => 0x32,
            RegisterAddress::Ts1 => 0x33,
            RegisterAddress::Ts2 => 0x34,
        }
    }
}

impl vstd::std_specs::convert::FromSpecImpl<RegisterAddress> for u8 {
    open spec fn obeys_from_spec() -> bool {
        true
    }

    open spec fn from_spec(v: RegisterAddress) -> u8 {
        v.addr()
    }
}

/// 8-bit register
pub trait Register8: Sized {
    /// Address of the register, as the contracts see it
    spec fn spec_address() -> RegisterAddress;

    /// Register value decoded from a byte, as the contracts see it
    spec fn spec_decode(byte: u8) -> Self;

    /// Byte encoding of a register value, as the contracts see it
    spec fn spec_encode(self) -> u8;

    /// Address of the register
    fn address() -> (r: RegisterAddress)
        ensures
            r == Self::spec_address(),
    ;

    /// Decodes a register value from the byte read from the device
    fn decode(byte: u8) -> (r: Self)
        ensures
            r == Self::spec_decode(byte),
    ;

    /// Encodes a register value as the byte written to the device
    fn encode(self) -> (r: u8)
        ensures
            r == self.spec_encode(),
    ;
}

/// 16-bit register with signed two's complement data
pub trait Register16: Sized {
    /// Address of the low byte of the register, as the contracts see it
    spec fn spec_address() -> RegisterAddress;

    /// Register value decoded from a signed word, as the contracts see it
    spec fn spec_decode(word: i16) -> Self;

    /// Signed word held by a register value, as the contracts see it
    spec fn spec_encode(self) -> i16;

    /// Address of the low byte of the register
    fn address() -> (r: RegisterAddress)
        ensures
            r == Self::spec_address(),
    ;

    /// Decodes a register value from the signed word read from the device
    fn decode(word: i16) -> (r: Self)
        ensures
            r == Self::spec_decode(word),
    ;

    /// The signed word held by the register value
    fn encode(self) -> (r: i16)
        ensures
            r == self.spec_encode(),
    ;
}

/// The signed 16-bit value whose little-endian bytes are `lo`, `hi`.
pub open spec fn le_i16(lo: u8, hi: u8) -> int {
    if hi < 128 {
        lo + 256 * hi
    } else {
        lo + 256 * hi - 65536
    }
}

/// Reads a signed 16-bit value from its two little-endian bytes.
pub fn i16_from_le_bytes(bytes: [u8; 2]) -> (r: i16)
    ensures
        r as int == le_i16(bytes[0], bytes[1]),
{
    let lo: i32 = bytes[0] as i32;
    let hi: i32 = bytes[1] as i32;
    if hi < 128 {
        (lo + 256 * hi) as i16
    } else {
        (lo + 256 * hi - 65536) as i16
    }
}

/// Who I Am 1 (Company ID)
#[derive(Copy, Clone, Debug, PartialEq, Eq, Structural)]
pub struct Wia1(
    /// Company ID
    pub u8,
);

impl Wia1 {
    /// Company ID of AKM
    pub fn akm() -> (r: Wia1)
        ensures
            r == Wia1(crate::WhoIAm::AKM_COMPANY_ID),
    {
        Wia1(crate::WhoIAm::AKM_COMPANY_ID)
    }
}

impl Register8 for Wia1 {
    open spec fn spec_address() -> RegisterAddress {
        RegisterAddress::Wia1
    }

    open spec fn spec_decode(byte: u8) -> Wia1 {
        Wia1(byte)
    }

    open spec fn spec_encode(self) -> u8 {
        self.0
    }

    fn address() -> (r: RegisterAddress) {
        RegisterAddress::Wia1
    }

    fn decode(byte: u8) -> (r: Wia1) {
        Wia1(byte)
    }

    fn encode(self) -> (r: u8) {
        self.0
    }
}

impl From<u8> for Wia1 {
    fn from(value: u8) -> (r: Wia1) {
        Wia1(value)
    }
}

impl vstd::std_specs::convert::FromSpecImpl<u8> for Wia1 {
    open spec fn obeys_from_spec() -> bool {
        true
    }

    open spec fn from_spec(v: u8) -> Wia1 {
        Wia1(v)
    }
}

impl From<Wia1> for u8 {
    fn from(value: Wia1) -> (r: u8) {
        value.0
    }
}

impl vstd::std_specs::convert::FromSpecImpl<Wia1> for u8 {
    open spec fn obeys_from_spec() -> bool {
        true
    }

    open spec fn from_spec(v: Wia1) -> u8 {
        v.0
    }
}

/// Who I Am 2 (Device ID)
#[derive(Copy, Clone, Debug, PartialEq, Eq, Structural)]
pub struct Wia2(
    /// Device ID
    pub u8,
);

impl Wia2 {
    /// Device ID of AK09916
    pub fn ak09916() -> (r: Wia2)
        ensures
            r == Wia2(crate::WhoIAm::AK09916_DEVICE_ID),
    {
        Wia2(crate::WhoIAm::AK09916_DEVICE_ID)
    }
}

impl Register8 for Wia2 {
    open spec fn spec_address() -> RegisterAddress {
        RegisterAddress::Wia2
    }

    open spec fn spec_decode(byte: u8) -> Wia2 {
        Wia2(byte)
    }

    open spec fn spec_encode(self) -> u8 {
        self.0
    }

    fn address() -> (r: RegisterAddress) {
        RegisterAddress::Wia2
    }

    fn decode(byte: u8) -> (r: Wia2) {
        Wia2(byte)
    }

    fn encode(self) -> (r: u8) {
        self.0
    }
}

impl From<u8> for Wia2 {
    fn from(value: u8) -> (r: Wia2) {
        Wia2(value)
    }
}

impl vstd::std_specs::convert::FromSpecImpl<u8> for Wia2 {
    open spec fn obeys_from_spec() -> bool {
        true
    }

    open spec fn from_spec(v: u8) -> Wia2 {
        Wia2(v)
    }
}

impl From<Wia2> for u8 {
    fn from(value: Wia2) -> (r: u8) {
        value.0
    }
}

impl vstd::std_specs::convert::FromSpecImpl<Wia2> for u8 {
    open spec fn obeys_from_spec() -> bool {
        true
    }

    open spec fn from_spec(v: Wia2) -> u8 {
        v.0
    }
}

/// Measurement Magnetic Data (X axis, LSB)
#[derive(Copy, Clone, Debug, PartialEq, Eq, Structural)]
pub struct Hxl(
    /// X-axis measurement data (LSB)
    pub u8,
);

impl Register8 for Hxl {
    open spec fn spec_address() -> RegisterAddress {
        RegisterAddress::Hxl
    }

    open spec fn spec_decode(byte: u8) -> Hxl {
        Hxl(byte)
    }

    open spec fn spec_encode(self) -> u8 {
        self.0
    }

    fn address() -> (r: RegisterAddress) {
        RegisterAddress::Hxl
    }

    fn decode(byte: u8) -> (r: Hxl) {
        Hxl(byte)
    }

    fn encode(self) -> (r: u8) {
        self.0
    }
}

impl From<u8> for Hxl {
    fn from(value: u8) -> (r: Hxl) {
        Hxl(value)
    }
}

impl vstd::std_specs::convert::FromSpecImpl<u8> for Hxl {
    open spec fn obeys_from_spec() -> bool {
        true
    }

    open spec fn from_spec(v: u8) -> Hxl {
        Hxl(v)
    }
}

impl From<Hxl> for u8 {
    fn from(value: Hxl) -> (r: u8) {
        value.0
    }
}

impl vstd::std_specs::convert::FromSpecImpl<Hxl> for u8 {
    open spec fn obeys_from_spec() -> bool {
        true
    }

    open spec fn from_spec(v: Hxl) -> u8 {
        v.0
    }
}

/// Measurement Magnetic Data (X axis, MSB)
#[derive(Copy, Clone, Debug, PartialEq, Eq, Structural)]
pub struct Hxh(
    /// X-axis measurement data (MSB)
    pub u8,
);

impl Register8 for Hxh {
    open spec fn spec_address() -> RegisterAddress {
        RegisterAddress::Hxh
    }

    open spec fn spec_decode(byte: u8) -> Hxh {
        Hxh(byte)
    }

    open spec fn spec_encode(self) -> u8 {
        self.0
    }

    fn address() -> (r: RegisterAddress) {
        RegisterAddress::Hxh
    }

    fn decode(byte: u8) -> (r: Hxh) {
        Hxh(byte)
    }

    fn encode(self) -> (r: u8) {
        self.0
    }
}

impl From<u8> for Hxh {
    fn from(value: u8) -> (r: Hxh) {
        Hxh(value)
    }
}

impl vstd::std_specs::convert::FromSpecImpl<u8> for Hxh {
    open spec fn obeys_from_spec() -> bool {
        true
    }

    open spec fn from_spec(v: u8) -> Hxh {
        Hxh(v)
    }
}

impl From<Hxh> for u8 {
    fn from(value: Hxh) -> (r: u8) {
        value.0
    }
}

impl vstd::std_specs::convert::FromSpecImpl<Hxh> for u8 {
    open spec fn obeys_from_spec() -> bool {
        true
    }

    open spec fn from_spec(v: Hxh) -> u8 {
        v.0
    }
}

/// Measurement Magnetic Data (X axis)
#[derive(Copy, Clone, Debug, PartialEq, Eq, Structural)]
pub struct Hx(
    /// X-axis measurement data
    pub i16,
);

impl Register16 for Hx {
    open spec fn spec_address() -> RegisterAddress {
        RegisterAddress::Hxl
    }

    open spec fn spec_decode(word: i16) -> Hx {
        Hx(word)
    }

    open spec fn spec_encode(self) -> i16 {
        self.0
    }

    fn address() -> (r: RegisterAddress) {
        RegisterAddress::Hxl
    }

    fn decode(word: i16) -> (r: Hx) {
        Hx(word)
    }

    fn encode(self) -> (r: i16) {
        self.0
    }
}

impl From<i16> for Hx {
    fn from(value: i16) -> (r: Hx) {
        Hx(value)
    }
}

impl vstd::std_specs::convert::FromSpecImpl<i16> for Hx {
    open spec fn obeys_from_spec() -> bool {
        true
    }

    open spec fn from_spec(v: i16) -> Hx {
        Hx(v)
    }
}

impl From<Hx> for i16 {
    fn from(value: Hx) -> (r: i16) {
        value.0
    }
}

impl vstd::std_specs::convert::FromSpecImpl<Hx> for i16 {
    open spec fn obeys_from_spec() -> bool {
        true
    }

    open spec fn from_spec(v: Hx) -> i16 {
        v.0
    }
}

/// Measurement Magnetic Data (Y axis, LSB)
#[derive(Copy, Clone, Debug, PartialEq, Eq, Structural)]
pub struct Hyl(
    /// Y-axis measurement data (LSB)
    pub u8,
);

impl Register8 for Hyl {
    open spec fn spec_address() -> RegisterAddress {
        RegisterAddress::Hyl
    }

    open spec fn spec_decode(byte: u8) -> Hyl {
        Hyl(byte)
    }

    open spec fn spec_encode(self) -> u8 {
        self.0
    }

    fn address() -> (r: RegisterAddress) {
        RegisterAddress::Hyl
    }

    fn decode(byte: u8) -> (r: Hyl) {
        Hyl(byte)
    }

    fn encode(self) -> (r: u8) {
        self.0
    }
}

impl From<u8> for Hyl {
    fn from(value: u8) -> (r: Hyl) {
        Hyl(value)
    }
}

impl vstd::std_specs::convert::FromSpecImpl<u8> for Hyl {
    open spec fn obeys_from_spec() -> bool {
        true
    }

    open spec fn from_spec(v: u8) -> Hyl {
        Hyl(v)
    }
}

impl From<Hyl> for u8 {
    fn from(value: Hyl) -> (r: u8) {
        value.0
    }
}

impl vstd::std_specs::convert::FromSpecImpl<Hyl> for u8 {
    open spec fn obeys_from_spec() -> bool {
        true
    }

    open spec fn from_spec(v: Hyl) -> u8 {
        v.0
    }
}

/// Measurement Magnetic Data (Y axis, MSB)
#[derive(Copy, Clone, Debug, PartialEq, Eq, Structural)]
pub struct Hyh(
    /// Y-axis measurement data (MSB)
    pub u8,
);

impl Register8 for Hyh {
    open spec fn spec_address() -> RegisterAddress {
        RegisterAddress::Hyh
    }

    open spec fn spec_decode(byte: u8) -> Hyh {
        Hyh(byte)
    }

    open spec fn spec_encode(self) -> u8 {
        self.0
    }

    fn address() -> (r: RegisterAddress) {
        RegisterAddress::Hyh
    }

    fn decode(byte: u8) -> (r: Hyh) {
        Hyh(byte)
    }

    fn encode(self) -> (r: u8) {
        self.0
    }
}

impl From<u8> for Hyh {
    fn from(value: u8) -> (r: Hyh) {
        Hyh(value)
    }
}

impl vstd::std_specs::convert::FromSpecImpl<u8> for Hyh {
    open spec fn obeys_from_spec() -> bool {
        true
    }

    open spec fn from_spec(v: u8) -> Hyh {
        Hyh(v)
    }
}

impl From<Hyh> for u8 {
    fn from(value: Hyh) -> (r: u8) {
        value.0
    }
}

impl vstd::std_specs::convert::FromSpecImpl<Hyh> for u8 {
    open spec fn obeys_from_spec() -> bool {
        true
    }

    open spec fn from_spec(v: Hyh) -> u8 {
        v.0
    }
}

/// Measurement Magnetic Data (Y axis)
#[derive(Copy, Clone, Debug, PartialEq, Eq, Structural)]
pub struct Hy(
    /// Y-axis measurement data
    pub i16,
);

impl Register16 for Hy {
    open spec fn spec_address() -> RegisterAddress {
        RegisterAddress::Hyl
    }

    open spec fn spec_decode(word: i16) -> Hy {
        Hy(word)
    }

    open spec fn spec_encode(self) -> i16 {
        self.0
    }

    fn address() -> (r: RegisterAddress) {
        RegisterAddress::Hyl
    }

    fn decode(word: i16) -> (r: Hy) {
        Hy(word)
    }

    fn encode(self) -> (r: i16) {
        self.0
    }
}

impl From<i16> for Hy {
    fn from(value: i16) -> (r: Hy) {
        Hy(value)
    }
}

impl vstd::std_specs::convert::FromSpecImpl<i16> for Hy {
    open spec fn obeys_from_spec() -> bool {
        true
    }

    open spec fn from_spec(v: i16) -> Hy {
        Hy(v)
    }
}

impl From<Hy> for i16 {
    fn from(value: Hy) -> (r: i16) {
        value.0
    }
}

impl vstd::std_specs::convert::FromSpecImpl<Hy> for i16 {
    open spec fn obeys_from_spec() -> bool {
        true
    }

    open spec fn from_spec(v: Hy) -> i16 {
        v.0
    }
}

/// Measurement Magnetic Data (Z axis, LSB)
#[derive(Copy, Clone, Debug, PartialEq, Eq, Structural)]
pub struct Hzl(
    /// Z-axis measurement data (LSB)
    pub u8,
);

impl Register8 for Hzl {
    open spec fn spec_address() -> RegisterAddress {
        RegisterAddress::Hzl
    }

    open spec fn spec_decode(byte: u8) -> Hzl {
        Hzl(byte)
    }

    open spec fn spec_encode(self) -> u8 {
        self.0
    }

    fn address() -> (r: RegisterAddress) {
        RegisterAddress::Hzl
    }

    fn decode(byte: u8) -> (r: Hzl) {
        Hzl(byte)
    }

    fn encode(self) -> (r: u8) {
        self.0
    }
}

impl From<u8> for Hzl {
    fn from(value: u8) -> (r: Hzl) {
        Hzl(value)
    }
}

impl vstd::std_specs::convert::FromSpecImpl<u8> for Hzl {
    open spec fn obeys_from_spec() -> bool {
        true
    }

    open spec fn from_spec(v: u8) -> Hzl {
        Hzl(v)
    }
}

impl From<Hzl> for u8 {
    fn from(value: Hzl) -> (r: u8) {
        value.0
    }
}

impl vstd::std_specs::convert::FromSpecImpl<Hzl> for u8 {
    open spec fn obeys_from_spec() -> bool {
        true
    }

    open spec fn from_spec(v: Hzl) -> u8 {
        v.0
    }
}

/// Measurement Magnetic Data (Z axis, MSB)
#[derive(Copy, Clone, Debug, PartialEq, Eq, Structural)]
pub struct Hzh(
    /// Z-axis measurement data (MSB)
    pub u8,
);

impl Register8 for Hzh {
    open spec fn spec_address() -> RegisterAddress {
        RegisterAddress::Hzh
    }

    open spec fn spec_decode(byte: u8) -> Hzh {
        Hzh(byte)
    }

    open spec fn spec_encode(self) -> u8 {
        self.0
    }

    fn address() -> (r: RegisterAddress) {
        RegisterAddress::Hzh
    }

    fn decode(byte: u8) -> (r: Hzh) {
        Hzh(byte)
    }

    fn encode(self) -> (r: u8) {
        self.0
    }
}

impl From<u8> for Hzh {
    fn from(value: u8) -> (r: Hzh) {
        Hzh(value)
    }
}

impl vstd::std_specs::convert::FromSpecImpl<u8> for Hzh {
    open spec fn obeys_from_spec() -> bool {
        true
    }

    open spec fn from_spec(v: u8) -> Hzh {
        Hzh(v)
    }
}

impl From<Hzh> for u8 {
    fn from(value: Hzh) -> (r: u8) {
        value.0
    }
}

impl vstd::std_specs::convert::FromSpecImpl<Hzh> for u8 {
    open spec fn obeys_from_spec() -> bool {
        true
    }

    open spec fn from_spec(v: Hzh) -> u8 {
        v.0
    }
}

/// Measurement Magnetic Data (Z axis)
#[derive(Copy, Clone, Debug, PartialEq, Eq, Structural)]
pub struct Hz(
    /// Z-axis measurement data
    pub i16,
);

impl Register16 for Hz {
    open spec fn spec_address() -> RegisterAddress {
        RegisterAddress::Hzl
    }

    open spec fn spec_decode(word: i16) -> Hz {
        Hz(word)
    }

    open spec fn spec_encode(self) -> i16 {
        self.0
    }

    fn address() -> (r: RegisterAddress) {
        RegisterAddress::Hzl
    }

    fn decode(word: i16) -> (r: Hz) {
        Hz(word)
    }

    fn encode(self) -> (r: i16) {
        self.0
    }
}

impl From<i16> for Hz {
    fn from(value: i16) -> (r: Hz) {
        Hz(value)
    }
}

impl vstd::std_specs::convert::FromSpecImpl<i16> for Hz {
    open spec fn obeys_from_spec() -> bool {
        true
    }

    open spec fn from_spec(v: i16) -> Hz {
        Hz(v)
    }
}

impl From<Hz> for i16 {
    fn from(value: Hz) -> (r: i16) {
        value.0
    }
}

impl vstd::std_specs::convert::FromSpecImpl<Hz> for i16 {
    open spec fn obeys_from_spec() -> bool {
        true
    }

    open spec fn from_spec(v: Hz) -> i16 {
        v.0
    }
}

/// Status 1
///
/// A set of named bits. Decoding drops every bit that has no name.
#[derive(Copy, Clone, Debug, PartialEq, Eq, Structural)]
pub struct St1 {
    bits: u8,
}

impl View for St1 {
    type V = u8;

    /// The bits that are set.
    closed spec fn view(&self) -> u8 {
        self.bits
    }
}

impl St1 {
    /// Data Overrun
    pub const DOR: u8 = 0x02;
    /// Data Ready
    pub const DRDY: u8 = 0x01;
    /// Every named bit
    pub const ALL_BITS: u8 = 0x03;

    /// The set with no bit set
    pub fn empty() -> (r: St1)
        ensures
            r@ == 0,
    {
        St1 { bits: 0 }
    }

    /// The set of the named bits of `bits`; the others are dropped.
    pub fn from_bits_truncate(bits: u8) -> (r: St1)
        ensures
            r@ == bits & St1::ALL_BITS,
    {
        St1 { bits: bits & St1::ALL_BITS }
    }

    /// The bits that are set
    pub fn bits(&self) -> (r: u8)
        ensures
            r == self@,
    {
        self.bits
    }

    /// Whether every bit of `flags` is set
    pub fn contains(&self, flags: u8) -> (r: bool)
        ensures
            r == (self@ & flags == flags),
    {
        self.bits & flags == flags
    }

    /// The set of the bits that are set in `self` or in `other`
    pub fn union(self, other: St1) -> (r: St1)
        ensures
            r@ == self@ | other@,
    {
        St1 { bits: self.bits | other.bits }
    }
}

impl Register8 for St1 {
    closed spec fn spec_address() -> RegisterAddress {
        RegisterAddress::St1
    }

    closed spec fn spec_decode(byte: u8) -> St1 {
        St1 { bits: byte & St1::ALL_BITS }
    }

    closed spec fn spec_encode(self) -> u8 {
        self.bits
    }

    fn address() -> (r: RegisterAddress) {
        RegisterAddress::St1
    }

    fn decode(byte: u8) -> (r: St1) {
        St1::from_bits_truncate(byte)
    }

    fn encode(self) -> (r: u8) {
        self.bits
    }
}

impl From<u8> for St1 {
    fn from(value: u8) -> (r: St1) {
        St1::from_bits_truncate(value)
    }
}

impl vstd::std_specs::convert::FromSpecImpl<u8> for St1 {
    closed spec fn obeys_from_spec() -> bool {
        true
    }

    closed spec fn from_spec(v: u8) -> St1 {
        St1 { bits: v & St1::ALL_BITS }
    }
}

impl From<St1> for u8 {
    fn from(value: St1) -> (r: u8) {
        value.bits
    }
}

impl vstd::std_specs::convert::FromSpecImpl<St1> for u8 {
    closed spec fn obeys_from_spec() -> bool {
        true
    }

    closed spec fn from_spec(v: St1) -> u8 {
        v.bits
    }
}

/// Status 2
///
/// A set of named bits. Decoding drops every bit that has no name.
#[derive(Copy, Clone, Debug, PartialEq, Eq, Structural)]
pub struct St2 {
    bits: u8,
}

impl View for St2 {
    type V = u8;

    /// The bits that are set.
    closed spec fn view(&self) -> u8 {
        self.bits
    }
}

impl St2 {
    /// Reserved
    pub const RSV30: u8 = 0x40;
    /// Reserved
    pub const RSV29: u8 = 0x20;
    /// Reserved
    pub const RSV28: u8 = 0x10;
    /// Magnetic sensor overflow
    pub const HOFL: u8 = 0x08;
    /// Every named bit
    pub const ALL_BITS: u8 = 0x78;

    /// The set with no bit set
    pub fn empty() -> (r: St2)
        ensures
            r@ == 0,
    {
        St2 { bits: 0 }
    }

    /// The set of the named bits of `bits`; the others are dropped.
    pub fn from_bits_truncate(bits: u8) -> (r: St2)
        ensures
            r@ == bits & St2::ALL_BITS,
    {
        St2 { bits: bits & St2::ALL_BITS }
    }

    /// The bits that are set
    pub fn bits(&self) -> (r: u8)
        ensures
            r == self@,
    {
        self.bits
    }

    /// Whether every bit of `flags` is set
    pub fn contains(&self, flags: u8) -> (r: bool)
        ensures
            r == (self@ & flags == flags),
    {
        self.bits & flags == flags
    }

    /// The set of the bits that are set in `self` or in `other`
    pub fn union(self, other: St2) -> (r: St2)
        ensures
            r@ == self@ | other@,
    {
        St2 { bits: self.bits | other.bits }
    }
}

impl Register8 for St2 {
    closed spec fn spec_address() -> RegisterAddress {
        RegisterAddress::St2
    }

    closed spec fn spec_decode(byte: u8) -> St2 {
        St2 { bits: byte & St2::ALL_BITS }
    }

    closed spec fn spec_encode(self) -> u8 {
        self.bits
    }

    fn address() -> (r: RegisterAddress) {
        RegisterAddress::St2
    }

    fn decode(byte: u8) -> (r: St2) {
        St2::from_bits_truncate(byte)
    }

    fn encode(self) -> (r: u8) {
        self.bits
    }
}

impl From<u8> for St2 {
    fn from(value: u8) -> (r: St2) {
        St2::from_bits_truncate(value)
    }
}

impl vstd::std_specs::convert::FromSpecImpl<u8> for St2 {
    closed spec fn obeys_from_spec() -> bool {
        true
    }

    closed spec fn from_spec(v: u8) -> St2 {
        St2 { bits: v & St2::ALL_BITS }
    }
}

impl From<St2> for u8 {
    fn from(value: St2) -> (r: u8) {
        value.bits
    }
}

impl vstd::std_specs::convert::FromSpecImpl<St2> for u8 {
    closed spec fn obeys_from_spec() -> bool {
        true
    }

    closed spec fn from_spec(v: St2) -> u8 {
        v.bits
    }
}

/// Control 3
///
/// A set of named bits. Decoding drops every bit that has no name.
#[derive(Copy, Clone, Debug, PartialEq, Eq, Structural)]
pub struct Cntl3 {
    bits: u8,
}

impl View for Cntl3 {
    type V = u8;

    /// The bits that are set.
    closed spec fn view(&self) -> u8 {
        self.bits
    }
}

impl Cntl3 {
    /// Soft reset
    pub const SRST: u8 = 0x01;
    /// Every named bit
    pub const ALL_BITS: u8 = 0x01;

    /// The set with no bit set
    pub fn empty() -> (r: Cntl3)
        ensures
            r@ == 0,
    {
        Cntl3 { bits: 0 }
    }

    /// The set of the named bits of `bits`; the others are dropped.
    pub fn from_bits_truncate(bits: u8) -> (r: Cntl3)
        ensures
            r@ == bits & Cntl3::ALL_BITS,
    {
        Cntl3 { bits: bits & Cntl3::ALL_BITS }
    }

    /// The bits that are set
    pub fn bits(&self) -> (r: u8)
        ensures
            r == self@,
    {
        self.bits
    }

    /// Whether every bit of `flags` is set
    pub fn contains(&self, flags: u8) -> (r: bool)
        ensures
            r == (self@ & flags == flags),
    {
        self.bits & flags == flags
    }

    /// The set of the bits that are set in `self` or in `other`
    pub fn union(self, other: Cntl3) -> (r: Cntl3)
        ensures
            r@ == self@ | other@,
    {
        Cntl3 { bits: self.bits | other.bits }
    }
}

impl Register8 for Cntl3 {
    closed spec fn spec_address() -> RegisterAddress {
        RegisterAddress::Cntl3
    }

    closed spec fn spec_decode(byte: u8) -> Cntl3 {
        Cntl3 { bits: byte & Cntl3::ALL_BITS }
    }

    closed spec fn spec_encode(self) -> u8 {
        self.bits
    }

    fn address() -> (r: RegisterAddress) {
        RegisterAddress::Cntl3
    }

    fn decode(byte: u8) -> (r: Cntl3) {
        Cntl3::from_bits_truncate(byte)
    }

    fn encode(self) -> (r: u8) {
        self.bits
    }
}

impl From<u8> for Cntl3 {
    fn from(value: u8) -> (r: Cntl3) {
        Cntl3::from_bits_truncate(value)
    }
}

impl vstd::std_specs::convert::FromSpecImpl<u8> for Cntl3 {
    closed spec fn obeys_from_spec() -> bool {
        true
    }

    closed spec fn from_spec(v: u8) -> Cntl3 {
        Cntl3 { bits: v & Cntl3::ALL_BITS }
    }
}

impl From<Cntl3> for u8 {
    fn from(value: Cntl3) -> (r: u8) {
        value.bits
    }
}

impl vstd::std_specs::convert::FromSpecImpl<Cntl3> for u8 {
    closed spec fn obeys_from_spec() -> bool {
        true
    }

    closed spec fn from_spec(v: Cntl3) -> u8 {
        v.bits
    }
}

/// The codec of `St1`, as callers outside this module see it: `From` and
/// `Register8` both keep exactly the named bits of a byte and give them back
/// unchanged, the register sits at its documented address, and two values
/// with the same bits are the same value.
pub proof fn lemma_st1_codec()
    ensures
        <St1 as vstd::std_specs::convert::FromSpec<u8>>::obeys_from_spec(),
        <u8 as vstd::std_specs::convert::FromSpec<St1>>::obeys_from_spec(),
        forall|b: u8| (#[trigger] <St1 as vstd::std_specs::convert::FromSpec<u8>>::from_spec(b))@ == b & St1::ALL_BITS,
        forall|v: St1| #[trigger] <u8 as vstd::std_specs::convert::FromSpec<St1>>::from_spec(v) == v@,
        <St1 as Register8>::spec_address() == RegisterAddress::St1,
        forall|b: u8| (#[trigger] <St1 as Register8>::spec_decode(b))@ == b & St1::ALL_BITS,
        forall|v: St1| #[trigger] v.spec_encode() == v@,
        forall|v: St1, w: St1| #![trigger v@, w@] v@ == w@ ==> v == w,
{
}

/// The codec of `St2`, as callers outside this module see it: `From` and
/// `Register8` both keep exactly the named bits of a byte and give them back
/// unchanged, the register sits at its documented address, and two values
/// with the same bits are the same value.
pub proof fn lemma_st2_codec()
    ensures
        <St2 as vstd::std_specs::convert::FromSpec<u8>>::obeys_from_spec(),
        <u8 as vstd::std_specs::convert::FromSpec<St2>>::obeys_from_spec(),
        forall|b: u8| (#[trigger] <St2 as vstd::std_specs::convert::FromSpec<u8>>::from_spec(b))@ == b & St2::ALL_BITS,
        forall|v: St2| #[trigger] <u8 as vstd::std_specs::convert::FromSpec<St2>>::from_spec(v) == v@,
        <St2 as Register8>::spec_address() == RegisterAddress::St2,
        forall|b: u8| (#[trigger] <St2 as Register8>::spec_decode(b))@ == b & St2::ALL_BITS,
        forall|v: St2| #[trigger] v.spec_encode() == v@,
        forall|v: St2, w: St2| #![trigger v@, w@] v@ == w@ ==> v == w,
{
}

/// The codec of `Cntl3`, as callers outside this module see it: `From` and
/// `Register8` both keep exactly the named bits of a byte and give them back
/// unchanged, the register sits at its documented address, and two values
/// with the same bits are the same value.
pub proof fn lemma_cntl3_codec()
    ensures
        <Cntl3 as vstd::std_specs::convert::FromSpec<u8>>::obeys_from_spec(),
        <u8 as vstd::std_specs::convert::FromSpec<Cntl3>>::obeys_from_spec(),
        forall|b: u8| (#[trigger] <Cntl3 as vstd::std_specs::convert::FromSpec<u8>>::from_spec(b))@ == b & Cntl3::ALL_BITS,
        forall|v: Cntl3| #[trigger] <u8 as vstd::std_specs::convert::FromSpec<Cntl3>>::from_spec(v) == v@,
        <Cntl3 as Register8>::spec_address() == RegisterAddress::Cntl3,
        forall|b: u8| (#[trigger] <Cntl3 as Register8>::spec_decode(b))@ == b & Cntl3::ALL_BITS,
        forall|v: Cntl3| #[trigger] v.spec_encode() == v@,
        forall|v: Cntl3, w: Cntl3| #![trigger v@, w@] v@ == w@ ==> v == w,
{
}

/// Operation mode setting
///
/// The low five bits of the mode-control register: a known mode, or a code
/// that names no mode.
#[derive(Copy, Clone, Debug, PartialEq, Eq, Structural)]
pub enum ModeRegister {
    Mode(Mode),
    Other(u8),
}

/// Mask of the mode bits in the mode-control register
pub const MODE_BITS: u8 = 0b11111;

impl ModeRegister {
    /// The register content decoded from a byte: the mode whose code is the
    /// low five bits, or those bits themselves.
    pub open spec fn spec_from_byte(value: u8) -> ModeRegister {
        match Mode::spec_from_code(value & MODE_BITS) {
            Some(m) => ModeRegister::Mode(m),
            None => ModeRegister::Other(value & MODE_BITS),
        }
    }

    /// The byte that encodes the register content.
    pub open spec fn spec_to_byte(self) -> u8 {
        match self {
            ModeRegister::Mode(m) => m.code(),
            ModeRegister::Other(v) => v,
        }
    }
}

impl From<u8> for ModeRegister {
    fn from(value: u8) -> (r: ModeRegister) {
        let code = value & MODE_BITS;
        match Mode::from_code(code) {
            Some(mode) => ModeRegister::Mode(mode),
            None => ModeRegister::Other(code),
        }
    }
}

impl vstd::std_specs::convert::FromSpecImpl<u8> for ModeRegister {
    open spec fn obeys_from_spec() -> bool {
        true
    }

    open spec fn from_spec(v: u8) -> ModeRegister {
        ModeRegister::spec_from_byte(v)
    }
}

impl From<ModeRegister> for u8 {
    fn from(value: ModeRegister) -> (r: u8) {
        match value {
            ModeRegister::Mode(mode) => u8::from(mode),
            ModeRegister::Other(value) => value,
        }
    }
}

impl vstd::std_specs::convert::FromSpecImpl<ModeRegister> for u8 {
    open spec fn obeys_from_spec() -> bool {
        true
    }

    open spec fn from_spec(v: ModeRegister) -> u8 {
        v.spec_to_byte()
    }
}

/// Control 2
#[derive(Copy, Clone, Debug, PartialEq, Eq, Structural)]
pub struct Cntl2(
    /// Operation mode setting
    pub ModeRegister,
);

impl From<Mode> for Cntl2 {
    fn from(value: Mode) -> (r: Cntl2) {
        Cntl2(ModeRegister::Mode(value))
    }
}

impl vstd::std_specs::convert::FromSpecImpl<Mode> for Cntl2 {
    open spec fn obeys_from_spec() -> bool {
        true
    }

    open spec fn from_spec(v: Mode) -> Cntl2 {
        Cntl2(ModeRegister::Mode(v))
    }
}

impl Register8 for Cntl2 {
    open spec fn spec_address() -> RegisterAddress {
        RegisterAddress::Cntl2
    }

    open spec fn spec_decode(byte: u8) -> Cntl2 {
        Cntl2(ModeRegister::spec_from_byte(byte))
    }

    open spec fn spec_encode(self) -> u8 {
        self.0.spec_to_byte()
    }

    fn address() -> (r: RegisterAddress) {
        RegisterAddress::Cntl2
    }

    fn decode(byte: u8) -> (r: Cntl2) {
        Cntl2(ModeRegister::from(byte))
    }

    fn encode(self) -> (r: u8) {
        u8::from(self.0)
    }
}

impl From<u8> for Cntl2 {
    fn from(value: u8) -> (r: Cntl2) {
        Cntl2(ModeRegister::from(value))
    }
}

impl vstd::std_specs::convert::FromSpecImpl<u8> for Cntl2 {
    open spec fn obeys_from_spec() -> bool {
        true
    }

    open spec fn from_spec(v: u8) -> Cntl2 {
        Cntl2(ModeRegister::spec_from_byte(v))
    }
}

impl From<Cntl2> for u8 {
    fn from(value: Cntl2) -> (r: u8) {
        u8::from(value.0)
    }
}

impl vstd::std_specs::convert::FromSpecImpl<Cntl2> for u8 {
    open spec fn obeys_from_spec() -> bool {
        true
    }

    open spec fn from_spec(v: Cntl2) -> u8 {
        v.0.spec_to_byte()
    }
}

/// Register codec round trip. Decoding a byte of a plain 8-bit register and
/// encoding the value again gives the byte back. Decoding a byte of a flag
/// register, or of the mode-control register, keeps only the documented bits,
/// and encoding the value again gives exactly those bits. Either way, decoding
/// the re-encoded byte gives the same value again.
pub proof fn lemma_register8_round_trip(b: u8)
    ensures
        <Wia1 as Register8>::spec_decode(b).spec_encode() == b,
        <Wia2 as Register8>::spec_decode(b).spec_encode() == b,
        <Hxl as Register8>::spec_decode(b).spec_encode() == b,
        <Hxh as Register8>::spec_decode(b).spec_encode() == b,
        <Hyl as Register8>::spec_decode(b).spec_encode() == b,
        <Hyh as Register8>::spec_decode(b).spec_encode() == b,
        <Hzl as Register8>::spec_decode(b).spec_encode() == b,
        <Hzh as Register8>::spec_decode(b).spec_encode() == b,
        <St1 as Register8>::spec_decode(b).spec_encode() == b & St1::ALL_BITS,
        <St1 as Register8>::spec_decode(<St1 as Register8>::spec_decode(b).spec_encode())
            == <St1 as Register8>::spec_decode(b),
        <St2 as Register8>::spec_decode(b).spec_encode() == b & St2::ALL_BITS,
        <St2 as Register8>::spec_decode(<St2 as Register8>::spec_decode(b).spec_encode())
            == <St2 as Register8>::spec_decode(b),
        <Cntl3 as Register8>::spec_decode(b).spec_encode() == b & Cntl3::ALL_BITS,
        <Cntl3 as Register8>::spec_decode(<Cntl3 as Register8>::spec_decode(b).spec_encode())
            == <Cntl3 as Register8>::spec_decode(b),
        <Cntl2 as Register8>::spec_decode(b).spec_encode() == b & MODE_BITS,
        <Cntl2 as Register8>::spec_decode(<Cntl2 as Register8>::spec_decode(b).spec_encode())
            == <Cntl2 as Register8>::spec_decode(b),
{
    Mode::lemma_code_injective();
    assert((b & 0x03) & 0x03 == b & 0x03) by (bit_vector);
    assert((b & 0x78) & 0x78 == b & 0x78) by (bit_vector);
    assert((b & 0x01) & 0x01 == b & 0x01) by (bit_vector);
    assert((b & 0x1f) & 0x1f == b & 0x1f) by (bit_vector);
}


/// Full dump of non-reserved registers and their bits
#[derive(Copy, Clone, Debug, PartialEq, Eq, Structural)]
pub struct RegisterDump {
    pub company_id: Wia1,
    pub device_id: Wia2,
    pub st1: St1,
    pub hx: i16,
    pub hy: i16,
    pub hz: i16,
    pub st2: St2,
    pub mode: ModeRegister,
    pub cntl3: Cntl3,
}

/// Whether `d` is what the 16-byte block `data`, read from the first
/// register on, decodes to.
pub open spec fn is_dump_of(d: RegisterDump, data: Seq<u8>) -> bool {
    &&& d.company_id == Wia1(data[0])
    &&& d.device_id == Wia2(data[1])
    &&& d.st1@ == data[4] & St1::ALL_BITS
    &&& d.hx == le_i16(data[5], data[6])
    &&& d.hy == le_i16(data[7], data[8])
    &&& d.hz == le_i16(data[9], data[10])
    &&& d.st2@ == data[12] & St2::ALL_BITS
    &&& d.mode == ModeRegister::spec_from_byte(data[14])
    &&& d.cntl3@ == data[15] & Cntl3::ALL_BITS
}

impl RegisterDump {
    /// Decodes the 16 bytes read from the first register on: the two
    /// identity bytes, two reserved bytes (skipped), status 1, the three
    /// little-endian axes, a dummy byte (skipped), status 2, a dummy control
    /// byte (skipped), the mode-control register and control 3.
    pub fn from_raw_data(buffer: [u8; 16]) -> (r: RegisterDump)
        ensures
            is_dump_of(r, buffer@),
    {
        RegisterDump {
            company_id: Wia1::from(buffer[0]),
            device_id: Wia2::from(buffer[1]),
            st1: St1::from_bits_truncate(buffer[4]),
            hx: i16_from_le_bytes([buffer[5], buffer[6]]),
            hy: i16_from_le_bytes([buffer[7], buffer[8]]),
            hz: i16_from_le_bytes([buffer[9], buffer[10]]),
            st2: St2::from_bits_truncate(buffer[12]),
            mode: Cntl2::from(buffer[14]).0,
            cntl3: Cntl3::from_bits_truncate(buffer[15]),
        }
    }
}

} // verus!
