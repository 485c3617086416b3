//! The numeric codes that the driver takes: protocol identifiers and connect flags.
use vstd::prelude::*;

verus! {

/// A wire protocol, identified to the driver by a fixed code.
#[allow(non_camel_case_types)]
#[derive(Copy, Clone, Debug, PartialEq, Eq, Structural)]
pub enum Protocol {
    J1850VPW,
    J1850PWM,
    ISO9141,
    ISO14230,
    CAN,
    ISO15765,
    SCI_A_ENGINE,
    SCI_A_TRANS,
    SCI_B_ENGINE,
    SCI_B_TRANS,
}

/// The code of each protocol, as the driver interface fixes it.
pub open spec fn protocol_code(p: Protocol) -> u32 {
    match p {
        Protocol::J1850VPW => 1,
        Protocol::J1850PWM => 2,
        Protocol::ISO9141 => 3,
        Protocol::ISO14230 => 4,
        Protocol::CAN => 5,
        Protocol::ISO15765 => 6,
        Protocol::SCI_A_ENGINE => 7,
        Protocol::SCI_A_TRANS => 8,
        Protocol::SCI_B_ENGINE => 9,
        Protocol::SCI_B_TRANS => 10,
    }
}

impl Protocol {
    pub fn code(&self) -> (r: u32)
        ensures
            r == protocol_code(*self),
    {
        match self {
            Protocol::J1850VPW => 1,
            Protocol::J1850PWM => 2,
            Protocol::ISO9141 => 3,
            Protocol::ISO14230 => 4,
            Protocol::CAN => 5,
            Protocol::ISO15765 => 6,
            Protocol::SCI_A_ENGINE => 7,
            Protocol::SCI_A_TRANS => 8,
            Protocol::SCI_B_ENGINE => 9,
            Protocol::SCI_B_TRANS => 10,
        }
    }
}

/// No option.
pub const NONE: u32 = 0x0;
/// 29-bit CAN identifiers.
pub const CAN_29_BIT_ID: u32 = 0x100;
/// ISO 9141 without checksum.
pub const ISO9141_NO_CHECKSUM: u32 = 0x200;
/// Both 11-bit and 29-bit CAN identifiers.
pub const CAN_ID_BOTH: u32 = 0x800;
/// ISO 9141 on the K line only.
pub const ISO9141_K_LINE_ONLY: u32 = 0x1000;
/// Every defined option.
pub const ALL_FLAGS: u32 = 0x1B00;

/// A set of connect options, passed to the driver as one OR'd mask.
/// Only the defined option bits are ever set.
#[derive(Copy, Clone, Debug, PartialEq, Eq, Structural)]
pub struct ConnectFlags {
    bits: u32,
}

impl View for ConnectFlags {
    type V = u32;

    closed spec fn view(&self) -> u32 {
        self.bits
    }
}

impl ConnectFlags {
    /// Holds of every value: no bit outside the defined options.
    pub closed spec fn wf(&self) -> bool {
        self.bits & !ALL_FLAGS == 0
    }

    pub fn empty() -> (r: ConnectFlags)
        ensures
            r@ == NONE,
            r.wf(),
    {
        let r = ConnectFlags { bits: NONE };
        assert(0u32 & !0x1B00u32 == 0) by (bit_vector);
        r
    }

    pub fn all() -> (r: ConnectFlags)
        ensures
            r@ == ALL_FLAGS,
            r.wf(),
    {
        assert(0x1B00u32 & !0x1B00u32 == 0) by (bit_vector);
        ConnectFlags { bits: ALL_FLAGS }
    }

    pub fn can_29_bit_id() -> (r: ConnectFlags)
        ensures
            r@ == CAN_29_BIT_ID,
            r.wf(),
    {
        assert(0x100u32 & !0x1B00u32 == 0) by (bit_vector);
        ConnectFlags { bits: CAN_29_BIT_ID }
    }

    pub fn iso9141_no_checksum() -> (r: ConnectFlags)
        ensures
            r@ == ISO9141_NO_CHECKSUM,
            r.wf(),
    {
        assert(0x200u32 & !0x1B00u32 == 0) by (bit_vector);
        ConnectFlags { bits: ISO9141_NO_CHECKSUM }
    }

    pub fn can_id_both() -> (r: ConnectFlags)
        ensures
            r@ == CAN_ID_BOTH,
            r.wf(),
    {
        assert(0x800u32 & !0x1B00u32 == 0) by (bit_vector);
        ConnectFlags { bits: CAN_ID_BOTH }
    }

    pub fn iso9141_k_line_only() -> (r: ConnectFlags)
        ensures
            r@ == ISO9141_K_LINE_ONLY,
            r.wf(),
    {
        assert(0x1000u32 & !0x1B00u32 == 0) by (bit_vector);
        ConnectFlags { bits: ISO9141_K_LINE_ONLY }
    }

    /// The mask handed to the driver.
    pub fn bits(&self) -> (r: u32)
        ensures
            r == self@,
    {
        self.bits
    }

    /// The set with exactly these bits, if all of them are defined options.
    pub fn from_bits(bits: u32) -> (r: Option<ConnectFlags>)
        ensures
            r is Some <==> bits & !ALL_FLAGS == 0,
            r matches Some(f) ==> f@ == bits && f.wf(),
    {
        if bits & !ALL_FLAGS == 0 {
            Some(ConnectFlags { bits })
        } else {
            None
        }
    }

    /// The set of the defined options among these bits; the others are dropped.
    pub fn from_bits_truncate(bits: u32) -> (r: ConnectFlags)
        ensures
            r@ == bits & ALL_FLAGS,
            r.wf(),
    {
        let b = bits & ALL_FLAGS;
        assert((bits & 0x1B00u32) & !0x1B00u32 == 0) by (bit_vector);
        ConnectFlags { bits: b }
    }

    /// Both sets together.
    pub fn union(&self, other: ConnectFlags) -> (r: ConnectFlags)
        requires
            self.wf(),
            other.wf(),
        ensures
            r@ == self@ | other@,
            r.wf(),
    {
        let a = self.bits;
        let b = other.bits;
        assert(a & !0x1B00u32 == 0 && b & !0x1B00u32 == 0 ==> (a | b) & !0x1B00u32 == 0)
            by (bit_vector);
        ConnectFlags { bits: a | b }
    }

    /// Whether every option of `other` is in this set.
    pub fn contains(&self, other: ConnectFlags) -> (r: bool)
        ensures
            r == (self@ & other@ == other@),
    {
        self.bits & other.bits == other.bits
    }

    /// Adds the options of `other`.
    pub fn insert(&mut self, other: ConnectFlags)
        requires
            old(self).wf(),
            other.wf(),
        ensures
            final(self)@ == old(self)@ | other@,
            final(self).wf(),
    {
        *self = self.union(other);
    }

    /// Takes the options of `other` out.
    pub fn remove(&mut self, other: ConnectFlags)
        requires
            old(self).wf(),
        ensures
            final(self)@ == old(self)@ & !other@,
            final(self).wf(),
    {
        let a = self.bits;
        let b = other.bits;
        assert(a & !0x1B00u32 == 0 ==> (a & !b) & !0x1B00u32 == 0) by (bit_vector);
        self.bits = a & !b;
    }
}

} // verus!
