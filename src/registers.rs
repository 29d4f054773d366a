use vstd::prelude::*;

verus! {

/// First register address served by the upper bus endpoint.
pub const UPPER_RANGE_START: u16 = 0x100;

/// The two bus endpoints of the gauge: registers below `UPPER_RANGE_START`
/// are reached through the lower one, the rest through the upper one.
#[derive(Clone, Copy, Debug, PartialEq, Eq, Structural)]
pub enum Endpoint {
    Lower,
    Upper,
}

/// The gauge registers this driver reads.
#[derive(Clone, Copy, Debug, PartialEq, Eq, Structural)]
pub enum Register {
    /// Status bitfield.
    Status,
    /// Reported capacity (LSB = 0.5 mAh), followed by the reported
    /// state of charge (LSB = 1/256 %).
    RepCap,
    /// Full capacity, LSB = 0.5 mAh.
    FullCapRep,
    /// 64-bit unique identifier.
    NRomID,
    /// Pack voltage, LSB = 1.25 mV.
    Batt,
    /// Instantaneous current, LSB = 156.25 uA.
    Current,
    /// Raw coulomb count.
    Coulomb,
}

impl Register {
    pub open spec fn spec_address(self) -> u16 {
        match self {
            Register::Status => 0x000,
            Register::RepCap => 0x005,
            Register::FullCapRep => 0x035,
            Register::NRomID => 0x1BC,
            Register::Batt => 0x0DA,
            Register::Current => 0x00A,
            Register::Coulomb => 0x04D,
        }
    }

    /// Number of bytes read from the register in one transaction.
    pub open spec fn spec_width(self) -> usize {
        match self {
            Register::RepCap => 4,
            Register::NRomID => 8,
            _ => 2,
        }
    }

    pub open spec fn spec_endpoint(self) -> Endpoint {
        if self.spec_address() >= UPPER_RANGE_START {
            Endpoint::Upper
        } else {
            Endpoint::Lower
        }
    }

    /// The byte written to the bus to select the register: the low byte
    /// of its address (the endpoint supplies the rest).
    pub open spec fn spec_address_byte(self) -> u8 {
        (self.spec_address() % 256) as u8
    }

    #[verifier::when_used_as_spec(spec_address)]
    pub fn address(self) -> (r: u16)
        ensures
            r == self.spec_address(),
    {
        match self {
            Register::Status => 0x000,
            Register::RepCap => 0x005,
            Register::FullCapRep => 0x035,
            Register::NRomID => 0x1BC,
            Register::Batt => 0x0DA,
            Register::Current => 0x00A,
            Register::Coulomb => 0x04D,
        }
    }

    #[verifier::when_used_as_spec(spec_width)]
    pub fn width(self) -> (r: usize)
        ensures
            r == self.spec_width(),
    {
        match self {
            Register::RepCap => 4,
            Register::NRomID => 8,
            _ => 2,
        }
    }

    #[verifier::when_used_as_spec(spec_endpoint)]
    pub fn endpoint(self) -> (r: Endpoint)
        ensures
            r == self.spec_endpoint(),
    {
        if self.address() >= UPPER_RANGE_START {
            Endpoint::Upper
        } else {
            Endpoint::Lower
        }
    }

    #[verifier::when_used_as_spec(spec_address_byte)]
    pub fn address_byte(self) -> (r: u8)
        ensures
            r == self.spec_address_byte(),
    {
        (self.address() % 256) as u8
    }
}

} // verus!
