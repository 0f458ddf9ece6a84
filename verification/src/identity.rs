use vstd::prelude::*;

verus! {

/// The 7-bit bus addresses the supported chips can answer on. Each chip
/// family has two candidate addresses, selected by hardware pin-strapping
/// of the SDO line; the address is immutable once resolved.
#[allow(non_camel_case_types)]
#[derive(Copy, Clone, Debug, PartialEq, Eq, Structural)]
pub enum I2C_Address {
    /// Default address of the BMA400.
    BMA400,
    /// BMA400 with SDO strapped to VDDIO.
    BMA400_ALTERNATIVE,
    /// Default address of the BMA456; also used by BMA421 and BMA425.
    BMA456,
    /// BMA456/BMA421/BMA425 with SDO strapped to VDDIO.
    BMA456_ALTERNATIVE,
}

impl I2C_Address {
    /// The 7-bit address value sent on the bus for this symbolic address.
    pub open spec fn spec_value(self) -> u8 {
        match self {
            I2C_Address::BMA400 => 0b001_0100,
            I2C_Address::BMA400_ALTERNATIVE => 0b001_0101,
            I2C_Address::BMA456 => 0b001_1000,
            I2C_Address::BMA456_ALTERNATIVE => 0b001_1001,
        }
    }

    /// The 7-bit address value sent on the bus for this symbolic address.
    #[verifier::when_used_as_spec(spec_value)]
    pub fn value(self) -> (r: u8)
        ensures
            r == self.spec_value(),
    {
        match self {
            I2C_Address::BMA400 => 0b001_0100,
            I2C_Address::BMA400_ALTERNATIVE => 0b001_0101,
            I2C_Address::BMA456 => 0b001_1000,
            I2C_Address::BMA456_ALTERNATIVE => 0b001_1001,
        }
    }

    /// The partner address of the same chip family under the opposite
    /// pin-strapping: the one candidate left to try when a transaction
    /// at this address fails.
    pub open spec fn spec_fallback(self) -> I2C_Address {
        match self {
            I2C_Address::BMA400 => I2C_Address::BMA400_ALTERNATIVE,
            I2C_Address::BMA400_ALTERNATIVE => I2C_Address::BMA400,
            I2C_Address::BMA456 => I2C_Address::BMA456_ALTERNATIVE,
            I2C_Address::BMA456_ALTERNATIVE => I2C_Address::BMA456,
        }
    }

    /// The partner address of the same chip family under the opposite
    /// pin-strapping.
    #[verifier::when_used_as_spec(spec_fallback)]
    pub fn fallback(self) -> (r: I2C_Address)
        ensures
            r == self.spec_fallback(),
    {
        match self {
            I2C_Address::BMA400 => I2C_Address::BMA400_ALTERNATIVE,
            I2C_Address::BMA400_ALTERNATIVE => I2C_Address::BMA400,
            I2C_Address::BMA456 => I2C_Address::BMA456_ALTERNATIVE,
            I2C_Address::BMA456_ALTERNATIVE => I2C_Address::BMA456,
        }
    }
}

/// The supported chip variants, one tag per model. The set is closed: an
/// identity byte outside it is an error, never a new variant.
#[allow(non_camel_case_types)]
#[derive(Copy, Clone, Debug, PartialEq, Eq, Structural)]
pub enum CHIP {
    BMA456,
    BMA400,
    BMA421,
    BMA425,
}

/// The chip variant identified by the identity byte `id`, or `None` for a
/// byte outside the supported set.
pub open spec fn spec_chip_of(id: u8) -> Option<CHIP> {
    if id == 0x90 {
        Some(CHIP::BMA400)
    } else if id == 0x16 {
        Some(CHIP::BMA456)
    } else if id == 0x11 {
        Some(CHIP::BMA421)
    } else if id == 0x13 {
        Some(CHIP::BMA425)
    } else {
        None
    }
}

impl CHIP {
    /// The identity byte this chip model reports in its CHIP_ID register.
    pub open spec fn spec_id(self) -> u8 {
        match self {
            CHIP::BMA456 => 0x16,
            CHIP::BMA400 => 0x90,
            CHIP::BMA421 => 0x11,
            CHIP::BMA425 => 0x13,
        }
    }

    /// The identity byte this chip model reports in its CHIP_ID register.
    #[verifier::when_used_as_spec(spec_id)]
    pub fn id(self) -> (r: u8)
        ensures
            r == self.spec_id(),
    {
        match self {
            CHIP::BMA456 => 0x16,
            CHIP::BMA400 => 0x90,
            CHIP::BMA421 => 0x11,
            CHIP::BMA425 => 0x13,
        }
    }

    /// Map an identity byte to the chip variant that reports it; `None`
    /// for a byte outside the supported set.
    pub fn from_id(id: u8) -> (r: Option<CHIP>)
        ensures
            r == spec_chip_of(id),
    {
        if id == 0x90 {
            Some(CHIP::BMA400)
        } else if id == 0x16 {
            Some(CHIP::BMA456)
        } else if id == 0x11 {
            Some(CHIP::BMA421)
        } else if id == 0x13 {
            Some(CHIP::BMA425)
        } else {
            None
        }
    }
}

/// The identity mapping is injective and its own inverse: a byte that
/// identifies a chip variant is exactly the byte that variant reports.
pub proof fn lemma_chip_identity_bijective(id: u8, chip: CHIP)
    requires
        spec_chip_of(id) == Some(chip),
    ensures
        chip.spec_id() == id,
        spec_chip_of(chip.spec_id()) == Some(chip),
{
}

} // verus!
