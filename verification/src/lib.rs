//! Driver core for the Bosch BMA4xx family of inertial sensors
//! (BMA400/BMA421/BMA425/BMA456) on a shared two-wire bus.
//!
//! The core resolves which bus address the chip answers on, reads its
//! identity register, maps the identity byte to a concrete chip variant,
//! and exposes a single register-read primitive on top of a generic bus
//! transport supplied by the caller.

mod bus;
mod device;
mod identity;
mod registers;
mod sim;

pub use bus::I2cBus;
pub use bus::InputPin;
pub use device::BMA4xx;
pub use device::Error;
pub use device::FallbackPolicy;
pub use device::lemma_both_addresses_fail;
pub use device::lemma_chip_id_readback;
pub use device::lemma_construction_deterministic;
pub use device::lemma_fallback_resolves;
pub use device::lemma_supported_id_resolves;
pub use device::lemma_unknown_id_rejected;
pub use device::spec_construction;
pub use device::spec_identify;
pub use device::spec_identify_once;
pub use identity::CHIP;
pub use identity::I2C_Address;
pub use identity::lemma_chip_identity_bijective;
pub use identity::spec_chip_of;
pub use registers::Registers;
pub use sim::SIM_NO_ANSWER;
pub use sim::SimBus;
pub use sim::SimPin;
pub use sim::SimRule;
pub use sim::spec_rule_response;
