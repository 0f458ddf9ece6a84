use vstd::prelude::*;

use crate::bus::I2cBus;
use crate::bus::InputPin;
use crate::identity::CHIP;
use crate::identity::I2C_Address;
use crate::identity::spec_chip_of;
use crate::registers::Registers;

verus! {

/// How construction can fail. Nothing is silently recovered: every
/// failure is surfaced to the caller, and no chip variant is ever
/// accepted speculatively.
#[derive(Debug, Clone, PartialEq)]
pub enum Error<CommunicationError> {
    /// The underlying bus transport reported failure; carries the
    /// transport's native error value for caller inspection.
    I2c(CommunicationError),
    /// A bus transaction succeeded but returned an identity byte outside
    /// the supported set; carries the raw byte for diagnostics.
    UnknownChipId(u8),
    /// The device failed to resume from reset within its deadline.
    /// Reserved for a later resume-from-reset step; this core never
    /// produces it.
    ResetTimeout,
}

/// When construction retries the identification handshake at the partner
/// bus address. A bus-level failure always allows the one retry; whether
/// a successful transaction that returned an unrecognized identity byte
/// should also trigger it is a configuration choice left to the caller.
#[derive(Copy, Clone, Debug, PartialEq, Eq, Structural)]
pub enum FallbackPolicy {
    /// Retry at the partner address only when the bus transaction itself
    /// failed.
    OnCommFailure,
    /// Retry also when the transaction succeeded but returned an identity
    /// byte outside the supported set.
    OnCommFailureOrUnknownId,
}

impl FallbackPolicy {
    /// Whether this policy retries at the partner address after an
    /// unrecognized identity byte.
    pub open spec fn spec_retries_on_unknown_id(self) -> bool {
        self is OnCommFailureOrUnknownId
    }

    /// Whether this policy retries at the partner address after an
    /// unrecognized identity byte.
    #[verifier::when_used_as_spec(spec_retries_on_unknown_id)]
    pub fn retries_on_unknown_id(self) -> (r: bool)
        ensures
            r == self.spec_retries_on_unknown_id(),
    {
        match self {
            FallbackPolicy::OnCommFailure => false,
            FallbackPolicy::OnCommFailureOrUnknownId => true,
        }
    }
}

/// What a single identification attempt at address `address` resolves to,
/// given the outcome of the CHIP_ID transaction there: the address and
/// chip variant on a recognized identity byte, `UnknownChipId` on an
/// unrecognized one, and the transport's error on a failed transaction.
pub open spec fn spec_identify_once<E>(
    address: I2C_Address,
    outcome: Result<u8, E>,
) -> Result<(I2C_Address, CHIP), Error<E>> {
    match outcome {
        Ok(id) => match spec_chip_of(id) {
            Some(chip) => Ok((address, chip)),
            None => Err(Error::UnknownChipId(id)),
        },
        Err(e) => Err(Error::I2c(e)),
    }
}

/// The identification handshake: one attempt at `address`; on a failure
/// that `policy` covers, exactly one more attempt at the partner address,
/// whose result — success or the last failure — is final.
pub open spec fn spec_identify<E>(
    address: I2C_Address,
    primary: Result<u8, E>,
    fallback: Result<u8, E>,
    policy: FallbackPolicy,
) -> Result<(I2C_Address, CHIP), Error<E>> {
    match spec_identify_once(address, primary) {
        Ok(resolved) => Ok(resolved),
        Err(e) => {
            let retry = e is I2c || (e is UnknownChipId && policy.spec_retries_on_unknown_id());
            if retry {
                spec_identify_once(address.spec_fallback(), fallback)
            } else {
                Err(e)
            }
        },
    }
}

/// What constructing a handle against transport `bus`, starting at
/// `address` under `policy`, resolves to: the handshake applied to the
/// bus's CHIP_ID transaction outcomes at the address and at its partner.
pub open spec fn spec_construction<B: I2cBus>(
    bus: B,
    address: I2C_Address,
    policy: FallbackPolicy,
) -> Result<(I2C_Address, CHIP), Error<B::BusError>> {
    spec_identify(
        address,
        bus.transaction_outcome(address.spec_value(), Registers::CHIP_ID.spec_offset()),
        bus.transaction_outcome(
            address.spec_fallback().spec_value(),
            Registers::CHIP_ID.spec_offset(),
        ),
        policy,
    )
}

/// A handle to one BMA4xx chip: the exclusively owned bus transport, the
/// resolved bus address, the resolved chip variant, and the optional
/// interrupt pins (held for later interrupt support, never read here).
/// A handle only exists after a fully successful identification
/// handshake; address and chip variant never change afterwards.
pub struct BMA4xx<I2C, InterruptPin> {
    i2c: I2C,
    address: I2C_Address,
    interrupt_pin1: Option<InterruptPin>,
    interrupt_pin2: Option<InterruptPin>,
    chip: CHIP,
}

/// One identification attempt: the CHIP_ID transaction at `address`,
/// interpreted by `spec_identify_once`.
fn identify_at<B: I2cBus>(bus: &mut B, address: I2C_Address) -> (r: Result<
    (I2C_Address, CHIP),
    Error<B::BusError>,
>)
    ensures
        r == spec_identify_once(
            address,
            old(bus).transaction_outcome(address.spec_value(), Registers::CHIP_ID.spec_offset()),
        ),
        forall|a: u8, q: u8| #[trigger]
            final(bus).transaction_outcome(a, q) == old(bus).transaction_outcome(a, q),
{
    match bus.write_then_read(address.value(), Registers::CHIP_ID.offset()) {
        Ok(id) => match CHIP::from_id(id) {
            Some(chip) => Ok((address, chip)),
            None => Err(Error::UnknownChipId(id)),
        },
        Err(e) => Err(Error::I2c(e)),
    }
}

impl<I2C: I2cBus, InterruptPin: InputPin> BMA4xx<I2C, InterruptPin> {
    /// The chip variant resolved at construction.
    pub closed spec fn spec_chip(&self) -> CHIP {
        self.chip
    }

    /// The bus address resolved at construction: whichever candidate
    /// produced the successful identification transaction.
    pub closed spec fn spec_address(&self) -> I2C_Address {
        self.address
    }

    /// The owned bus transport.
    pub closed spec fn spec_bus(&self) -> I2C {
        self.i2c
    }

    /// The owned interrupt pins, exactly as supplied at construction.
    pub closed spec fn spec_pins(&self) -> (Option<InterruptPin>, Option<InterruptPin>) {
        (self.interrupt_pin1, self.interrupt_pin2)
    }

    /// Construct a handle by performing the identification handshake at
    /// `address`, retrying once at the partner address only on a
    /// bus-level failure.
    pub fn new(
        i2c: I2C,
        address: I2C_Address,
        interrupt_pin1: Option<InterruptPin>,
        interrupt_pin2: Option<InterruptPin>,
    ) -> (r: Result<Self, Error<I2C::BusError>>)
        ensures
            match r {
                Ok(handle) => {
                    &&& spec_construction(i2c, address, FallbackPolicy::OnCommFailure) == Ok::<
                        _,
                        Error<I2C::BusError>,
                    >((handle.spec_address(), handle.spec_chip()))
                    &&& forall|a: u8, q: u8| #[trigger]
                        handle.spec_bus().transaction_outcome(a, q) == i2c.transaction_outcome(
                            a,
                            q,
                        )
                    &&& handle.spec_pins() == (interrupt_pin1, interrupt_pin2)
                },
                Err(e) => spec_construction(i2c, address, FallbackPolicy::OnCommFailure) == Err::<
                    (I2C_Address, CHIP),
                    _,
                >(e),
            },
    {
        Self::new_with_policy(
            i2c,
            address,
            interrupt_pin1,
            interrupt_pin2,
            FallbackPolicy::OnCommFailure,
        )
    }

    /// Construct a handle by performing the identification handshake at
    /// `address`, with `policy` deciding which failures allow the one
    /// retry at the partner address. Either the handle is fully
    /// identified — variant resolved from the identity byte, address the
    /// one that answered — or construction fails and yields no handle.
    pub fn new_with_policy(
        i2c: I2C,
        address: I2C_Address,
        interrupt_pin1: Option<InterruptPin>,
        interrupt_pin2: Option<InterruptPin>,
        policy: FallbackPolicy,
    ) -> (r: Result<Self, Error<I2C::BusError>>)
        ensures
            match r {
                Ok(handle) => {
                    &&& spec_construction(i2c, address, policy) == Ok::<
                        _,
                        Error<I2C::BusError>,
                    >((handle.spec_address(), handle.spec_chip()))
                    &&& forall|a: u8, q: u8| #[trigger]
                        handle.spec_bus().transaction_outcome(a, q) == i2c.transaction_outcome(
                            a,
                            q,
                        )
                    &&& handle.spec_pins() == (interrupt_pin1, interrupt_pin2)
                },
                Err(e) => spec_construction(i2c, address, policy) == Err::<
                    (I2C_Address, CHIP),
                    _,
                >(e),
            },
    {
        let mut bus = i2c;
        match identify_at(&mut bus, address) {
            Ok((resolved, chip)) => Ok(
                BMA4xx {
                    i2c: bus,
                    address: resolved,
                    interrupt_pin1,
                    interrupt_pin2,
                    chip,
                },
            ),
            Err(e) => {
                let retry = match &e {
                    Error::I2c(_) => true,
                    Error::UnknownChipId(_) => policy.retries_on_unknown_id(),
                    Error::ResetTimeout => false,
                };
                if retry {
                    match identify_at(&mut bus, address.fallback()) {
                        Ok((resolved, chip)) => Ok(
                            BMA4xx {
                                i2c: bus,
                                address: resolved,
                                interrupt_pin1,
                                interrupt_pin2,
                                chip,
                            },
                        ),
                        Err(e2) => Err(e2),
                    }
                } else {
                    Err(e)
                }
            },
        }
    }

    /// Read one register: write the register's one-byte offset to the
    /// resolved address, read exactly one response byte, and return it
    /// verbatim. No caching, no retry, no interpretation of the byte;
    /// the only failure is the transport's own, propagated as `I2c`.
    pub fn read_register(&mut self, register: Registers) -> (r: Result<u8, Error<I2C::BusError>>)
        ensures
            r == (match old(self).spec_bus().transaction_outcome(
                old(self).spec_address().spec_value(),
                register.spec_offset(),
            ) {
                Ok(b) => Ok::<u8, Error<I2C::BusError>>(b),
                Err(e) => Err::<u8, Error<I2C::BusError>>(Error::I2c(e)),
            }),
            final(self).spec_address() == old(self).spec_address(),
            final(self).spec_chip() == old(self).spec_chip(),
            final(self).spec_pins() == old(self).spec_pins(),
            forall|a: u8, q: u8| #[trigger]
                final(self).spec_bus().transaction_outcome(a, q) == old(
                    self,
                ).spec_bus().transaction_outcome(a, q),
    {
        match self.i2c.write_then_read(self.address.value(), register.offset()) {
            Ok(b) => Ok(b),
            Err(e) => Err(Error::I2c(e)),
        }
    }

    /// The chip variant resolved at construction.
    pub fn chip(&self) -> (r: CHIP)
        ensures
            r == self.spec_chip(),
    {
        self.chip
    }

    /// The bus address resolved at construction.
    pub fn address(&self) -> (r: I2C_Address)
        ensures
            r == self.spec_address(),
    {
        self.address
    }
}

/// Every supported identity byte is accepted: when the CHIP_ID
/// transaction at the requested address returns a byte that identifies a
/// chip variant, construction resolves that variant at that address,
/// under every fallback policy.
pub proof fn lemma_supported_id_resolves<B: I2cBus>(
    bus: B,
    address: I2C_Address,
    policy: FallbackPolicy,
    id: u8,
    chip: CHIP,
)
    requires
        bus.transaction_outcome(address.spec_value(), Registers::CHIP_ID.spec_offset()) == Ok::<
            u8,
            B::BusError,
        >(id),
        spec_chip_of(id) == Some(chip),
    ensures
        spec_construction(bus, address, policy) == Ok::<_, Error<B::BusError>>((address, chip)),
{
}

/// Every unrecognized identity byte is rejected: when the CHIP_ID
/// transaction succeeds but returns a byte outside the supported set,
/// and the policy does not retry on a mere identity mismatch,
/// construction fails with `UnknownChipId` carrying that exact byte.
pub proof fn lemma_unknown_id_rejected<B: I2cBus>(bus: B, address: I2C_Address, id: u8)
    requires
        bus.transaction_outcome(address.spec_value(), Registers::CHIP_ID.spec_offset()) == Ok::<
            u8,
            B::BusError,
        >(id),
        spec_chip_of(id) is None,
    ensures
        spec_construction(bus, address, FallbackPolicy::OnCommFailure) == Err::<
            (I2C_Address, CHIP),
            Error<B::BusError>,
        >(Error::UnknownChipId(id)),
{
}

/// The fallback address can rescue construction: when the transaction at
/// the requested address fails at the bus level but the one at the
/// partner address returns a supported identity byte, construction
/// succeeds and records the partner address as resolved.
pub proof fn lemma_fallback_resolves<B: I2cBus>(
    bus: B,
    address: I2C_Address,
    policy: FallbackPolicy,
    e: B::BusError,
    id: u8,
    chip: CHIP,
)
    requires
        bus.transaction_outcome(address.spec_value(), Registers::CHIP_ID.spec_offset()) == Err::<
            u8,
            B::BusError,
        >(e),
        bus.transaction_outcome(
            address.spec_fallback().spec_value(),
            Registers::CHIP_ID.spec_offset(),
        ) == Ok::<u8, B::BusError>(id),
        spec_chip_of(id) == Some(chip),
    ensures
        spec_construction(bus, address, policy) == Ok::<_, Error<B::BusError>>(
            (address.spec_fallback(), chip),
        ),
{
}

/// When the transactions at both candidate addresses fail at the bus
/// level, construction fails with a communication error wrapping the
/// last underlying failure — the partner address's.
pub proof fn lemma_both_addresses_fail<B: I2cBus>(
    bus: B,
    address: I2C_Address,
    policy: FallbackPolicy,
    e1: B::BusError,
    e2: B::BusError,
)
    requires
        bus.transaction_outcome(address.spec_value(), Registers::CHIP_ID.spec_offset()) == Err::<
            u8,
            B::BusError,
        >(e1),
        bus.transaction_outcome(
            address.spec_fallback().spec_value(),
            Registers::CHIP_ID.spec_offset(),
        ) == Err::<u8, B::BusError>(e2),
    ensures
        spec_construction(bus, address, policy) == Err::<(I2C_Address, CHIP), _>(Error::I2c(e2)),
{
}

/// After a successful handshake the CHIP_ID register still reads the
/// identity byte that resolved the chip variant: the bus's CHIP_ID
/// transaction outcome at the resolved address is exactly the resolved
/// variant's identity byte, which is what `read_register` then returns.
pub proof fn lemma_chip_id_readback<B: I2cBus>(
    bus: B,
    address: I2C_Address,
    policy: FallbackPolicy,
    resolved: I2C_Address,
    chip: CHIP,
)
    requires
        spec_construction(bus, address, policy) == Ok::<_, Error<B::BusError>>((resolved, chip)),
    ensures
        bus.transaction_outcome(resolved.spec_value(), Registers::CHIP_ID.spec_offset()) == Ok::<
            u8,
            B::BusError,
        >(chip.spec_id()),
{
}

/// Construction is deterministic: two transports with identical models
/// resolve construction identically — same success with the same address
/// and chip variant, or the same failure.
pub proof fn lemma_construction_deterministic<B: I2cBus>(
    bus1: B,
    bus2: B,
    address: I2C_Address,
    policy: FallbackPolicy,
)
    requires
        forall|a: u8, q: u8| #[trigger]
            bus1.transaction_outcome(a, q) == bus2.transaction_outcome(a, q),
    ensures
        spec_construction(bus1, address, policy) == spec_construction(bus2, address, policy),
{
}

} // verus!
