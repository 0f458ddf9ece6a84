use bma4xx::BMA4xx;
use bma4xx::CHIP;
use bma4xx::Error;
use bma4xx::FallbackPolicy;
use bma4xx::InputPin;
use bma4xx::I2C_Address;
use bma4xx::Registers;
use bma4xx::SimBus;
use bma4xx::SimPin;
use bma4xx::SIM_NO_ANSWER;

const CHIP_ID_OFFSET: u8 = 0x00;

fn new_sim(
    bus: SimBus,
    address: I2C_Address,
) -> Result<BMA4xx<SimBus, SimPin>, Error<u8>> {
    BMA4xx::<SimBus, SimPin>::new(bus, address, None, None)
}

#[test]
fn identifies_bma400() {
    let mut bus = SimBus::new();
    bus.program(0b001_0100, CHIP_ID_OFFSET, Ok(0x90));
    let handle = new_sim(bus, I2C_Address::BMA400).unwrap();
    assert_eq!(handle.chip(), CHIP::BMA400);
    assert_eq!(handle.address(), I2C_Address::BMA400);
}

#[test]
fn identifies_bma456() {
    let mut bus = SimBus::new();
    bus.program(0b001_1000, CHIP_ID_OFFSET, Ok(0x16));
    let handle = new_sim(bus, I2C_Address::BMA456).unwrap();
    assert_eq!(handle.chip(), CHIP::BMA456);
    assert_eq!(handle.address(), I2C_Address::BMA456);
}

#[test]
fn identifies_bma421() {
    let mut bus = SimBus::new();
    bus.program(0b001_1000, CHIP_ID_OFFSET, Ok(0x11));
    let handle = new_sim(bus, I2C_Address::BMA456).unwrap();
    assert_eq!(handle.chip(), CHIP::BMA421);
    assert_eq!(handle.address(), I2C_Address::BMA456);
}

#[test]
fn identifies_bma425() {
    let mut bus = SimBus::new();
    bus.program(0b001_1000, CHIP_ID_OFFSET, Ok(0x13));
    let handle = new_sim(bus, I2C_Address::BMA456).unwrap();
    assert_eq!(handle.chip(), CHIP::BMA425);
    assert_eq!(handle.address(), I2C_Address::BMA456);
}

#[test]
fn rejects_unknown_identity_byte() {
    let mut bus = SimBus::new();
    bus.program(0b001_1000, CHIP_ID_OFFSET, Ok(0x42));
    let result = new_sim(bus, I2C_Address::BMA456);
    assert_eq!(result.err(), Some(Error::UnknownChipId(0x42)));
}

#[test]
fn unknown_identity_does_not_fall_back_by_default() {
    let mut bus = SimBus::new();
    bus.program(0b001_1000, CHIP_ID_OFFSET, Ok(0x42));
    bus.program(0b001_1001, CHIP_ID_OFFSET, Ok(0x16));
    let result = new_sim(bus, I2C_Address::BMA456);
    assert_eq!(result.err(), Some(Error::UnknownChipId(0x42)));
}

#[test]
fn unknown_identity_falls_back_under_opt_in_policy() {
    let mut bus = SimBus::new();
    bus.program(0b001_1000, CHIP_ID_OFFSET, Ok(0x42));
    bus.program(0b001_1001, CHIP_ID_OFFSET, Ok(0x16));
    let handle = BMA4xx::<SimBus, SimPin>::new_with_policy(
        bus,
        I2C_Address::BMA456,
        None,
        None,
        FallbackPolicy::OnCommFailureOrUnknownId,
    )
    .unwrap();
    assert_eq!(handle.chip(), CHIP::BMA456);
    assert_eq!(handle.address(), I2C_Address::BMA456_ALTERNATIVE);
}

#[test]
fn falls_back_after_primary_comm_failure() {
    let mut bus = SimBus::new();
    bus.program(0b001_1000, CHIP_ID_OFFSET, Err(7));
    bus.program(0b001_1001, CHIP_ID_OFFSET, Ok(0x16));
    let handle = new_sim(bus, I2C_Address::BMA456).unwrap();
    assert_eq!(handle.chip(), CHIP::BMA456);
    assert_eq!(handle.address(), I2C_Address::BMA456_ALTERNATIVE);
}

#[test]
fn reports_last_failure_when_both_addresses_fail() {
    let mut bus = SimBus::new();
    bus.program(0b001_1000, CHIP_ID_OFFSET, Err(7));
    bus.program(0b001_1001, CHIP_ID_OFFSET, Err(9));
    let result = new_sim(bus, I2C_Address::BMA456);
    assert_eq!(result.err(), Some(Error::I2c(9)));
}

#[test]
fn unprogrammed_bus_fails_with_sim_error() {
    let bus = SimBus::new();
    let result = new_sim(bus, I2C_Address::BMA400);
    assert_eq!(result.err(), Some(Error::I2c(SIM_NO_ANSWER)));
}

#[test]
fn chip_id_reads_back_the_identity_byte() {
    let mut bus = SimBus::new();
    bus.program(0b001_0100, CHIP_ID_OFFSET, Ok(0x90));
    let mut handle = new_sim(bus, I2C_Address::BMA400).unwrap();
    assert_eq!(handle.read_register(Registers::CHIP_ID), Ok(0x90));
}

#[test]
fn chip_id_reads_back_at_the_fallback_address() {
    let mut bus = SimBus::new();
    bus.program(0b001_1000, CHIP_ID_OFFSET, Err(3));
    bus.program(0b001_1001, CHIP_ID_OFFSET, Ok(0x13));
    let mut handle = new_sim(bus, I2C_Address::BMA456).unwrap();
    assert_eq!(handle.read_register(Registers::CHIP_ID), Ok(0x13));
}

#[test]
fn read_register_returns_the_programmed_byte_verbatim() {
    let mut bus = SimBus::new();
    bus.program(0b001_1000, CHIP_ID_OFFSET, Ok(0x16));
    bus.program(0b001_1000, 0x22, Ok(0x5A));
    let mut handle = new_sim(bus, I2C_Address::BMA456).unwrap();
    assert_eq!(handle.read_register(Registers::TEMPERATURE), Ok(0x5A));
}

#[test]
fn read_register_propagates_the_transport_error() {
    let mut bus = SimBus::new();
    bus.program(0b001_1000, CHIP_ID_OFFSET, Ok(0x16));
    bus.program(0b001_1000, 0x7E, Err(5));
    let mut handle = new_sim(bus, I2C_Address::BMA456).unwrap();
    assert_eq!(handle.read_register(Registers::CMD), Err(Error::I2c(5)));
    assert_eq!(handle.read_register(Registers::ERR_REG), Err(Error::I2c(SIM_NO_ANSWER)));
}

#[test]
fn identically_programmed_transports_resolve_identically() {
    let mut bus1 = SimBus::new();
    bus1.program(0b001_1000, CHIP_ID_OFFSET, Err(7));
    bus1.program(0b001_1001, CHIP_ID_OFFSET, Ok(0x13));
    let mut bus2 = SimBus::new();
    bus2.program(0b001_1000, CHIP_ID_OFFSET, Err(7));
    bus2.program(0b001_1001, CHIP_ID_OFFSET, Ok(0x13));
    let handle1 = new_sim(bus1, I2C_Address::BMA456).unwrap();
    let handle2 = new_sim(bus2, I2C_Address::BMA456).unwrap();
    assert_eq!(handle1.chip(), handle2.chip());
    assert_eq!(handle1.address(), handle2.address());
}

#[test]
fn concrete_bma425_scenario() {
    let mut bus = SimBus::new();
    bus.program(0b0011000, 0x00, Ok(0x13));
    let handle = new_sim(bus, I2C_Address::BMA456).unwrap();
    assert_eq!(handle.chip(), CHIP::BMA425);
    assert_eq!(handle.address(), I2C_Address::BMA456);
    assert_eq!(handle.address().value(), 0b0011000);
}

#[test]
fn address_values_match_the_pin_strapping_table() {
    assert_eq!(I2C_Address::BMA400.value(), 0b001_0100);
    assert_eq!(I2C_Address::BMA400_ALTERNATIVE.value(), 0b001_0101);
    assert_eq!(I2C_Address::BMA456.value(), 0b001_1000);
    assert_eq!(I2C_Address::BMA456_ALTERNATIVE.value(), 0b001_1001);
}

#[test]
fn fallback_addresses_pair_within_each_family() {
    assert_eq!(I2C_Address::BMA400.fallback(), I2C_Address::BMA400_ALTERNATIVE);
    assert_eq!(I2C_Address::BMA400_ALTERNATIVE.fallback(), I2C_Address::BMA400);
    assert_eq!(I2C_Address::BMA456.fallback(), I2C_Address::BMA456_ALTERNATIVE);
    assert_eq!(I2C_Address::BMA456_ALTERNATIVE.fallback(), I2C_Address::BMA456);
}

#[test]
fn chip_identity_bytes_round_trip() {
    assert_eq!(CHIP::from_id(0x90), Some(CHIP::BMA400));
    assert_eq!(CHIP::from_id(0x16), Some(CHIP::BMA456));
    assert_eq!(CHIP::from_id(0x11), Some(CHIP::BMA421));
    assert_eq!(CHIP::from_id(0x13), Some(CHIP::BMA425));
    assert_eq!(CHIP::from_id(0x00), None);
    assert_eq!(CHIP::BMA400.id(), 0x90);
    assert_eq!(CHIP::BMA456.id(), 0x16);
    assert_eq!(CHIP::BMA421.id(), 0x11);
    assert_eq!(CHIP::BMA425.id(), 0x13);
}

#[test]
fn register_offsets_match_the_register_map() {
    assert_eq!(Registers::CHIP_ID.offset(), 0x00);
    assert_eq!(Registers::STATUS.offset(), 0x03);
    assert_eq!(Registers::TEMPERATURE.offset(), 0x22);
    assert_eq!(Registers::FIFO_DATA.offset(), 0x26);
    assert_eq!(Registers::ACC_CONF.offset(), 0x40);
    assert_eq!(Registers::PWR_CTRL.offset(), 0x7D);
    assert_eq!(Registers::CMD.offset(), 0x7E);
}

#[test]
fn sim_pin_reports_its_level() {
    let pin = SimPin { high: true };
    assert_eq!(pin.is_high(), Ok(true));
    assert_eq!(pin.is_low(), Ok(false));
}

#[test]
fn handle_keeps_the_supplied_interrupt_pins() {
    let mut bus = SimBus::new();
    bus.program(0b001_1000, CHIP_ID_OFFSET, Ok(0x16));
    let handle = BMA4xx::<SimBus, SimPin>::new(
        bus,
        I2C_Address::BMA456,
        Some(SimPin { high: true }),
        Some(SimPin { high: false }),
    )
    .unwrap();
    assert_eq!(handle.chip(), CHIP::BMA456);
}
