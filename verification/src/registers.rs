use vstd::prelude::*;

verus! {

/// The chip's register space: each symbolic register name maps 1:1 to a
/// fixed one-byte address offset, reproduced from the vendor's register
/// map. Purely a lookup table; this core only ever reads CHIP_ID, but the
/// register-read primitive accepts any entry.
#[allow(non_camel_case_types)]
#[derive(Copy, Clone, Debug, PartialEq, Eq, Structural)]
pub enum Registers {
    CHIP_ID,
    ERR_REG,
    STATUS,
    DATA_0,
    DATA_1,
    DATA_2,
    DATA_3,
    DATA_4,
    DATA_5,
    DATA_6,
    DATA_7,
    DATA_8,
    DATA_9,
    DATA_10,
    DATA_11,
    DATA_12,
    DATA_13,
    SENSOR_TIME_0,
    SENSOR_TIME_1,
    SENSOR_TIME_2,
    EVENT,
    INT_STATUS_0,
    INT_STATUS_1,
    STEP_COUNTER_0,
    STEP_COUNTER_1,
    STEP_COUNTER_2,
    STEP_COUNTER_3,
    TEMPERATURE,
    FIFO_LENGTH_0,
    FIFO_LENGTH_1,
    FIFO_DATA,
    ACTIVITY_TYPE,
    INTERNAL_STATUS,
    ACC_CONF,
    ACC_RANGE,
    AUX_CONF,
    FIFO_DOWNS,
    FIFO_WTM_0,
    FIFO_WTM_1,
    FIFO_CONFIG_0,
    FIFO_CONFIG_1,
    AUX_DEV_ID,
    AUX_IF_CONF,
    AUX_RD_ADDR,
    AUX_WR_ADDR,
    AUX_WR_DATA,
    INT1_IO_CTRL,
    INT2_IO_CTRL,
    INT_LATCH,
    INT1_MAP,
    INT2_MAP,
    INT_MAP_DATA,
    INIT_CTRL,
    FEATURES_IN,
    INTERNAL_ERROR,
    NVM_CONF,
    IF_CONF,
    ACC_SELF_TEST,
    NV_CONF,
    OFFSET_0,
    OFFSET_1,
    OFFSET_2,
    PWR_CONF,
    PWR_CTRL,
    CMD,
}

impl Registers {
    /// The one-byte address offset of this register in the chip's
    /// register space.
    pub open spec fn spec_offset(self) -> u8 {
        match self {
            Registers::CHIP_ID => 0x00,
            Registers::ERR_REG => 0x02,
            Registers::STATUS => 0x03,
            Registers::DATA_0 => 0x0A,
            Registers::DATA_1 => 0x0B,
            Registers::DATA_2 => 0x0C,
            Registers::DATA_3 => 0x0D,
            Registers::DATA_4 => 0x0E,
            Registers::DATA_5 => 0x0F,
            Registers::DATA_6 => 0x10,
            Registers::DATA_7 => 0x11,
            Registers::DATA_8 => 0x12,
            Registers::DATA_9 => 0x13,
            Registers::DATA_10 => 0x14,
            Registers::DATA_11 => 0x15,
            Registers::DATA_12 => 0x16,
            Registers::DATA_13 => 0x17,
            Registers::SENSOR_TIME_0 => 0x18,
            Registers::SENSOR_TIME_1 => 0x19,
            Registers::SENSOR_TIME_2 => 0x1A,
            Registers::EVENT => 0x1B,
            Registers::INT_STATUS_0 => 0x1C,
            Registers::INT_STATUS_1 => 0x1D,
            Registers::STEP_COUNTER_0 => 0x1E,
            Registers::STEP_COUNTER_1 => 0x1F,
            Registers::STEP_COUNTER_2 => 0x20,
            Registers::STEP_COUNTER_3 => 0x21,
            Registers::TEMPERATURE => 0x22,
            Registers::FIFO_LENGTH_0 => 0x24,
            Registers::FIFO_LENGTH_1 => 0x25,
            Registers::FIFO_DATA => 0x26,
            Registers::ACTIVITY_TYPE => 0x27,
            Registers::INTERNAL_STATUS => 0x2A,
            Registers::ACC_CONF => 0x40,
            Registers::ACC_RANGE => 0x41,
            Registers::AUX_CONF => 0x44,
            Registers::FIFO_DOWNS => 0x45,
            Registers::FIFO_WTM_0 => 0x46,
            Registers::FIFO_WTM_1 => 0x47,
            Registers::FIFO_CONFIG_0 => 0x48,
            Registers::FIFO_CONFIG_1 => 0x49,
            Registers::AUX_DEV_ID => 0x4B,
            Registers::AUX_IF_CONF => 0x4C,
            Registers::AUX_RD_ADDR => 0x4D,
            Registers::AUX_WR_ADDR => 0x4E,
            Registers::AUX_WR_DATA => 0x4F,
            Registers::INT1_IO_CTRL => 0x53,
            Registers::INT2_IO_CTRL => 0x54,
            Registers::INT_LATCH => 0x55,
            Registers::INT1_MAP => 0x56,
            Registers::INT2_MAP => 0x57,
            Registers::INT_MAP_DATA => 0x58,
            Registers::INIT_CTRL => 0x59,
            Registers::FEATURES_IN => 0x5E,
            Registers::INTERNAL_ERROR => 0x5F,
            Registers::NVM_CONF => 0x6A,
            Registers::IF_CONF => 0x6B,
            Registers::ACC_SELF_TEST => 0x6D,
            Registers::NV_CONF => 0x70,
            Registers::OFFSET_0 => 0x71,
            Registers::OFFSET_1 => 0x72,
            Registers::OFFSET_2 => 0x73,
            Registers::PWR_CONF => 0x7C,
            Registers::PWR_CTRL => 0x7D,
            Registers::CMD => 0x7E,
        }
    }

    /// The one-byte address offset of this register in the chip's
    /// register space.
    #[verifier::when_used_as_spec(spec_offset)]
    pub fn offset(self) -> (r: u8)
        ensures
            r == self.spec_offset(),
    {
        match self {
            Registers::CHIP_ID => 0x00,
            Registers::ERR_REG => 0x02,
            Registers::STATUS => 0x03,
            Registers::DATA_0 => 0x0A,
            Registers::DATA_1 => 0x0B,
            Registers::DATA_2 => 0x0C,
            Registers::DATA_3 => 0x0D,
            Registers::DATA_4 => 0x0E,
            Registers::DATA_5 => 0x0F,
            Registers::DATA_6 => 0x10,
            Registers::DATA_7 => 0x11,
            Registers::DATA_8 => 0x12,
            Registers::DATA_9 => 0x13,
            Registers::DATA_10 => 0x14,
            Registers::DATA_11 => 0x15,
            Registers::DATA_12 => 0x16,
            Registers::DATA_13 => 0x17,
            Registers::SENSOR_TIME_0 => 0x18,
            Registers::SENSOR_TIME_1 => 0x19,
            Registers::SENSOR_TIME_2 => 0x1A,
            Registers::EVENT => 0x1B,
            Registers::INT_STATUS_0 => 0x1C,
            Registers::INT_STATUS_1 => 0x1D,
            Registers::STEP_COUNTER_0 => 0x1E,
            Registers::STEP_COUNTER_1 => 0x1F,
            Registers::STEP_COUNTER_2 => 0x20,
            Registers::STEP_COUNTER_3 => 0x21,
            Registers::TEMPERATURE => 0x22,
            Registers::FIFO_LENGTH_0 => 0x24,
            Registers::FIFO_LENGTH_1 => 0x25,
            Registers::FIFO_DATA => 0x26,
            Registers::ACTIVITY_TYPE => 0x27,
            Registers::INTERNAL_STATUS => 0x2A,
            Registers::ACC_CONF => 0x40,
            Registers::ACC_RANGE => 0x41,
            Registers::AUX_CONF => 0x44,
            Registers::FIFO_DOWNS => 0x45,
            Registers::FIFO_WTM_0 => 0x46,
            Registers::FIFO_WTM_1 => 0x47,
            Registers::FIFO_CONFIG_0 => 0x48,
            Registers::FIFO_CONFIG_1 => 0x49,
            Registers::AUX_DEV_ID => 0x4B,
            Registers::AUX_IF_CONF => 0x4C,
            Registers::AUX_RD_ADDR => 0x4D,
            Registers::AUX_WR_ADDR => 0x4E,
            Registers::AUX_WR_DATA => 0x4F,
            Registers::INT1_IO_CTRL => 0x53,
            Registers::INT2_IO_CTRL => 0x54,
            Registers::INT_LATCH => 0x55,
            Registers::INT1_MAP => 0x56,
            Registers::INT2_MAP => 0x57,
            Registers::INT_MAP_DATA => 0x58,
            Registers::INIT_CTRL => 0x59,
            Registers::FEATURES_IN => 0x5E,
            Registers::INTERNAL_ERROR => 0x5F,
            Registers::NVM_CONF => 0x6A,
            Registers::IF_CONF => 0x6B,
            Registers::ACC_SELF_TEST => 0x6D,
            Registers::NV_CONF => 0x70,
            Registers::OFFSET_0 => 0x71,
            Registers::OFFSET_1 => 0x72,
            Registers::OFFSET_2 => 0x73,
            Registers::PWR_CONF => 0x7C,
            Registers::PWR_CTRL => 0x7D,
            Registers::CMD => 0x7E,
        }
    }
}

} // verus!
