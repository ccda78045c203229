use vstd::prelude::*;

verus! {

/// The sensor's 7-bit I2C address.
pub const DEVICE_ADDRESS: u8 = 0x73;

/// The vendor id that a genuine GR10-30 reports.
pub const DEVICE_VID: u16 = 0x3343;

/// Input (read-only) registers.
#[allow(dead_code)]
#[derive(Clone, Copy, Debug, PartialEq, Eq, Structural)]
pub enum InputRegister {
    /// Device PID
    PID,
    /// VID of the device, fixed to be `0x3343`.
    VID,
    /// Device address of the module
    Addr,
    /// UART baud rate
    BaudRate,
    /// UART check bit and stop bit
    StopBit,
    /// Firmware version information
    Version,
    /// Data ready register
    DataReady,
    /// Gesture interrupt status
    InterruptState,
    /// Presence status
    InterruptRegExistsState,
}

impl InputRegister {
    /// The register's address on the device.
    pub open spec fn spec_address(self) -> u8 {
        match self {
            InputRegister::PID => 0x00,
            InputRegister::VID => 0x01,
            InputRegister::Addr => 0x02,
            InputRegister::BaudRate => 0x03,
            InputRegister::StopBit => 0x04,
            InputRegister::Version => 0x05,
            InputRegister::DataReady => 0x06,
            InputRegister::InterruptState => 0x07,
            InputRegister::InterruptRegExistsState => 0x08,
        }
    }

    /// The register's address on the device.
    #[verifier::when_used_as_spec(spec_address)]
    pub fn address(self) -> (a: u8)
        ensures
            a == self.spec_address(),
    {
        match self {
            InputRegister::PID => 0x00,
            InputRegister::VID => 0x01,
            InputRegister::Addr => 0x02,
            InputRegister::BaudRate => 0x03,
            InputRegister::StopBit => 0x04,
            InputRegister::Version => 0x05,
            InputRegister::DataReady => 0x06,
            InputRegister::InterruptState => 0x07,
            InputRegister::InterruptRegExistsState => 0x08,
        }
    }
}

/// Holding (writable) registers.
#[allow(dead_code)]
#[derive(Clone, Copy, Debug, PartialEq, Eq, Structural)]
pub enum HoldingRegister {
    /// The gesture that can trigger an interrupt
    InterruptMode,
    /// Detection window
    LeftRightUpWindow,
    /// The distance your hand should move to the left
    LeftRange,
    /// The distance your hand should move to the right
    RightRange,
    /// The distance your hand should move up
    UpRange,
    /// The distance your hand should move down
    DownRange,
    /// The distance your hand should move forward
    ForwardRange,
    /// The distance your hand should move backward
    BackwardRange,
    /// The times you need to wave hands
    WaveCount,
    /// Hover detection window
    HoverWindow,
    /// The duration your hand should hover
    HoverTimer,
    /// Clockwise rotation angle, each value equals 22.5 degrees
    CWSAngle,
    /// Counterclockwise rotation angle, each value equals 22.5 degrees
    CCWAngle,
    /// Continuous clockwise rotation angle, each value equals 22.5 degrees
    CWSAngleCount,
    /// Continuous counterclockwise rotation angle, each value equals 22.5 degrees
    CCWAngleCount,
    /// Reset sensor
    Reset,
}

impl HoldingRegister {
    /// The register's address on the device.
    pub open spec fn spec_address(self) -> u8 {
        match self {
            HoldingRegister::InterruptMode => 0x09,
            HoldingRegister::LeftRightUpWindow => 0x0a,
            HoldingRegister::LeftRange => 0x0b,
            HoldingRegister::RightRange => 0x0c,
            HoldingRegister::UpRange => 0x0d,
            HoldingRegister::DownRange => 0x0e,
            HoldingRegister::ForwardRange => 0x0f,
            HoldingRegister::BackwardRange => 0x10,
            HoldingRegister::WaveCount => 0x11,
            HoldingRegister::HoverWindow => 0x12,
            HoldingRegister::HoverTimer => 0x13,
            HoldingRegister::CWSAngle => 0x14,
            HoldingRegister::CCWAngle => 0x15,
            HoldingRegister::CWSAngleCount => 0x16,
            HoldingRegister::CCWAngleCount => 0x17,
            HoldingRegister::Reset => 0x18,
        }
    }

    /// The register's address on the device.
    #[verifier::when_used_as_spec(spec_address)]
    pub fn address(self) -> (a: u8)
        ensures
            a == self.spec_address(),
    {
        match self {
            HoldingRegister::InterruptMode => 0x09,
            HoldingRegister::LeftRightUpWindow => 0x0a,
            HoldingRegister::LeftRange => 0x0b,
            HoldingRegister::RightRange => 0x0c,
            HoldingRegister::UpRange => 0x0d,
            HoldingRegister::DownRange => 0x0e,
            HoldingRegister::ForwardRange => 0x0f,
            HoldingRegister::BackwardRange => 0x10,
            HoldingRegister::WaveCount => 0x11,
            HoldingRegister::HoverWindow => 0x12,
            HoldingRegister::HoverTimer => 0x13,
            HoldingRegister::CWSAngle => 0x14,
            HoldingRegister::CCWAngle => 0x15,
            HoldingRegister::CWSAngleCount => 0x16,
            HoldingRegister::CCWAngleCount => 0x17,
            HoldingRegister::Reset => 0x18,
        }
    }
}

/// The value of the two bytes read from a 16-bit register, the first
/// (most significant) one being `high`.
pub open spec fn spec_word(high: u8, low: u8) -> u16 {
    (high as int * 256 + low as int) as u16
}

/// Decodes the two bytes read from a 16-bit register, most significant byte first.
#[verifier::when_used_as_spec(spec_word)]
pub fn word(high: u8, low: u8) -> (w: u16)
    ensures
        w == spec_word(high, low),
        w as int == high as int * 256 + low as int,
{
    let w: u16 = (low as u16) | ((high as u16) << 8u16);
    assert(w as int == high as int * 256 + low as int) by (bit_vector)
        requires
            w == (low as u16) | ((high as u16) << 8u16),
    ;
    w
}

/// One exchange on the bus (always with `DEVICE_ADDRESS`), or a pause.
#[derive(Clone, Copy, Debug, PartialEq, Eq, Structural)]
pub enum Transfer {
    /// Write the three bytes `[register, value_1, value_2]`.
    Write { register: u8, value_1: u8, value_2: u8 },
    /// Write `[register]`, then read two bytes.
    ReadWord { register: u8 },
    /// Wait this many milliseconds.
    Pause { millis: u64 },
}

impl Transfer {
    /// The bytes sent to the device for this transfer.
    pub open spec fn spec_sent(self) -> Seq<u8> {
        match self {
            Transfer::Write { register, value_1, value_2 } => seq![register, value_1, value_2],
            Transfer::ReadWord { register } => seq![register],
            Transfer::Pause { .. } => seq![],
        }
    }

    /// The bytes sent to the device for this transfer.
    pub fn sent(&self) -> (bytes: Vec<u8>)
        ensures
            bytes@ == self.spec_sent(),
    {
        match *self {
            Transfer::Write { register, value_1, value_2 } => vec![register, value_1, value_2],
            Transfer::ReadWord { register } => vec![register],
            Transfer::Pause { .. } => Vec::new(),
        }
    }
}

/// Reading a register gives back the 16-bit value it was written with, most
/// significant byte first.
pub proof fn lemma_word_round_trip(value: u16)
    ensures
        spec_word((value / 256) as u8, (value % 256) as u8) == value,
{
}

/// A 16-bit register value is its first byte times 256 plus its second.
pub proof fn lemma_word_value(high: u8, low: u8)
    ensures
        spec_word(high, low) as int == high as int * 256 + low as int,
{
}

} // verus!
