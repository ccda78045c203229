use vstd::prelude::*;
use super::gesture::Gesture;
use super::registers::{spec_word, word, HoldingRegister, InputRegister, Transfer, DEVICE_VID};

verus! {

/// All possible errors of the driver.
#[derive(Debug)]
pub enum Error<E> {
    /// I2C bus error
    I2C(E),
    /// Invalid VID.
    InvalidVID,
}

/// What the bus answered to the last transfer that the driver asked for.
#[derive(Clone, Copy, Debug, PartialEq, Eq, Structural)]
pub enum Reply {
    /// A `Transfer::Write` went through.
    Written,
    /// The two bytes that a `Transfer::ReadWord` read, in the order received.
    Word(u8, u8),
    /// A `Transfer::Pause` is over.
    Waited,
    /// The transfer failed on the bus.
    Failed,
}

/// The result of a finished operation.
#[derive(Clone, Copy, Debug, PartialEq, Eq, Structural)]
pub enum Outcome {
    /// A configuration write went through.
    Done,
    /// The answer to a yes/no query.
    Flag(bool),
    /// A 16-bit register value.
    Value(u16),
    /// The gestures in the interrupt-state register.
    Detected(Gesture),
    /// The gestures, if the sensor had data ready.
    Checked(Option<Gesture>),
}

/// What the driver asks of its runner next.
#[derive(Clone, Copy, Debug, PartialEq, Eq, Structural)]
pub enum Step {
    /// Carry out this transfer and resume the driver with its reply.
    Perform(Transfer),
    /// The operation is over with this outcome.
    Finish(Outcome),
    /// The sensor reported a vendor id other than `DEVICE_VID`.
    InvalidVid,
    /// A transfer failed on the bus; the operation is dropped.
    BusError,
    /// The reply did not answer the transfer that was asked for (or none was
    /// pending); the operation is dropped.
    Stray,
}

/// Where the start-up sequence stands: which transfer it waits on.
#[derive(Clone, Copy, Debug, PartialEq, Eq, Structural)]
pub enum SetUpStage {
    /// The reset write.
    Resetting,
    /// The pause after the reset.
    SettlingAfterReset,
    /// The read of the vendor id.
    CheckingVid,
    /// The write of the gesture mask.
    Enabling,
    /// The pause after enabling.
    SettlingAfterEnable,
    /// The write of the detection window.
    SettingWindow,
    /// The write of the left range.
    SettingLeftRange,
    /// The write of the right range.
    SettingRightRange,
}

/// The operation in progress, which determines the reply awaited.
#[derive(Clone, Copy, Debug, PartialEq, Eq, Structural)]
pub enum Operation {
    /// Nothing in progress.
    Idle,
    /// A single register write; finishes with `Outcome::Done`.
    Writing,
    /// `get_vid`: finishes with the word read.
    ReadingVid,
    /// `validate_vid`: finishes with whether the word read is `DEVICE_VID`.
    ValidatingVid,
    /// `is_data_ready`: finishes with whether the word read is 1.
    ReadingDataReady,
    /// `gesture`: finishes with the gestures of the word read.
    ReadingGesture,
    /// `object_in_range`: finishes with whether the byte read is 1.
    ReadingPresence,
    /// `check_and_get_gesture`, reading the data-ready register.
    CheckingReady,
    /// `check_and_get_gesture`, reading the interrupt-state register.
    FetchingGesture,
    /// `set_up` with the gestures to enable, at the given stage.
    SetUp { stage: SetUpStage, gestures: Gesture },
}

/// The write that resets the sensor.
pub open spec fn reset_transfer() -> Transfer {
    Transfer::Write { register: HoldingRegister::Reset.spec_address(), value_1: 0x55, value_2: 0x00 }
}

/// The write that enables the gestures of `mask`: the high byte keeps bits
/// 0, 1, 2, 6 and 7 (gesture bits 8, 9, 10, 14 and 15), the low byte is kept whole.
pub open spec fn enable_transfer(mask: u16) -> Transfer {
    Transfer::Write {
        register: HoldingRegister::InterruptMode.spec_address(),
        value_1: ((mask >> 8u16) & 0xC7u16) as u8,
        value_2: (mask & 0x00ffu16) as u8,
    }
}

/// The write of the detection window; each side keeps its low five bits.
pub open spec fn window_transfer(width: u8, height: u8) -> Transfer {
    Transfer::Write {
        register: HoldingRegister::LeftRightUpWindow.spec_address(),
        value_1: width & 0x1f,
        value_2: height & 0x1f,
    }
}

/// The write of the distance a hand moves left.
pub open spec fn left_range_transfer(range: u8) -> Transfer {
    Transfer::Write { register: HoldingRegister::LeftRange.spec_address(), value_1: 0, value_2: range }
}

/// The write of the distance a hand moves right.
pub open spec fn right_range_transfer(range: u8) -> Transfer {
    Transfer::Write { register: HoldingRegister::RightRange.spec_address(), value_1: 0, value_2: range }
}

/// The read of a 16-bit input register.
pub open spec fn read_word_transfer(register: InputRegister) -> Transfer {
    Transfer::ReadWord { register: register.spec_address() }
}

/// How long the sensor is given to settle after a reset and after enabling gestures.
pub open spec fn settle_transfer() -> Transfer {
    Transfer::Pause { millis: 500 }
}

/// The transfer that a start-up stage waits on.
pub open spec fn set_up_transfer(stage: SetUpStage, gestures: Gesture) -> Transfer {
    match stage {
        SetUpStage::Resetting => reset_transfer(),
        SetUpStage::SettlingAfterReset => settle_transfer(),
        SetUpStage::CheckingVid => read_word_transfer(InputRegister::VID),
        SetUpStage::Enabling => enable_transfer(gestures@),
        SetUpStage::SettlingAfterEnable => settle_transfer(),
        SetUpStage::SettingWindow => window_transfer(20, 20),
        SetUpStage::SettingLeftRange => left_range_transfer(10),
        SetUpStage::SettingRightRange => right_range_transfer(10),
    }
}

/// The reply that answers a transfer of the same kind.
pub open spec fn answers(transfer: Transfer, reply: Reply) -> bool {
    match transfer {
        Transfer::Write { .. } => reply is Written,
        Transfer::ReadWord { .. } => reply is Word,
        Transfer::Pause { .. } => reply is Waited,
    }
}

/// A reply with a vendor id other than `DEVICE_VID`.
pub open spec fn reports_foreign_vid(reply: Reply) -> bool {
    match reply {
        Reply::Word(high, low) => spec_word(high, low) != DEVICE_VID,
        _ => false,
    }
}

/// The start-up stage after `stage`, for the stages that do not decide anything.
pub open spec fn stage_after(stage: SetUpStage) -> SetUpStage {
    match stage {
        SetUpStage::Resetting => SetUpStage::SettlingAfterReset,
        SetUpStage::SettlingAfterReset => SetUpStage::CheckingVid,
        SetUpStage::CheckingVid => SetUpStage::Enabling,
        SetUpStage::Enabling => SetUpStage::SettlingAfterEnable,
        SetUpStage::SettlingAfterEnable => SetUpStage::SettingWindow,
        SetUpStage::SettingWindow => SetUpStage::SettingLeftRange,
        SetUpStage::SettingLeftRange => SetUpStage::SettingRightRange,
        SetUpStage::SettingRightRange => SetUpStage::SettingRightRange,
    }
}

/// How the driver moves on when `reply` answers the transfer that `op` waits on:
/// the next operation state and the step asked of the runner.
pub open spec fn next(op: Operation, reply: Reply) -> (Operation, Step) {
    if op == Operation::Idle {
        (Operation::Idle, Step::Stray)
    } else if reply is Failed {
        (Operation::Idle, Step::BusError)
    } else {
        next_answered(op, reply)
    }
}

/// How the driver moves on from `op` when the transfer went through with `reply`.
pub open spec fn next_answered(op: Operation, reply: Reply) -> (Operation, Step) {
    match op {
        Operation::Idle => (Operation::Idle, Step::Stray),
        Operation::Writing => match reply {
            Reply::Written => (Operation::Idle, Step::Finish(Outcome::Done)),
            _ => (Operation::Idle, Step::Stray),
        },
        Operation::ReadingVid => match reply {
            Reply::Word(high, low) => (Operation::Idle, Step::Finish(Outcome::Value(spec_word(high, low)))),
            _ => (Operation::Idle, Step::Stray),
        },
        Operation::ValidatingVid => match reply {
            Reply::Word(high, low) => (Operation::Idle, Step::Finish(Outcome::Flag(spec_word(high, low) == DEVICE_VID))),
            _ => (Operation::Idle, Step::Stray),
        },
        Operation::ReadingDataReady => match reply {
            Reply::Word(high, low) => (Operation::Idle, Step::Finish(Outcome::Flag(spec_word(high, low) == 1))),
            _ => (Operation::Idle, Step::Stray),
        },
        Operation::ReadingGesture => match reply {
            Reply::Word(high, low) => (
                Operation::Idle,
                Step::Finish(Outcome::Detected(Gesture::spec_from_bits(spec_word(high, low)))),
            ),
            _ => (Operation::Idle, Step::Stray),
        },
        Operation::ReadingPresence => match reply {
            Reply::Word(_, low) => (Operation::Idle, Step::Finish(Outcome::Flag(low == 1))),
            _ => (Operation::Idle, Step::Stray),
        },
        Operation::CheckingReady => match reply {
            Reply::Word(high, low) => if spec_word(high, low) == 1 {
                (Operation::FetchingGesture, Step::Perform(read_word_transfer(InputRegister::InterruptState)))
            } else {
                (Operation::Idle, Step::Finish(Outcome::Checked(None)))
            },
            _ => (Operation::Idle, Step::Stray),
        },
        Operation::FetchingGesture => match reply {
            Reply::Word(high, low) => (
                Operation::Idle,
                Step::Finish(Outcome::Checked(Some(Gesture::spec_from_bits(spec_word(high, low))))),
            ),
            _ => (Operation::Idle, Step::Stray),
        },
        Operation::SetUp { stage, gestures } => {
            if !answers(set_up_transfer(stage, gestures), reply) {
                (Operation::Idle, Step::Stray)
            } else if stage == SetUpStage::SettingRightRange {
                (Operation::Idle, Step::Finish(Outcome::Done))
            } else if stage == SetUpStage::CheckingVid && reports_foreign_vid(reply) {
                (Operation::Idle, Step::InvalidVid)
            } else {
                let s = stage_after(stage);
                (Operation::SetUp { stage: s, gestures }, Step::Perform(set_up_transfer(s, gestures)))
            }
        },
    }
}

/// Whether `op` is waiting on `transfer`: the reply that answers `transfer`
/// is the one `op` expects.
pub open spec fn waits_on(op: Operation, transfer: Transfer) -> bool {
    match op {
        Operation::Idle => false,
        Operation::Writing => transfer is Write,
        Operation::SetUp { stage, gestures } => transfer == set_up_transfer(stage, gestures),
        _ => transfer is ReadWord,
    }
}

/// GR10-30 device driver: the bus it talks over and the operation in progress.
///
/// Each operation starts with a method that returns the first `Step`; the
/// runner carries out each `Step::Perform` on the bus and hands the reply to
/// `resume`, until the step is `Finish`, `InvalidVid`, `BusError` or `Stray`.
#[derive(Debug)]
pub struct GR1030<I2C> {
    /// The concrete I2C device implementation.
    i2c: I2C,
    op: Operation,
}

impl<I2C> GR1030<I2C> {
    /// The bus the driver talks over.
    pub closed spec fn bus(&self) -> I2C {
        self.i2c
    }

    /// The operation in progress.
    pub closed spec fn operation(&self) -> Operation {
        self.op
    }

    /// Create new instance of the GR10-30 device.
    pub fn new(i2c: I2C) -> (d: Self)
        ensures
            d.bus() == i2c,
            d.operation() == Operation::Idle,
    {
        GR1030 { i2c, op: Operation::Idle }
    }

    /// Destroy driver instance, return I2C bus instance.
    pub fn destroy(self) -> (i2c: I2C)
        ensures
            i2c == self.bus(),
    {
        self.i2c
    }

    /// The bus, for the runner to carry out transfers on.
    pub fn bus_mut(&mut self) -> (b: &mut I2C)
        ensures
            *b == old(self).bus(),
            final(self).bus() == *final(b),
            final(self).operation() == old(self).operation(),
    {
        &mut self.i2c
    }

    /// Starts an operation: records it and asks for its first transfer.
    fn start(&mut self, op: Operation, transfer: Transfer) -> (s: Step)
        ensures
            s == Step::Perform(transfer),
            final(self).operation() == op,
            final(self).bus() == old(self).bus(),
    {
        self.op = op;
        Step::Perform(transfer)
    }

    /// Resets the sensor.
    pub fn reset(&mut self) -> (s: Step)
        ensures
            s == Step::Perform(reset_transfer()),
            final(self).operation() == Operation::Writing,
            final(self).bus() == old(self).bus(),
    {
        self.start(
            Operation::Writing,
            Transfer::Write { register: HoldingRegister::Reset.address(), value_1: 0x55, value_2: 0x00 },
        )
    }

    /// Set what gestures the module can recognize to trigger interrupts.
    pub fn enable_gestures(&mut self, gestures: Gesture) -> (s: Step)
        ensures
            s == Step::Perform(enable_transfer(gestures@)),
            final(self).operation() == Operation::Writing,
            final(self).bus() == old(self).bus(),
    {
        let t = Self::enable_gestures_write(gestures);
        self.start(Operation::Writing, t)
    }

    fn enable_gestures_write(gestures: Gesture) -> (t: Transfer)
        ensures
            t == enable_transfer(gestures@),
    {
        let mask: u16 = gestures.bits();
        let value_1: u8 = ((mask >> 8u16) & 0xC7u16) as u8;
        let value_2: u8 = (mask & 0x00ffu16) as u8;
        Transfer::Write { register: HoldingRegister::InterruptMode.address(), value_1, value_2 }
    }

    /// Set the detection window: `width` is the distance from left to right and
    /// `height` from top to bottom (range 1-30); each keeps its low five bits.
    pub fn set_detection_window(&mut self, width: u8, height: u8) -> (s: Step)
        ensures
            s == Step::Perform(window_transfer(width, height)),
            final(self).operation() == Operation::Writing,
            final(self).bus() == old(self).bus(),
    {
        let value_1: u8 = width & 0x1f;
        let value_2: u8 = height & 0x1f;
        self.start(
            Operation::Writing,
            Transfer::Write { register: HoldingRegister::LeftRightUpWindow.address(), value_1, value_2 },
        )
    }

    /// Set how far your hand should move to the left so the sensor can recognize it.
    /// Distance range 5-25, must be less than distance from left to right of the detection window
    pub fn set_left_range(&mut self, range: u8) -> (s: Step)
        ensures
            s == Step::Perform(left_range_transfer(range)),
            final(self).operation() == Operation::Writing,
            final(self).bus() == old(self).bus(),
    {
        self.start(
            Operation::Writing,
            Transfer::Write { register: HoldingRegister::LeftRange.address(), value_1: 0, value_2: range },
        )
    }

    /// Set how far your hand should move to the right so the sensor can recognize it.
    /// Distance range 5-25, must be less than distance from right to left of the detection window
    pub fn set_right_range(&mut self, range: u8) -> (s: Step)
        ensures
            s == Step::Perform(right_range_transfer(range)),
            final(self).operation() == Operation::Writing,
            final(self).bus() == old(self).bus(),
    {
        self.start(
            Operation::Writing,
            Transfer::Write { register: HoldingRegister::RightRange.address(), value_1: 0, value_2: range },
        )
    }

    /// Reads the VID.
    pub fn get_vid(&mut self) -> (s: Step)
        ensures
            s == Step::Perform(read_word_transfer(InputRegister::VID)),
            final(self).operation() == Operation::ReadingVid,
            final(self).bus() == old(self).bus(),
    {
        self.start(Operation::ReadingVid, Transfer::ReadWord { register: InputRegister::VID.address() })
    }

    /// Checks if the VID is 0x3343.
    pub fn validate_vid(&mut self) -> (s: Step)
        ensures
            s == Step::Perform(read_word_transfer(InputRegister::VID)),
            final(self).operation() == Operation::ValidatingVid,
            final(self).bus() == old(self).bus(),
    {
        self.start(Operation::ValidatingVid, Transfer::ReadWord { register: InputRegister::VID.address() })
    }

    /// Get if a gesture is detected: the outcome is `true` if the data-ready
    /// register reads 1, `false` otherwise.
    pub fn is_data_ready(&mut self) -> (s: Step)
        ensures
            s == Step::Perform(read_word_transfer(InputRegister::DataReady)),
            final(self).operation() == Operation::ReadingDataReady,
            final(self).bus() == old(self).bus(),
    {
        self.start(
            Operation::ReadingDataReady,
            Transfer::ReadWord { register: InputRegister::DataReady.address() },
        )
    }

    /// Get gesture type
    pub fn gesture(&mut self) -> (s: Step)
        ensures
            s == Step::Perform(read_word_transfer(InputRegister::InterruptState)),
            final(self).operation() == Operation::ReadingGesture,
            final(self).bus() == old(self).bus(),
    {
        self.start(
            Operation::ReadingGesture,
            Transfer::ReadWord { register: InputRegister::InterruptState.address() },
        )
    }

    /// Checks if data is ready and if yes, reads the detected gesture.
    pub fn check_and_get_gesture(&mut self) -> (s: Step)
        ensures
            s == Step::Perform(read_word_transfer(InputRegister::DataReady)),
            final(self).operation() == Operation::CheckingReady,
            final(self).bus() == old(self).bus(),
    {
        self.start(
            Operation::CheckingReady,
            Transfer::ReadWord { register: InputRegister::DataReady.address() },
        )
    }

    /// Get whether an object is in the sensor detection range: the presence
    /// register is read as two bytes, and its value is the second (low) byte,
    /// which reads 1 when an object is present.
    pub fn object_in_range(&mut self) -> (s: Step)
        ensures
            s == Step::Perform(read_word_transfer(InputRegister::InterruptRegExistsState)),
            final(self).operation() == Operation::ReadingPresence,
            final(self).bus() == old(self).bus(),
    {
        self.start(
            Operation::ReadingPresence,
            Transfer::ReadWord { register: InputRegister::InterruptRegExistsState.address() },
        )
    }

    /// Brings the sensor up: reset, settle, check the vendor id, enable
    /// `gestures`, settle, then set a 20 by 20 detection window and left and
    /// right ranges of 10.
    pub fn set_up(&mut self, gestures: Gesture) -> (s: Step)
        ensures
            s == Step::Perform(reset_transfer()),
            final(self).operation() == (Operation::SetUp { stage: SetUpStage::Resetting, gestures }),
            final(self).bus() == old(self).bus(),
    {
        self.start(
            Operation::SetUp { stage: SetUpStage::Resetting, gestures },
            Transfer::Write { register: HoldingRegister::Reset.address(), value_1: 0x55, value_2: 0x00 },
        )
    }

    /// The transfer that a start-up stage waits on.
    fn set_up_transfer_of(stage: SetUpStage, gestures: Gesture) -> (t: Transfer)
        ensures
            t == set_up_transfer(stage, gestures),
    {
        match stage {
            SetUpStage::Resetting => Transfer::Write {
                register: HoldingRegister::Reset.address(),
                value_1: 0x55,
                value_2: 0x00,
            },
            SetUpStage::SettlingAfterReset => Transfer::Pause { millis: 500 },
            SetUpStage::CheckingVid => Transfer::ReadWord { register: InputRegister::VID.address() },
            SetUpStage::Enabling => Self::enable_gestures_write(gestures),
            SetUpStage::SettlingAfterEnable => Transfer::Pause { millis: 500 },
            SetUpStage::SettingWindow => Transfer::Write {
                register: HoldingRegister::LeftRightUpWindow.address(),
                value_1: 20u8 & 0x1f,
                value_2: 20u8 & 0x1f,
            },
            SetUpStage::SettingLeftRange => Transfer::Write {
                register: HoldingRegister::LeftRange.address(),
                value_1: 0,
                value_2: 10,
            },
            SetUpStage::SettingRightRange => Transfer::Write {
                register: HoldingRegister::RightRange.address(),
                value_1: 0,
                value_2: 10,
            },
        }
    }

    /// Hands the driver the reply to its last transfer and returns what it asks next.
    pub fn resume(&mut self, reply: Reply) -> (s: Step)
        ensures
            (final(self).operation(), s) == next(old(self).operation(), reply),
            final(self).bus() == old(self).bus(),
    {
        let op = self.op;
        self.op = Operation::Idle;
        if let Operation::Idle = op {
            return Step::Stray;
        }
        if let Reply::Failed = reply {
            return Step::BusError;
        }
        match op {
            Operation::Idle => Step::Stray,
            Operation::Writing => match reply {
                Reply::Written => Step::Finish(Outcome::Done),
                _ => Step::Stray,
            },
            Operation::ReadingVid => match reply {
                Reply::Word(high, low) => Step::Finish(Outcome::Value(word(high, low))),
                _ => Step::Stray,
            },
            Operation::ValidatingVid => match reply {
                Reply::Word(high, low) => Step::Finish(Outcome::Flag(word(high, low) == DEVICE_VID)),
                _ => Step::Stray,
            },
            Operation::ReadingDataReady => match reply {
                Reply::Word(high, low) => Step::Finish(Outcome::Flag(word(high, low) == 1)),
                _ => Step::Stray,
            },
            Operation::ReadingGesture => match reply {
                Reply::Word(high, low) => Step::Finish(
                    Outcome::Detected(Gesture::from_bits(word(high, low))),
                ),
                _ => Step::Stray,
            },
            Operation::ReadingPresence => match reply {
                Reply::Word(_, low) => Step::Finish(Outcome::Flag(low == 1)),
                _ => Step::Stray,
            },
            Operation::CheckingReady => match reply {
                Reply::Word(high, low) => {
                    if word(high, low) == 1 {
                        self.op = Operation::FetchingGesture;
                        Step::Perform(Transfer::ReadWord { register: InputRegister::InterruptState.address() })
                    } else {
                        Step::Finish(Outcome::Checked(None))
                    }
                },
                _ => Step::Stray,
            },
            Operation::FetchingGesture => match reply {
                Reply::Word(high, low) => Step::Finish(
                    Outcome::Checked(Some(Gesture::from_bits(word(high, low)))),
                ),
                _ => Step::Stray,
            },
            Operation::SetUp { stage, gestures } => self.advance_set_up(stage, gestures, reply),
        }
    }

    fn advance_set_up(&mut self, stage: SetUpStage, gestures: Gesture, reply: Reply) -> (s: Step)
        requires
            old(self).operation() == Operation::Idle,
            !(reply is Failed),
        ensures
            (final(self).operation(), s) == next(Operation::SetUp { stage, gestures }, reply),
            final(self).bus() == old(self).bus(),
    {
        let answered = match reply {
            Reply::Written => match stage {
                SetUpStage::Resetting | SetUpStage::Enabling | SetUpStage::SettingWindow
                | SetUpStage::SettingLeftRange | SetUpStage::SettingRightRange => true,
                _ => false,
            },
            Reply::Waited => match stage {
                SetUpStage::SettlingAfterReset | SetUpStage::SettlingAfterEnable => true,
                _ => false,
            },
            Reply::Word(_, _) => match stage {
                SetUpStage::CheckingVid => true,
                _ => false,
            },
            Reply::Failed => false,
        };
        if !answered {
            return Step::Stray;
        }
        let foreign_vid = match reply {
            Reply::Word(high, low) => word(high, low) != DEVICE_VID,
            _ => false,
        };
        match stage {
            SetUpStage::SettingRightRange => Step::Finish(Outcome::Done),
            SetUpStage::CheckingVid if foreign_vid => Step::InvalidVid,
            _ => {
                let s = match stage {
                    SetUpStage::Resetting => SetUpStage::SettlingAfterReset,
                    SetUpStage::SettlingAfterReset => SetUpStage::CheckingVid,
                    SetUpStage::CheckingVid => SetUpStage::Enabling,
                    SetUpStage::Enabling => SetUpStage::SettlingAfterEnable,
                    SetUpStage::SettlingAfterEnable => SetUpStage::SettingWindow,
                    SetUpStage::SettingWindow => SetUpStage::SettingLeftRange,
                    SetUpStage::SettingLeftRange => SetUpStage::SettingRightRange,
                    SetUpStage::SettingRightRange => SetUpStage::SettingRightRange,
                };
                self.op = Operation::SetUp { stage: s, gestures };
                Step::Perform(Self::set_up_transfer_of(s, gestures))
            },
        }
    }
}

} // verus!

verus! {

/// The steps the driver asks for when, starting in `op`, it is handed `replies` in turn.
pub open spec fn replay(op: Operation, replies: Seq<Reply>) -> Seq<Step>
    decreases replies.len(),
{
    if replies.len() == 0 {
        Seq::empty()
    } else {
        let (op2, s) = next(op, replies[0]);
        seq![s] + replay(op2, replies.drop_first())
    }
}

/// The state the driver is in after it has been handed `replies` in turn, starting in `op`.
pub open spec fn settle(op: Operation, replies: Seq<Reply>) -> Operation
    decreases replies.len(),
{
    if replies.len() == 0 {
        op
    } else {
        settle(next(op, replies[0]).0, replies.drop_first())
    }
}

/// Whenever the driver does not ask for another transfer, the operation is
/// over and the driver is idle; and an idle driver asks for nothing.
pub proof fn lemma_finished_means_idle(op: Operation, reply: Reply)
    ensures
        !(next(op, reply).1 is Perform) ==> next(op, reply).0 == Operation::Idle,
        next(op, reply).1 is Perform ==> op != Operation::Idle,
        next(Operation::Idle, reply) == (Operation::Idle, Step::Stray),
{
}


/// A failed bus transfer ends any operation in progress at once: the driver
/// asks for nothing more, reports `BusError` and is idle.
pub proof fn lemma_failure_stops(op: Operation)
    requires
        op != Operation::Idle,
    ensures
        next(op, Reply::Failed) == (Operation::Idle, Step::BusError),
{
}

/// Every operation, as started, waits on the transfer it asks for.
pub proof fn lemma_started_operations_wait(gestures: Gesture, width: u8, height: u8, range: u8)
    ensures
        waits_on(Operation::Writing, reset_transfer()),
        waits_on(Operation::Writing, enable_transfer(gestures@)),
        waits_on(Operation::Writing, window_transfer(width, height)),
        waits_on(Operation::Writing, left_range_transfer(range)),
        waits_on(Operation::Writing, right_range_transfer(range)),
        waits_on(Operation::ReadingVid, read_word_transfer(InputRegister::VID)),
        waits_on(Operation::ValidatingVid, read_word_transfer(InputRegister::VID)),
        waits_on(Operation::ReadingDataReady, read_word_transfer(InputRegister::DataReady)),
        waits_on(Operation::ReadingGesture, read_word_transfer(InputRegister::InterruptState)),
        waits_on(Operation::ReadingPresence, read_word_transfer(InputRegister::InterruptRegExistsState)),
        waits_on(Operation::CheckingReady, read_word_transfer(InputRegister::DataReady)),
        waits_on(Operation::SetUp { stage: SetUpStage::Resetting, gestures }, reset_transfer()),
{
}

/// A runner that answers each transfer with a reply of its kind (or a
/// failure) never gets `Stray`, and each further transfer asked for is again
/// one that the driver waits on.
pub proof fn lemma_answered_never_stray(op: Operation, transfer: Transfer, reply: Reply)
    requires
        waits_on(op, transfer),
        answers(transfer, reply) || reply is Failed,
    ensures
        next(op, reply).1 != Step::Stray,
        next(op, reply).1 matches Step::Perform(t) ==> waits_on(next(op, reply).0, t),
{
}

/// The reply to `transfer` when the bus carried it out: for a read, the two
/// bytes `received`, in the order received.
pub fn reply_for(transfer: &Transfer, received: [u8; 2]) -> (r: Reply)
    ensures
        answers(*transfer, r),
        transfer is ReadWord ==> r == Reply::Word(received[0], received[1]),
{
    match transfer {
        Transfer::Write { .. } => Reply::Written,
        Transfer::ReadWord { .. } => Reply::Word(received[0], received[1]),
        Transfer::Pause { .. } => Reply::Waited,
    }
}

/// Start-up with a genuine sensor: after the reset the driver waits 500 ms,
/// reads the vendor id, enables `gestures`, waits 500 ms, writes a 20 by 20
/// window and left and right ranges of 10, and finishes idle with `Done`.
pub proof fn lemma_set_up_genuine(gestures: Gesture, high: u8, low: u8)
    requires
        spec_word(high, low) == DEVICE_VID,
    ensures
        ({
            let start = Operation::SetUp { stage: SetUpStage::Resetting, gestures };
            let replies = seq![
                Reply::Written, Reply::Waited, Reply::Word(high, low), Reply::Written,
                Reply::Waited, Reply::Written, Reply::Written, Reply::Written,
            ];
            &&& replay(start, replies) == seq![
                Step::Perform(Transfer::Pause { millis: 500 }),
                Step::Perform(Transfer::ReadWord { register: 0x01 }),
                Step::Perform(enable_transfer(gestures@)),
                Step::Perform(Transfer::Pause { millis: 500 }),
                Step::Perform(Transfer::Write { register: 0x0a, value_1: 20, value_2: 20 }),
                Step::Perform(Transfer::Write { register: 0x0b, value_1: 0, value_2: 10 }),
                Step::Perform(Transfer::Write { register: 0x0c, value_1: 0, value_2: 10 }),
                Step::Finish(Outcome::Done),
            ]
            &&& settle(start, replies) == Operation::Idle
        }),
{
    let start = Operation::SetUp { stage: SetUpStage::Resetting, gestures };
    let replies = seq![
        Reply::Written, Reply::Waited, Reply::Word(high, low), Reply::Written,
        Reply::Waited, Reply::Written, Reply::Written, Reply::Written,
    ];
    assert(20u8 & 0x1f == 20) by (bit_vector);
    reveal_with_fuel(replay, 9);
    reveal_with_fuel(settle, 9);
    assert(replies.drop_first() =~= seq![
        Reply::Waited, Reply::Word(high, low), Reply::Written,
        Reply::Waited, Reply::Written, Reply::Written, Reply::Written,
    ]);
    assert(replies.drop_first().drop_first() =~= seq![
        Reply::Word(high, low), Reply::Written,
        Reply::Waited, Reply::Written, Reply::Written, Reply::Written,
    ]);
    assert(replies.drop_first().drop_first().drop_first() =~= seq![
        Reply::Written, Reply::Waited, Reply::Written, Reply::Written, Reply::Written,
    ]);
    assert(replies.drop_first().drop_first().drop_first().drop_first() =~= seq![
        Reply::Waited, Reply::Written, Reply::Written, Reply::Written,
    ]);
    assert(replies.drop_first().drop_first().drop_first().drop_first().drop_first() =~= seq![
        Reply::Written, Reply::Written, Reply::Written,
    ]);
    assert(replies.drop_first().drop_first().drop_first().drop_first().drop_first().drop_first() =~= seq![
        Reply::Written, Reply::Written,
    ]);
    assert(replies.drop_first().drop_first().drop_first().drop_first().drop_first().drop_first().drop_first() =~= seq![
        Reply::Written,
    ]);
    assert(replay(start, replies) =~= seq![
        Step::Perform(Transfer::Pause { millis: 500 }),
        Step::Perform(Transfer::ReadWord { register: 0x01 }),
        Step::Perform(enable_transfer(gestures@)),
        Step::Perform(Transfer::Pause { millis: 500 }),
        Step::Perform(Transfer::Write { register: 0x0a, value_1: 20, value_2: 20 }),
        Step::Perform(Transfer::Write { register: 0x0b, value_1: 0, value_2: 10 }),
        Step::Perform(Transfer::Write { register: 0x0c, value_1: 0, value_2: 10 }),
        Step::Finish(Outcome::Done),
    ]);
}


/// Start-up with a sensor that reports a foreign vendor id stops right after
/// the id is read, with `InvalidVid`, before anything is enabled.
pub proof fn lemma_set_up_foreign(gestures: Gesture, high: u8, low: u8)
    requires
        spec_word(high, low) != DEVICE_VID,
    ensures
        ({
            let start = Operation::SetUp { stage: SetUpStage::Resetting, gestures };
            let replies = seq![Reply::Written, Reply::Waited, Reply::Word(high, low)];
            &&& replay(start, replies) == seq![
                Step::Perform(Transfer::Pause { millis: 500 }),
                Step::Perform(Transfer::ReadWord { register: 0x01 }),
                Step::InvalidVid,
            ]
            &&& settle(start, replies) == Operation::Idle
        }),
{
    let start = Operation::SetUp { stage: SetUpStage::Resetting, gestures };
    let replies = seq![Reply::Written, Reply::Waited, Reply::Word(high, low)];
    reveal_with_fuel(replay, 4);
    reveal_with_fuel(settle, 4);
    assert(replies.drop_first() =~= seq![Reply::Waited, Reply::Word(high, low)]);
    assert(replies.drop_first().drop_first() =~= seq![Reply::Word(high, low)]);
    assert(replay(start, replies) =~= seq![
        Step::Perform(Transfer::Pause { millis: 500 }),
        Step::Perform(Transfer::ReadWord { register: 0x01 }),
        Step::InvalidVid,
    ]);
}

/// Polling with data ready (the data-ready register reads 1): the driver
/// reads the interrupt-state register and reports the gestures whose mask is
/// the word read there.
pub proof fn lemma_check_ready(ready_high: u8, ready_low: u8, high: u8, low: u8)
    requires
        spec_word(ready_high, ready_low) == 1,
    ensures
        ({
            let replies = seq![Reply::Word(ready_high, ready_low), Reply::Word(high, low)];
            &&& replay(Operation::CheckingReady, replies) == seq![
                Step::Perform(Transfer::ReadWord { register: 0x07 }),
                Step::Finish(Outcome::Checked(Some(Gesture::spec_from_bits(spec_word(high, low))))),
            ]
            &&& settle(Operation::CheckingReady, replies) == Operation::Idle
        }),
{
    let replies = seq![Reply::Word(ready_high, ready_low), Reply::Word(high, low)];
    reveal_with_fuel(replay, 3);
    reveal_with_fuel(settle, 3);
    assert(replies.drop_first() =~= seq![Reply::Word(high, low)]);
    assert(replay(Operation::CheckingReady, replies) =~= seq![
        Step::Perform(Transfer::ReadWord { register: 0x07 }),
        Step::Finish(Outcome::Checked(Some(Gesture::spec_from_bits(spec_word(high, low))))),
    ]);
}

/// Polling without data ready finishes with no gesture after the one read.
pub proof fn lemma_check_not_ready(high: u8, low: u8)
    requires
        spec_word(high, low) != 1,
    ensures
        next(Operation::CheckingReady, Reply::Word(high, low))
            == (Operation::Idle, Step::Finish(Outcome::Checked(None))),
{
}

/// The interrupt mask that `enable_gestures` writes, read as a 16-bit value
/// (first byte times 256 plus the second), is the gesture mask without bits
/// 11 to 13: every gesture but those three bits is enabled exactly when requested.
pub proof fn lemma_enable_mask(mask: u16)
    ensures
        enable_transfer(mask) matches Transfer::Write { register, value_1, value_2 }
            && register == 0x09
            && value_1 as int * 256 + value_2 as int == (mask & 0xC7FFu16) as int,
{
    let v1: u8 = ((mask >> 8u16) & 0xC7u16) as u8;
    let v2: u8 = (mask & 0x00ffu16) as u8;
    assert(((v1 as u16) << 8u16) | (v2 as u16) == mask & 0xC7FFu16) by (bit_vector)
        requires
            v1 == ((mask >> 8u16) & 0xC7u16) as u8,
            v2 == (mask & 0x00ffu16) as u8,
    ;
    assert(((v1 as u16) << 8u16) | (v2 as u16) == v1 as int * 256 + v2 as int) by (bit_vector);
}

/// The configuration writes, byte for byte: the reset writes `0x55, 0x00` to
/// register `0x18`; the detection window writes each side modulo 32 to
/// register `0x0a`; the left and right ranges are written unchanged, after a
/// zero byte, to registers `0x0b` and `0x0c`; the settling pause is 500 ms;
/// and the reads address registers `0x01` (vendor id), `0x06` (data ready),
/// `0x07` (gesture) and `0x08` (presence).
pub proof fn lemma_transfers(width: u8, height: u8, range: u8)
    ensures
        reset_transfer() == (Transfer::Write { register: 0x18, value_1: 0x55, value_2: 0x00 }),
        window_transfer(width, height) == (Transfer::Write {
            register: 0x0a,
            value_1: (width % 32) as u8,
            value_2: (height % 32) as u8,
        }),
        left_range_transfer(range) == (Transfer::Write { register: 0x0b, value_1: 0, value_2: range }),
        right_range_transfer(range) == (Transfer::Write { register: 0x0c, value_1: 0, value_2: range }),
        settle_transfer() == (Transfer::Pause { millis: 500 }),
        read_word_transfer(InputRegister::VID) == (Transfer::ReadWord { register: 0x01 }),
        read_word_transfer(InputRegister::DataReady) == (Transfer::ReadWord { register: 0x06 }),
        read_word_transfer(InputRegister::InterruptState) == (Transfer::ReadWord { register: 0x07 }),
        read_word_transfer(InputRegister::InterruptRegExistsState) == (Transfer::ReadWord { register: 0x08 }),
{
    assert(width & 0x1f == width % 32) by (bit_vector);
    assert(height & 0x1f == height % 32) by (bit_vector);
}

/// What each read reports, in terms of the two bytes received (`high` first):
/// the vendor id and the gesture mask are `high * 256 + low`; the id is
/// valid exactly when the bytes are `0x33, 0x43`; data is ready exactly when
/// they are `0x00, 0x01` (and only then is the gesture register read); an
/// object is present exactly when the second byte is 1; a write that went
/// through finishes with `Done`. Every read leaves the driver idle, except the
/// readiness check that found data.
pub proof fn lemma_read_outcomes(high: u8, low: u8)
    ensures
        next(Operation::ReadingVid, Reply::Word(high, low)).0 == Operation::Idle,
        next(Operation::ReadingVid, Reply::Word(high, low)).1 matches Step::Finish(Outcome::Value(v))
            && v as int == high as int * 256 + low as int,
        next(Operation::ValidatingVid, Reply::Word(high, low))
            == (Operation::Idle, Step::Finish(Outcome::Flag(high == 0x33 && low == 0x43))),
        next(Operation::ReadingDataReady, Reply::Word(high, low))
            == (Operation::Idle, Step::Finish(Outcome::Flag(high == 0 && low == 1))),
        next(Operation::ReadingGesture, Reply::Word(high, low)).0 == Operation::Idle,
        next(Operation::ReadingGesture, Reply::Word(high, low)).1 matches Step::Finish(Outcome::Detected(g))
            && g@ as int == high as int * 256 + low as int,
        next(Operation::ReadingPresence, Reply::Word(high, low))
            == (Operation::Idle, Step::Finish(Outcome::Flag(low == 1))),
        high == 0 && low == 1 ==> next(Operation::CheckingReady, Reply::Word(high, low))
            == (Operation::FetchingGesture, Step::Perform(Transfer::ReadWord { register: 0x07 })),
        !(high == 0 && low == 1) ==> next(Operation::CheckingReady, Reply::Word(high, low))
            == (Operation::Idle, Step::Finish(Outcome::Checked(None))),
        next(Operation::FetchingGesture, Reply::Word(high, low)).0 == Operation::Idle,
        next(Operation::FetchingGesture, Reply::Word(high, low)).1 matches Step::Finish(
            Outcome::Checked(Some(g)),
        ) && g@ as int == high as int * 256 + low as int,
        next(Operation::Writing, Reply::Written) == (Operation::Idle, Step::Finish(Outcome::Done)),
{
    let w = spec_word(high, low);
    assert(w as int == high as int * 256 + low as int);
    crate::gr10_30::gesture::lemma_from_bits_mask(w, Gesture::spec_from_bits(w));
}

} // verus!
