//! Driver logic for the DFRobot GR10-30 gesture sensor, independent of the bus
//! that carries its transfers.
pub mod gesture;
pub mod registers;

pub use gesture::Gesture;
pub use registers::{HoldingRegister, InputRegister, Transfer, DEVICE_ADDRESS, DEVICE_VID};
pub mod driver;
pub use driver::{reply_for, Error, Operation, Outcome, Reply, SetUpStage, Step, GR1030};
