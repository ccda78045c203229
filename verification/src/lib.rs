//! Verified core of a smart-book display: the GR10-30 gesture sensor protocol,
//! the LED light-show selection and sampling, the photo gallery rotation, the
//! clock's text rendering and the dashboard's update decisions.
pub mod gr10_30;
pub mod light;
pub mod gallery;
pub mod dashboard;
pub mod display;
pub mod sensors;
