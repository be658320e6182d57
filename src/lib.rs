//! Register access and data assembly for the LSM303DLHC accelerometer and
//! magnetometer, verified with Verus.
pub mod bus;
pub mod driver;
pub mod laws;
pub mod mag;
pub mod measurement;
pub mod registers;

pub use bus::{BusFault, I2c, Record, RecordingBus};
pub use driver::LSM303DLHC;
pub use measurement::I16x3;
