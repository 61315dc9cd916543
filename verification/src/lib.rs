//! Driver for the LSM6 family of combined accelerometer/gyroscope chips,
//! spoken to over a two-wire serial bus.
//!
//! The driver is generic over a [`bus::BusTransport`], the capability that
//! performs raw byte transactions with an addressed device. Every bus
//! transaction a driver call issues is pinned down in that call's contract,
//! phrased over the transport's ghost transaction history.

pub mod bus;
pub mod driver;
pub mod mock;
pub mod modes;
pub mod registers;

pub use driver::Discovery;
pub use driver::Reading;
pub use driver::LSM6;
pub use driver::SA0_HIGH_ADDRESS;
pub use driver::SA0_LOW_ADDRESS;
pub use driver::WHO_ID;
pub use modes::AccelerometerMode;
pub use modes::GyroscopeMode;
