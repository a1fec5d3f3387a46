//! Driver for the LSM303 three-axis digital magnetometer with integrated
//! thermometer, accessed over a register-oriented two-wire bus.
//!
//! The driver is generic over the bus transport: any type implementing
//! [`Bus`] can carry the register transactions. The register layout, the
//! gain state machine and the byte decoding are verified; the transport
//! itself is injected and out of scope.

pub mod bus;
pub mod decode;
pub mod error;
pub mod magnetometer;
pub mod registers;

pub use bus::Bus;
pub use error::Error;
pub use magnetometer::Gain;
pub use magnetometer::Magnetometer;
