//! Sharing one bus peripheral between several drivers.
//!
//! A bus handle lives inside a lock (a [`BusMutex`]).  Each driver gets a proxy that implements the
//! same bus capability traits as the handle itself and runs every operation on the handle while
//! holding the lock.

pub mod bus;
pub mod mutex;
pub mod proxies;

pub use bus::{AdcOneShot, CanBus, I2cRead, I2cWrite, I2cWriteRead, SpiTransfer, SpiWrite};
pub use mutex::{BusMutex, SingleContextMutex};
pub use proxies::{AdcProxy, CanProxy, I2cProxy, SpiProxy};
