//! Ordinal and device-name allocation for a character-device driver.
//!
//! Each accepted device is identified by a small, dense, reusable ordinal and
//! a formatted device-filesystem name (`"tenstorrent/<ordinal>"`). The
//! [`pool::Pool`] hands out the lowest free ordinal below a fixed capacity and
//! binds it to its name; the [`supply::Supply`] builds the pool lazily on
//! first demand from a configured capacity; an [`supply::OrdinalHandle`]
//! carries the exclusive right to release one ordinal back to the pool.

pub mod error;
pub mod laws;
pub mod name;
pub mod pool;
pub mod supply;
pub mod version;
