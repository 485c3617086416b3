//! Ownership-checked access to PassThru vehicle-diagnostic drivers.
//!
//! The driver itself is native code reached by the host program. This library
//! holds what is decided around it: the translation of status codes into
//! errors, the codes handed to the driver, the decoding of the text it returns,
//! the scan of the driver registry, and the tree of resources
//! (interface, device, channel) with the order in which they are released.
pub mod codes;
pub mod error;
pub mod listing;
pub mod resources;
pub mod text;

pub use codes::{ConnectFlags, Protocol};
pub use error::{Error, ErrorKind, Result};
pub use listing::{list, Listing, StoreEntry, StoreError};
pub use resources::{Channel, Device, DriverCall, Interface};
pub use text::VersionInfo;
