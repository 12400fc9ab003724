//! Reads vendor-private health telemetry from a family of microSD cards by
//! issuing raw SCSI READ(10) commands through a platform transport.
//!
//! The crate covers the READ(10) command-block codec, the knock sequence that
//! switches the card into its diagnostic mode, and the fixed-layout decode of
//! the health record the card returns.  Device I/O itself is left to the
//! binary that drives this library.

pub mod block_reader;
pub mod device_path;
pub mod errors;
pub mod knock;
pub mod read10;
pub mod smart;
pub mod transport;

pub use errors::ScsiError;
pub use read10::Read10Cdb;
pub use smart::SmartData;
pub use transport::ScsiDevice;
