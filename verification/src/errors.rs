//! The error taxonomy shared by the codec, the transports, the knock
//! orchestrator and the record decoder.

use vstd::prelude::*;

verus! {

/// Everything that can go wrong between opening a device and decoding a
/// health record.  Each stage of the pipeline reports through one of these
/// variants.
#[derive(Clone, Debug, PartialEq, Eq)]
pub enum ScsiError {
    /// The device path could not be opened.
    DeviceOpen,
    /// The command block is not a READ(10), is shorter than 10 bytes, or is
    /// too long for the transport in use.
    UnsupportedCommand,
    /// The requested transfer size cannot be represented in `usize`.
    SizeOverflow,
    /// The caller-supplied buffer is smaller than the computed transfer size.
    BufferTooSmall,
    /// A positioned read returned fewer bytes than requested.
    ShortRead,
    /// The OS-level control call itself failed.
    TransportFailure,
    /// The device reported a nonzero SCSI status.  Carries the sense bytes
    /// the device returned with the failure, empty where the transport
    /// reports none.
    CommandStatus { sense: Vec<u8> },
    /// The final knock command never produced data.
    SequenceIncomplete,
    /// The response buffer is too short to hold a health record.
    TruncatedRecord,
    /// The record decoded structurally but its magic signature is wrong.
    SignatureMismatch,
}

impl ScsiError {
    /// The human-readable description of this error.
    pub open spec fn spec_message(self) -> Seq<char> {
        match self {
            ScsiError::DeviceOpen => "failed to open device"@,
            ScsiError::UnsupportedCommand => "unsupported SCSI command (only READ(10) is supported)"@,
            ScsiError::SizeOverflow => "transfer size too large"@,
            ScsiError::BufferTooSmall => "buffer too small for requested transfer"@,
            ScsiError::ShortRead => "short read from device"@,
            ScsiError::TransportFailure => "OS control call failed"@,
            ScsiError::CommandStatus { .. } => "SCSI command failed with nonzero status"@,
            ScsiError::SequenceIncomplete => "device did not respond to sequence or sequence incomplete"@,
            ScsiError::TruncatedRecord => "response too short to decode health record"@,
            ScsiError::SignatureMismatch => "incorrect health record signature magic"@,
        }
    }

    /// A description of the error, suitable for reporting to a user.
    pub fn message(&self) -> (r: &'static str)
        ensures
            r@ == self.spec_message(),
    {
        match self {
            ScsiError::DeviceOpen => "failed to open device",
            ScsiError::UnsupportedCommand => "unsupported SCSI command (only READ(10) is supported)",
            ScsiError::SizeOverflow => "transfer size too large",
            ScsiError::BufferTooSmall => "buffer too small for requested transfer",
            ScsiError::ShortRead => "short read from device",
            ScsiError::TransportFailure => "OS control call failed",
            ScsiError::CommandStatus { .. } => "SCSI command failed with nonzero status",
            ScsiError::SequenceIncomplete => "device did not respond to sequence or sequence incomplete",
            ScsiError::TruncatedRecord => "response too short to decode health record",
            ScsiError::SignatureMismatch => "incorrect health record signature magic",
        }
    }
}

} // verus!
