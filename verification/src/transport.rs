//! The raw-command transport abstraction: one capability, implemented per
//! operating system by the binary that drives this library, plus the status
//! decisions those backends share.

use vstd::prelude::*;

use crate::errors::ScsiError;

verus! {

/// A device that accepts raw SCSI read commands.
///
/// The length of `data` determines the requested transfer length.  On
/// success the buffer holds device-returned bytes; on failure its contents
/// are unspecified and must be treated as invalid.  Implementations live
/// outside this library, one per operating system.
pub trait ScsiDevice {
    /// Send one SCSI read command described by `cdb` and fill `data` with
    /// the device's response.
    fn read_cmd(&self, cdb: &[u8], data: &mut Vec<u8>) -> (r: Result<(), ScsiError>)
        ensures
            r is Ok ==> final(data)@.len() == old(data)@.len(),
    ;
}

/// The sense bytes a failed command carries out of the status check: the
/// prefix of the sense buffer that the OS reported written, or the whole
/// buffer where the reported count exceeds it.
pub open spec fn spec_sense_view(sense: Seq<u8>, written: usize) -> Seq<u8> {
    if written < sense.len() {
        sense.take(written as int)
    } else {
        sense
    }
}

/// Judge the three status fields a command-passthrough control call returns:
/// the command succeeded only if device status, host status and driver
/// status are all zero.  A failure carries the sense bytes the device
/// returned: the first `sense_written` bytes of `sense_buf`.
pub fn evaluate_sg_status(
    status: u8,
    host_status: u16,
    driver_status: u16,
    sense_buf: &[u8],
    sense_written: usize,
) -> (r: Result<(), ScsiError>)
    ensures
        r is Ok <==> status == 0 && host_status == 0 && driver_status == 0,
        r matches Err(e) ==> (e matches ScsiError::CommandStatus { sense } && sense@
            == spec_sense_view(sense_buf@, sense_written)),
{
    if status != 0 || host_status != 0 || driver_status != 0 {
        let n = if sense_written < sense_buf.len() {
            sense_written
        } else {
            sense_buf.len()
        };
        let mut carried: Vec<u8> = Vec::new();
        let mut i: usize = 0;
        while i < n
            invariant
                i <= n,
                n <= sense_buf@.len(),
                carried@ =~= sense_buf@.take(i as int),
            decreases n - i,
        {
            carried.push(sense_buf[i]);
            proof {
                assert(carried@ =~= sense_buf@.take(i + 1));
            }
            i += 1;
        }
        proof {
            assert(carried@ =~= spec_sense_view(sense_buf@, sense_written));
        }
        Err(ScsiError::CommandStatus { sense: carried })
    } else {
        Ok(())
    }
}

/// Judge the single SCSI status byte a pass-through-direct control call
/// returns: zero means success.  That interface reports no sense buffer, so
/// a failure carries none.
pub fn evaluate_scsi_status(status: u8) -> (r: Result<(), ScsiError>)
    ensures
        r is Ok <==> status == 0,
        r matches Err(e) ==> (e matches ScsiError::CommandStatus { sense } && sense@
            == Seq::<u8>::empty()),
{
    if status != 0 {
        Err(ScsiError::CommandStatus { sense: Vec::new() })
    } else {
        Ok(())
    }
}

/// Reject a command block too long for the pass-through-direct interface,
/// whose fixed command field holds at most 16 bytes.
pub fn check_passthrough_cdb_len(cdb_len: usize) -> (r: Result<(), ScsiError>)
    ensures
        r is Ok <==> cdb_len <= 16,
        r is Err ==> r == Err::<(), ScsiError>(ScsiError::UnsupportedCommand),
{
    if cdb_len > 16 {
        Err(ScsiError::UnsupportedCommand)
    } else {
        Ok(())
    }
}

} // verus!
