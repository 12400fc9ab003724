//! Raw-positioned-read emulation of READ(10), for platforms without a
//! command passthrough: the command block is reinterpreted through the
//! codec, and the backend performs one positioned read at the computed
//! offset.  The read itself is I/O and lives outside this library; the two
//! decisions around it are here.

use vstd::prelude::*;

use crate::errors::ScsiError;
use crate::read10::{parse_read10, spec_expected_bytes, spec_is_read10, spec_lba};

verus! {

/// Where and how much a READ(10) block asks a positioned read to fetch.
#[derive(Debug)]
pub struct ReadPlan {
    /// The byte offset on the device: LBA times block size.
    pub offset: u64,
    /// Exactly how many bytes the read must return.
    pub expected_bytes: usize,
}

/// Turn a READ(10) block into a positioned-read plan against a block size
/// and the caller's buffer length.  Fails exactly as the codec's parser
/// does.
///
/// The block size must fit 32 bits so that the byte offset, the product of
/// a 32-bit LBA and the block size, fits `u64`.
pub fn plan_read10(cdb: &[u8], block_size: u64, data_len: usize) -> (r: Result<ReadPlan, ScsiError>)
    requires
        block_size <= u32::MAX as u64,
    ensures
        r is Ok <==> spec_is_read10(cdb@) && spec_expected_bytes(cdb@, block_size) <= usize::MAX
            && data_len >= spec_expected_bytes(cdb@, block_size),
        !spec_is_read10(cdb@) ==> r == Err::<ReadPlan, ScsiError>(ScsiError::UnsupportedCommand),
        spec_is_read10(cdb@) && spec_expected_bytes(cdb@, block_size) > usize::MAX ==> r == Err::<
            ReadPlan,
            ScsiError,
        >(ScsiError::SizeOverflow),
        spec_is_read10(cdb@) && spec_expected_bytes(cdb@, block_size) <= usize::MAX && data_len
            < spec_expected_bytes(cdb@, block_size) ==> r == Err::<ReadPlan, ScsiError>(
            ScsiError::BufferTooSmall,
        ),
        r matches Ok(p) ==> p.offset == spec_lba(cdb@) as u64 * block_size && p.expected_bytes
            == spec_expected_bytes(cdb@, block_size),
{
    let parsed = parse_read10(cdb, block_size, data_len)?;
    proof {
        assert(parsed.lba * block_size <= u64::MAX) by (nonlinear_arith)
            requires
                parsed.lba <= u32::MAX as u64,
                block_size <= u32::MAX as u64,
        ;
    }
    let offset: u64 = parsed.lba * block_size;
    Ok(ReadPlan { offset, expected_bytes: parsed.expected_bytes })
}

/// Judge the byte count a positioned read returned: fewer bytes than the
/// plan expected is a short read.
pub fn check_read_length(returned: usize, expected: usize) -> (r: Result<(), ScsiError>)
    ensures
        r is Ok <==> returned >= expected,
        r is Err ==> r == Err::<(), ScsiError>(ScsiError::ShortRead),
{
    if returned < expected {
        Err(ScsiError::ShortRead)
    } else {
        Ok(())
    }
}

} // verus!
