//! The SCSI READ(10) command descriptor block: a 10-byte, big-endian wire
//! format.  This module builds such blocks field by field and parses a raw
//! block back into its logical fields.

use vstd::prelude::*;

use crate::errors::ScsiError;

verus! {

broadcast use vstd::array::group_array_axioms;

/// The READ(10) operation code, always held in byte 0 of the block.
pub const READ10_OPCODE: u8 = 0x28;

/// The logical block address carried in bytes 2-5, big-endian.
pub open spec fn spec_lba(b: Seq<u8>) -> u32 {
    ((b[2] as u32) << 24) | ((b[3] as u32) << 16) | ((b[4] as u32) << 8) | (b[5] as u32)
}

/// The transfer length in blocks carried in bytes 7-8, big-endian.
pub open spec fn spec_transfer_length(b: Seq<u8>) -> u16 {
    ((b[7] as u16) << 8) | (b[8] as u16)
}

/// The bytes of a block after its LBA field is overwritten.
pub open spec fn spec_set_lba(b: Seq<u8>, lba: u32) -> Seq<u8> {
    b.update(2, (lba >> 24) as u8).update(3, (lba >> 16) as u8).update(4, (lba >> 8) as u8).update(
        5,
        lba as u8,
    )
}

/// The bytes of a block after its transfer-length field is overwritten.
pub open spec fn spec_set_transfer_length(b: Seq<u8>, blocks: u16) -> Seq<u8> {
    b.update(7, (blocks >> 8) as u8).update(8, blocks as u8)
}

/// A READ(10) command descriptor block under construction.
///
/// Byte 0 always holds the READ(10) opcode; every setter is a masked
/// read-modify-write that leaves unrelated bits untouched.
#[derive(Clone, Copy)]
pub struct Read10Cdb {
    bytes: [u8; 10],
}

impl View for Read10Cdb {
    type V = Seq<u8>;

    closed spec fn view(&self) -> Seq<u8> {
        self.bytes@
    }
}

impl Read10Cdb {
    /// True of every value of this type: ten bytes, the first of which is
    /// the READ(10) opcode.
    pub open spec fn wf(self) -> bool {
        self@.len() == 10 && self@[0] == READ10_OPCODE
    }

    /// A fresh block: all zero except the opcode byte.
    pub fn new() -> (r: Self)
        ensures
            r.wf(),
            r@ =~= seq![READ10_OPCODE, 0u8, 0u8, 0u8, 0u8, 0u8, 0u8, 0u8, 0u8, 0u8],
    {
        let mut bytes: [u8; 10] = [0u8; 10];
        bytes[0] = 0x28;
        let r = Read10Cdb { bytes };
        proof {
            assert(r@ =~= seq![READ10_OPCODE, 0u8, 0u8, 0u8, 0u8, 0u8, 0u8, 0u8, 0u8, 0u8]);
        }
        r
    }

    /// Set the legacy LUN field: byte 1, bits 5-7.  Bits 0-4 keep their
    /// values.
    pub fn set_lun_legacy(&mut self, lun: u8)
        ensures
            final(self)@ == old(self)@.update(
                1,
                (old(self)@[1] & 0x1f) | ((lun & 0x07) << 5),
            ),
    {
        self.bytes[1] = (self.bytes[1] & 0x1f) | ((lun & 0x07) << 5);
    }

    /// Set RDPROTECT: byte 1, bits 0-2.  Bits 3-7 keep their values.
    pub fn set_rdprotect(&mut self, rdprotect: u8)
        ensures
            final(self)@ == old(self)@.update(1, (old(self)@[1] & 0xf8) | (rdprotect & 0x07)),
    {
        self.bytes[1] = (self.bytes[1] & 0xf8) | (rdprotect & 0x07);
    }

    /// Set or clear DPO (disable page out): byte 1, bit 4.
    pub fn set_dpo(&mut self, enabled: bool)
        ensures
            final(self)@ == old(self)@.update(
                1,
                if enabled {
                    old(self)@[1] | 0x10
                } else {
                    old(self)@[1] & !0x10
                },
            ),
    {
        if enabled {
            self.bytes[1] = self.bytes[1] | 0x10;
        } else {
            self.bytes[1] = self.bytes[1] & !0x10;
        }
    }

    /// Set or clear FUA (force unit access): byte 1, bit 3.
    pub fn set_fua(&mut self, enabled: bool)
        ensures
            final(self)@ == old(self)@.update(
                1,
                if enabled {
                    old(self)@[1] | 0x08
                } else {
                    old(self)@[1] & !0x08
                },
            ),
    {
        if enabled {
            self.bytes[1] = self.bytes[1] | 0x08;
        } else {
            self.bytes[1] = self.bytes[1] & !0x08;
        }
    }

    /// Set or clear FUA_NV (force unit access non-volatile): byte 1, bit 1.
    pub fn set_fua_nv(&mut self, enabled: bool)
        ensures
            final(self)@ == old(self)@.update(
                1,
                if enabled {
                    old(self)@[1] | 0x02
                } else {
                    old(self)@[1] & !0x02
                },
            ),
    {
        if enabled {
            self.bytes[1] = self.bytes[1] | 0x02;
        } else {
            self.bytes[1] = self.bytes[1] & !0x02;
        }
    }

    /// Write the logical block address into bytes 2-5, big-endian.
    pub fn set_lba(&mut self, lba: u32)
        ensures
            final(self)@ == spec_set_lba(old(self)@, lba),
            spec_lba(final(self)@) == lba,
    {
        let b2: u8 = (lba >> 24) as u8;
        let b3: u8 = (lba >> 16) as u8;
        let b4: u8 = (lba >> 8) as u8;
        let b5: u8 = lba as u8;
        self.bytes[2] = b2;
        self.bytes[3] = b3;
        self.bytes[4] = b4;
        self.bytes[5] = b5;
        proof {
            assert(((b2 as u32) << 24) | ((b3 as u32) << 16) | ((b4 as u32) << 8) | (b5 as u32)
                == lba) by (bit_vector)
                requires
                    b2 == (lba >> 24) as u8,
                    b3 == (lba >> 16) as u8,
                    b4 == (lba >> 8) as u8,
                    b5 == lba as u8,
            ;
        }
    }

    /// Write the transfer length in blocks into bytes 7-8, big-endian.
    pub fn set_transfer_length(&mut self, blocks: u16)
        ensures
            final(self)@ == spec_set_transfer_length(old(self)@, blocks),
            spec_transfer_length(final(self)@) == blocks,
    {
        let b7: u8 = (blocks >> 8) as u8;
        let b8: u8 = blocks as u8;
        self.bytes[7] = b7;
        self.bytes[8] = b8;
        proof {
            assert(((b7 as u16) << 8) | (b8 as u16) == blocks) by (bit_vector)
                requires
                    b7 == (blocks >> 8) as u8,
                    b8 == blocks as u8,
            ;
        }
    }

    /// Write the group number into byte 6, bits 0-5, masked to its six-bit
    /// width.  Bits 6-7 of the byte keep their values.
    pub fn set_group_number(&mut self, group: u8)
        ensures
            final(self)@ == old(self)@.update(6, (old(self)@[6] & 0xc0) | (group & 0x3f)),
    {
        self.bytes[6] = (self.bytes[6] & 0xc0) | (group & 0x3f);
    }

    /// Write the control byte, byte 9.
    pub fn set_control(&mut self, control: u8)
        ensures
            final(self)@ == old(self)@.update(9, control),
    {
        self.bytes[9] = control;
    }

    /// The raw ten bytes of the block, for transmission.
    pub fn as_bytes(&self) -> (r: &[u8; 10])
        ensures
            r@ == self@,
    {
        &self.bytes
    }
}

/// The read-only view of a parsed READ(10) block.
#[derive(Debug)]
pub struct Read10 {
    pub lba: u64,
    pub transfer_blocks: u64,
    pub expected_bytes: usize,
}

/// Whether a raw buffer is long enough to be a READ(10) block and carries
/// its opcode.
pub open spec fn spec_is_read10(cdb: Seq<u8>) -> bool {
    cdb.len() >= 10 && cdb[0] == READ10_OPCODE
}

/// The transfer size in bytes that a block requests: the product of its
/// transfer length and the block size, saturating at `u64::MAX`.
pub open spec fn spec_expected_bytes(cdb: Seq<u8>, block_size: u64) -> u64 {
    if spec_transfer_length(cdb) * block_size > u64::MAX {
        u64::MAX
    } else {
        (spec_transfer_length(cdb) * block_size) as u64
    }
}

/// Parse a raw command buffer as a READ(10) block against a block size and
/// the length of the data buffer the caller intends to fill.
///
/// Fails with `UnsupportedCommand` unless the buffer holds a READ(10) block,
/// with `SizeOverflow` if the requested transfer size does not fit `usize`,
/// and with `BufferTooSmall` if the data buffer is shorter than the
/// requested transfer size.
pub fn parse_read10(cdb: &[u8], block_size: u64, data_len: usize) -> (r: Result<Read10, ScsiError>)
    ensures
        r is Ok <==> spec_is_read10(cdb@) && spec_expected_bytes(cdb@, block_size) <= usize::MAX
            && data_len >= spec_expected_bytes(cdb@, block_size),
        !spec_is_read10(cdb@) ==> r == Err::<Read10, ScsiError>(ScsiError::UnsupportedCommand),
        spec_is_read10(cdb@) && spec_expected_bytes(cdb@, block_size) > usize::MAX ==> r == Err::<
            Read10,
            ScsiError,
        >(ScsiError::SizeOverflow),
        spec_is_read10(cdb@) && spec_expected_bytes(cdb@, block_size) <= usize::MAX && data_len
            < spec_expected_bytes(cdb@, block_size) ==> r == Err::<Read10, ScsiError>(
            ScsiError::BufferTooSmall,
        ),
        r matches Ok(p) ==> p.lba == spec_lba(cdb@) as u64 && p.transfer_blocks
            == spec_transfer_length(cdb@) as u64 && p.expected_bytes == spec_expected_bytes(
            cdb@,
            block_size,
        ),
{
    if cdb.len() < 10 || cdb[0] != READ10_OPCODE {
        return Err(ScsiError::UnsupportedCommand);
    }

    let lba_32: u32 = ((cdb[2] as u32) << 24) | ((cdb[3] as u32) << 16) | ((cdb[4] as u32) << 8)
        | (cdb[5] as u32);
    let blocks_16: u16 = ((cdb[7] as u16) << 8) | (cdb[8] as u16);
    let transfer_blocks: u64 = blocks_16 as u64;

    let expected_64: u64 = if transfer_blocks == 0 {
        0
    } else if block_size > u64::MAX / transfer_blocks {
        u64::MAX
    } else {
        proof {
            assert(transfer_blocks * block_size <= u64::MAX) by (nonlinear_arith)
                requires
                    transfer_blocks > 0,
                    block_size <= u64::MAX / transfer_blocks,
            ;
        }
        transfer_blocks * block_size
    };
    proof {
        if transfer_blocks > 0 && block_size > u64::MAX / transfer_blocks {
            assert(transfer_blocks * block_size > u64::MAX) by (nonlinear_arith)
                requires
                    transfer_blocks > 0,
                    block_size > u64::MAX / transfer_blocks,
            ;
        }
    }

    if expected_64 > usize::MAX as u64 {
        return Err(ScsiError::SizeOverflow);
    }
    let expected_bytes: usize = expected_64 as usize;

    if data_len < expected_bytes {
        return Err(ScsiError::BufferTooSmall);
    }

    Ok(Read10 { lba: lba_32 as u64, transfer_blocks, expected_bytes })
}

/// Writing an LBA and a transfer length into any ten-byte block and reading
/// the two fields back yields the values written; the opcode byte is not
/// disturbed.
pub proof fn lemma_cdb_round_trip(b: Seq<u8>, lba: u32, blocks: u16)
    requires
        b.len() == 10,
    ensures
        ({
            let b2 = spec_set_transfer_length(spec_set_lba(b, lba), blocks);
            &&& spec_lba(b2) == lba
            &&& spec_transfer_length(b2) == blocks
            &&& b2[0] == b[0]
            &&& b2.len() == 10
        }),
{
    let b2 = spec_set_transfer_length(spec_set_lba(b, lba), blocks);
    assert(((((lba >> 24) as u8) as u32) << 24) | ((((lba >> 16) as u8) as u32) << 16) | ((((lba
        >> 8) as u8) as u32) << 8) | ((lba as u8) as u32) == lba) by (bit_vector);
    assert(((((blocks >> 8) as u8) as u16) << 8) | ((blocks as u8) as u16) == blocks)
        by (bit_vector);
    assert(b2[2] == (lba >> 24) as u8);
    assert(b2[3] == (lba >> 16) as u8);
    assert(b2[4] == (lba >> 8) as u8);
    assert(b2[5] == lba as u8);
    assert(b2[7] == (blocks >> 8) as u8);
    assert(b2[8] == blocks as u8);
}

/// The transfer size law: whenever the product of transfer length and block
/// size fits `u64`, the expected byte count is exactly that product.
pub proof fn lemma_expected_bytes_exact(cdb: Seq<u8>, block_size: u64)
    requires
        cdb.len() >= 10,
        spec_transfer_length(cdb) * block_size <= u64::MAX,
    ensures
        spec_expected_bytes(cdb, block_size) == spec_transfer_length(cdb) * block_size,
{
}

/// The flag setters are independent: setting RDPROTECT, then DPO, then FUA
/// combines the three fields in byte 1, keeps bits 5-7 of byte 1, and leaves
/// every other byte of the block unchanged.
pub proof fn lemma_flag_setters_independent(b: Seq<u8>, rdprotect: u8)
    requires
        b.len() == 10,
    ensures
        ({
            let b1_rd = (b[1] & 0xf8) | (rdprotect & 0x07);
            let b1_dpo = b1_rd | 0x10;
            let b1_fua = b1_dpo | 0x08;
            let b2 = b.update(1, b1_rd).update(1, b1_dpo).update(1, b1_fua);
            &&& b2[1] == ((b[1] & 0xe0) | (rdprotect & 0x07) | 0x18)
            &&& forall|i: int| 0 <= i < 10 && i != 1 ==> b2[i] == b[i]
        }),
{
    let b1 = b[1];
    assert((((b1 & 0xf8) | (rdprotect & 0x07)) | 0x10) | 0x08 == ((b1 & 0xe0) | (rdprotect & 0x07)
        | 0x18)) by (bit_vector);
}

} // verus!
