use sdsmart::block_reader::{check_read_length, plan_read10};
use sdsmart::errors::ScsiError;
use sdsmart::read10::Read10Cdb;
use sdsmart::transport::{check_passthrough_cdb_len, evaluate_scsi_status, evaluate_sg_status};

#[test]
fn sg_status_must_be_all_zero() {
    let sense = [0x70u8, 0x00, 0x05, 0x00];
    assert!(evaluate_sg_status(0, 0, 0, &sense, 4).is_ok());
    assert_eq!(
        evaluate_sg_status(2, 0, 0, &sense, 4).unwrap_err(),
        ScsiError::CommandStatus {
            sense: vec![0x70, 0x00, 0x05, 0x00]
        }
    );
    assert_eq!(
        evaluate_sg_status(0, 1, 0, &sense, 0).unwrap_err(),
        ScsiError::CommandStatus { sense: Vec::new() }
    );
    assert_eq!(
        evaluate_sg_status(0, 0, 8, &sense, 0).unwrap_err(),
        ScsiError::CommandStatus { sense: Vec::new() }
    );
}

#[test]
fn sg_status_failure_carries_written_sense_prefix() {
    let sense = [0x70u8, 0x00, 0x05, 0x20, 0x00, 0x00];
    assert_eq!(
        evaluate_sg_status(2, 0, 0, &sense, 3).unwrap_err(),
        ScsiError::CommandStatus {
            sense: vec![0x70, 0x00, 0x05]
        }
    );
    // A written count beyond the buffer carries the whole buffer.
    assert_eq!(
        evaluate_sg_status(2, 0, 0, &sense, 99).unwrap_err(),
        ScsiError::CommandStatus {
            sense: sense.to_vec()
        }
    );
}

#[test]
fn scsi_status_must_be_zero() {
    assert!(evaluate_scsi_status(0).is_ok());
    assert_eq!(
        evaluate_scsi_status(2).unwrap_err(),
        ScsiError::CommandStatus { sense: Vec::new() }
    );
}

#[test]
fn passthrough_rejects_long_commands() {
    assert!(check_passthrough_cdb_len(10).is_ok());
    assert!(check_passthrough_cdb_len(16).is_ok());
    assert_eq!(
        check_passthrough_cdb_len(17).unwrap_err(),
        ScsiError::UnsupportedCommand
    );
}

#[test]
fn read_plan_computes_offset_and_size() {
    let mut c = Read10Cdb::new();
    c.set_lba(4);
    c.set_transfer_length(2);
    let plan = plan_read10(c.as_bytes(), 512, 1024).unwrap();
    assert_eq!(plan.offset, 4 * 512);
    assert_eq!(plan.expected_bytes, 1024);
}

#[test]
fn read_plan_propagates_parse_errors() {
    let buf = [0x00u8; 10];
    assert_eq!(
        plan_read10(&buf, 512, 512).unwrap_err(),
        ScsiError::UnsupportedCommand
    );
    let mut c = Read10Cdb::new();
    c.set_transfer_length(4);
    assert_eq!(
        plan_read10(c.as_bytes(), 512, 512).unwrap_err(),
        ScsiError::BufferTooSmall
    );
}

#[test]
fn short_reads_are_detected() {
    assert!(check_read_length(512, 512).is_ok());
    assert!(check_read_length(1024, 512).is_ok());
    assert_eq!(
        check_read_length(511, 512).unwrap_err(),
        ScsiError::ShortRead
    );
}

#[test]
fn error_messages_describe_each_stage() {
    assert_eq!(
        ScsiError::UnsupportedCommand.message(),
        "unsupported SCSI command (only READ(10) is supported)"
    );
    assert_eq!(
        ScsiError::SequenceIncomplete.message(),
        "device did not respond to sequence or sequence incomplete"
    );
    assert_eq!(
        ScsiError::SignatureMismatch.message(),
        "incorrect health record signature magic"
    );
    assert!(!ScsiError::ShortRead.message().is_empty());
    assert!(!ScsiError::DeviceOpen.message().is_empty());
    assert!(!ScsiError::TransportFailure.message().is_empty());
    assert!(!ScsiError::BufferTooSmall.message().is_empty());
    assert!(!ScsiError::SizeOverflow.message().is_empty());
    assert!(!ScsiError::TruncatedRecord.message().is_empty());
    let status_err = ScsiError::CommandStatus { sense: Vec::new() };
    assert!(!status_err.message().is_empty());
}
