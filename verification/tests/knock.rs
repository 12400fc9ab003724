use std::cell::RefCell;

use sdsmart::errors::ScsiError;
use sdsmart::knock::{fetch_smart_data, run_knock_sequence};
use sdsmart::read10::parse_read10;
use sdsmart::transport::ScsiDevice;

const KNOCK_LBAS: [u64; 8] = [256, 4096, 768, 2048, 1280, 1536, 21376, 29556];

enum SimMode {
    /// Fail every command except the one addressing this LBA.
    OnlyLba(u64),
    /// Succeed on every command except the one addressing this LBA.
    AllBut(u64),
}

struct SimTransport {
    mode: SimMode,
    response: Vec<u8>,
    issued: RefCell<Vec<Vec<u8>>>,
}

impl SimTransport {
    fn new(mode: SimMode, response: Vec<u8>) -> Self {
        SimTransport {
            mode,
            response,
            issued: RefCell::new(Vec::new()),
        }
    }
}

impl ScsiDevice for SimTransport {
    fn read_cmd(&self, cdb: &[u8], data: &mut Vec<u8>) -> Result<(), ScsiError> {
        self.issued.borrow_mut().push(cdb.to_vec());
        let parsed = parse_read10(cdb, 512, data.len())?;
        let ok = match self.mode {
            SimMode::OnlyLba(l) => parsed.lba == l,
            SimMode::AllBut(l) => parsed.lba != l,
        };
        if ok {
            let n = data.len();
            data.clear();
            data.extend_from_slice(&self.response[..n.min(self.response.len())]);
            while data.len() < n {
                data.push(0);
            }
            Ok(())
        } else {
            Err(ScsiError::CommandStatus { sense: Vec::new() })
        }
    }
}

fn valid_record_block() -> Vec<u8> {
    let mut buf = vec![0u8; 512];
    buf[162] = 0x09;
    buf[163] = 0x33;
    buf[192] = 87;
    buf[224..229].copy_from_slice(b"V1.00");
    buf
}

fn expected_cdb(lba: u32) -> [u8; 10] {
    let be = lba.to_be_bytes();
    [0x28, 0x20, be[0], be[1], be[2], be[3], 0x00, 0x00, 0x01, 0x00]
}

#[test]
fn final_command_success_yields_its_buffer() {
    let dev = SimTransport::new(SimMode::OnlyLba(29556), valid_record_block());
    let mut failed = Vec::new();
    let data = run_knock_sequence(&dev, &mut failed).unwrap();
    assert_eq!(data, valid_record_block());
    assert_eq!(failed, vec![256, 4096, 768, 2048, 1280, 1536, 21376]);
}

#[test]
fn sequence_issues_all_eight_commands_in_order() {
    let dev = SimTransport::new(SimMode::OnlyLba(29556), valid_record_block());
    let mut failed = Vec::new();
    run_knock_sequence(&dev, &mut failed).unwrap();
    let issued = dev.issued.borrow();
    assert_eq!(issued.len(), 8);
    for (i, lba) in KNOCK_LBAS.iter().enumerate() {
        assert_eq!(issued[i].as_slice(), &expected_cdb(*lba as u32));
    }
}

#[test]
fn failing_final_command_is_sequence_incomplete() {
    let dev = SimTransport::new(SimMode::AllBut(29556), valid_record_block());
    let mut failed = Vec::new();
    let err = run_knock_sequence(&dev, &mut failed).unwrap_err();
    assert_eq!(err, ScsiError::SequenceIncomplete);
    assert_eq!(failed, vec![29556]);
    assert_eq!(dev.issued.borrow().len(), 8);
}

#[test]
fn all_commands_failing_is_sequence_incomplete() {
    let dev = SimTransport::new(SimMode::OnlyLba(1), valid_record_block());
    let mut failed = Vec::new();
    let err = run_knock_sequence(&dev, &mut failed).unwrap_err();
    assert_eq!(err, ScsiError::SequenceIncomplete);
    assert_eq!(failed.len(), 8);
}

#[test]
fn fetch_returns_validated_record() {
    let dev = SimTransport::new(SimMode::OnlyLba(29556), valid_record_block());
    let mut failed = Vec::new();
    let rec = fetch_smart_data(&dev, &mut failed).unwrap();
    assert_eq!(rec.health, 87);
    assert_eq!(rec.firmware_version, "V1.00");
    assert!(rec.is_valid());
}

#[test]
fn fetch_rejects_wrong_signature() {
    let mut block = valid_record_block();
    block[162] = 0x00;
    block[163] = 0x00;
    let dev = SimTransport::new(SimMode::OnlyLba(29556), block);
    let mut failed = Vec::new();
    let err = fetch_smart_data(&dev, &mut failed).unwrap_err();
    assert_eq!(err, ScsiError::SignatureMismatch);
}

#[test]
fn fetch_propagates_incomplete_sequence() {
    let dev = SimTransport::new(SimMode::AllBut(29556), valid_record_block());
    let mut failed = Vec::new();
    let err = fetch_smart_data(&dev, &mut failed).unwrap_err();
    assert_eq!(err, ScsiError::SequenceIncomplete);
}
