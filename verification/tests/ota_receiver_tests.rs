//! Tests of the radio OTA receiver and of the CRC-32 used to verify images.
use sandos::abi::{cmd, crc32, OtaState};
use sandos::firmware::ota::OtaReceiver;

fn begin(n: u32) -> Vec<u8> {
    n.to_le_bytes().to_vec()
}

fn chunk(offset: u32, data: &[u8]) -> Vec<u8> {
    let mut v = offset.to_le_bytes().to_vec();
    v.extend_from_slice(data);
    v
}

#[test]
fn transfer_in_chunks_installs_binary() {
    let binary: Vec<u8> = (0u8..=99).collect();
    let mut rx = OtaReceiver::new();
    assert!(rx.handle_begin(&begin(100)));
    assert_eq!(rx.state(), OtaState::Receiving);
    for (i, piece) in binary.chunks(30).enumerate() {
        assert!(rx.handle_chunk(&chunk((i * 30) as u32, piece)));
    }
    assert_eq!(rx.bytes_received(), 100);
    assert!(rx.handle_finalize(&crc32(&binary).to_le_bytes()));
    assert_eq!(rx.ready_binary(), Some(&binary[..]));
    let taken = rx.take_verified_binary().expect("binary");
    assert_eq!(taken, binary);
    assert_eq!(rx.state(), OtaState::Idle);
    assert_eq!(rx.swap_count(), 1);
    assert_eq!(rx.total_size(), 0);
}

#[test]
fn corrupted_transfer_fails() {
    let binary = vec![7u8; 16];
    let mut corrupted = binary.clone();
    corrupted[5] ^= 0x10;
    let mut rx = OtaReceiver::new();
    assert!(rx.handle_begin(&begin(16)));
    assert!(rx.handle_chunk(&chunk(0, &corrupted)));
    assert!(!rx.handle_finalize(&crc32(&binary).to_le_bytes()));
    assert_eq!(rx.state(), OtaState::Failed);
    assert!(rx.take_verified_binary().is_none());
    rx.reset_failed();
    assert_eq!(rx.state(), OtaState::Idle);
}

#[test]
fn bad_payloads() {
    let mut rx = OtaReceiver::new();
    assert!(!rx.handle_chunk(&chunk(0, &[1])));
    assert_eq!(rx.state(), OtaState::Idle);
    assert!(!rx.handle_begin(&[1, 0]));
    assert_eq!(rx.state(), OtaState::Failed);
    assert!(!rx.handle_begin(&begin(0)));
    assert!(rx.handle_begin(&begin(4)));
    assert!(!rx.handle_chunk(&chunk(0, &[])));
    assert_eq!(rx.state(), OtaState::Receiving);
    assert!(!rx.handle_chunk(&chunk(2, &[1, 2, 3])));
    assert_eq!(rx.state(), OtaState::Failed);
}

#[test]
fn commands_dispatch_to_handlers() {
    let mut rx = OtaReceiver::new();
    assert!(rx.handle_command(cmd::OTA_BEGIN, &begin(2)));
    assert!(rx.handle_command(cmd::OTA_CHUNK, &chunk(0, &[1, 2])));
    assert!(rx.handle_command(cmd::OTA_FINALIZE, &crc32(&[1, 2]).to_le_bytes()));
    assert_eq!(rx.state(), OtaState::Ready);
    assert!(!rx.handle_command(cmd::TOGGLE_LED, &[]));
    assert_eq!(rx.state(), OtaState::Ready);
}

#[test]
fn crc_detects_any_single_byte_change() {
    let data: Vec<u8> = (0u8..32).collect();
    let good = crc32(&data);
    for i in 0..data.len() {
        let mut d = data.clone();
        d[i] = d[i].wrapping_add(1);
        assert_ne!(crc32(&d), good);
    }
}
