use std::time::Instant;

use bytes::BytesMut;
use gud_gadget::aio::ExactAioState;
use gud_gadget::endpoint::{
    payload_transfer_len, PayloadStats, PixelDataEndpoint, SubmissionFailure,
};
use gud_gadget::gud::{SetBuffer, GUD_COMPRESSION_LZ4, GUD_STATUS_BUSY, GUD_STATUS_ERROR, GUD_STATUS_OK};
use gud_gadget::protocol::GudState;

fn frame(compression: u8, length: u32, compressed_length: u32) -> SetBuffer {
    SetBuffer {
        x: 0,
        y: 0,
        width: 4,
        height: 2,
        length,
        compression,
        compressed_length,
    }
}

#[test]
fn transfer_length_follows_compression() {
    assert_eq!(payload_transfer_len(&frame(0, 16, 9)), 16);
    assert_eq!(payload_transfer_len(&frame(GUD_COMPRESSION_LZ4, 16, 9)), 9);
}

#[test]
fn read_size_is_checked_when_the_endpoint_is_made() {
    assert!(PixelDataEndpoint::new_with_read_size(16 * 1024).is_ok());
    let err = PixelDataEndpoint::new_with_read_size(1000).err().unwrap();
    assert!(err.message().contains("got 1000"));
    let legacy = PixelDataEndpoint::new_legacy_512();
    assert!(legacy.legacy_512);
    assert_eq!(legacy.read_size, 512);
}

#[test]
fn exact_transfer_completes_and_advances_the_payload_sequence() {
    let mut gud = GudState::new();
    let mut endpoint = PixelDataEndpoint::new_with_read_size(16 * 1024).unwrap();
    let info = frame(0, 16, 0);
    let (sequence, expected) = endpoint.begin_exact_payload_aio(&info).unwrap();
    assert_eq!((sequence, expected), (1, 16));
    assert!(endpoint.exact_aio_elapsed().is_some());
    gud.latch_status(GUD_STATUS_BUSY);
    assert_eq!(endpoint.exact_payload_submission_accepted(&mut gud).unwrap(), 1);
    assert_eq!(gud.current_status(), GUD_STATUS_OK);
    assert!(endpoint.exact_payload_aio_in_flight());
    endpoint.note_status_sent(GUD_STATUS_OK).unwrap();
    assert_eq!(endpoint.exact_aio_state(), ExactAioState::Receiving);

    let received = BytesMut::from(&[5u8; 16][..]);
    let stats = endpoint.complete_exact_payload_aio(received, 16).unwrap();
    assert_eq!(stats.payload_seq, 1);
    assert_eq!(stats.transfer_bytes, 16);
    assert_eq!(stats.usb_packets_est, 1);
    assert_eq!(stats.read_calls, 1);
    assert_eq!(endpoint.exact_aio_state(), ExactAioState::Idle);
    assert_eq!(endpoint.payload_pixels(&info), &[5u8; 16]);
    assert!(endpoint.exact_aio_elapsed().is_none());
}

#[test]
fn short_exact_completion_poisons_and_keeps_the_old_payload() {
    let mut gud = GudState::new();
    let mut endpoint = PixelDataEndpoint::new_with_read_size(16 * 1024).unwrap();
    let info = frame(0, 16, 0);
    endpoint.begin_exact_payload_aio(&info).unwrap();
    endpoint.exact_payload_submission_accepted(&mut gud).unwrap();
    endpoint.note_status_sent(GUD_STATUS_OK).unwrap();
    let err = endpoint
        .complete_exact_payload_aio(BytesMut::from(&[1u8; 15][..]), 16)
        .unwrap_err();
    assert_eq!(
        err.message(),
        "exact FunctionFS AIO completion length mismatch: expected=16, actual=15"
    );
    assert_eq!(endpoint.exact_aio_state(), ExactAioState::Poisoned);
    assert_eq!(endpoint.payload_seq, 0);
    assert!(endpoint.payload_pixels(&info).is_empty());
}

#[test]
fn refused_submission_returns_idle_and_reports_an_error_status() {
    let mut gud = GudState::new();
    let mut endpoint = PixelDataEndpoint::new_with_read_size(16 * 1024).unwrap();
    endpoint.begin_exact_payload_aio(&frame(0, 16, 0)).unwrap();
    endpoint
        .exact_payload_submission_failed(&mut gud, SubmissionFailure::Refused)
        .unwrap();
    assert_eq!(endpoint.exact_aio_state(), ExactAioState::Idle);
    assert_eq!(gud.current_status(), GUD_STATUS_ERROR);
    endpoint.begin_exact_payload_aio(&frame(0, 16, 0)).unwrap();
    endpoint
        .exact_payload_submission_failed(&mut gud, SubmissionFailure::AllocationMismatch)
        .unwrap();
    assert_eq!(gud.current_status(), GUD_STATUS_ERROR);
    assert_eq!(endpoint.exact_aio_sequence(), 2);
}

#[test]
fn legacy_and_prearmed_endpoints_refuse_exact_transfers() {
    let mut legacy = PixelDataEndpoint::new_legacy_512();
    let err = legacy.begin_exact_payload_aio(&frame(0, 16, 0)).unwrap_err();
    assert_eq!(err.message(), "exact FunctionFS AIO is unavailable in legacy mode");
    let mut endpoint = PixelDataEndpoint::new_with_read_size(16 * 1024).unwrap();
    endpoint.check_prearm_payload_read(8 * 1024).unwrap();
    endpoint.record_prearmed_read(8 * 1024, 3);
    let err = endpoint.begin_exact_payload_aio(&frame(0, 16, 0)).unwrap_err();
    assert_eq!(err.message(), "old prearm and STATUS_ON_SET AIO cannot coexist");
    assert_eq!(endpoint.exact_aio_state(), ExactAioState::Idle);
}

#[test]
fn poisoning_reports_busy() {
    let mut gud = GudState::new();
    let mut endpoint = PixelDataEndpoint::new_with_read_size(16 * 1024).unwrap();
    endpoint.poison_exact_payload_aio(&mut gud);
    assert_eq!(endpoint.exact_aio_state(), ExactAioState::Poisoned);
    assert_eq!(gud.current_status(), GUD_STATUS_BUSY);
}

#[test]
fn prearmed_reads_are_checked_and_taken_once() {
    let mut endpoint = PixelDataEndpoint::new_with_read_size(16 * 1024).unwrap();
    let err = endpoint.check_prearm_payload_read(32 * 1024).unwrap_err();
    assert_eq!(
        err.message(),
        "prearmed FunctionFS read size 32768 exceeds configured read ceiling 16384"
    );
    endpoint.record_prearmed_read(8 * 1024, 7);
    assert_eq!(
        endpoint.check_prearm_payload_read(8 * 1024).unwrap_err().message(),
        "a FunctionFS bulk OUT read is already prearmed"
    );
    let err = endpoint.take_prearmed_read(9 * 1024).unwrap_err();
    assert_eq!(err.message(), "SET_BUFFER payload 9216 exceeds prearmed read size 8192");
    assert!(endpoint.prearmed.is_none());
    endpoint.record_prearmed_read(8 * 1024, 7);
    let prearmed = endpoint.take_prearmed_read(100).unwrap();
    let stats = endpoint
        .finish_prearmed_payload_read(prearmed, 4, 100, BytesMut::from(&[3u8; 8192][..]), 100)
        .unwrap();
    assert_eq!(stats.read_calls, 1);
    assert_eq!(stats.first_request_bytes, 8192);
    assert_eq!(endpoint.payload_pixels(&frame(0, 100, 0)), &[3u8; 100][..]);
    let err = endpoint
        .finish_prearmed_payload_read(prearmed, 5, 100, BytesMut::from(&[3u8; 8192][..]), 99)
        .unwrap_err();
    assert!(err.message().contains("result_bytes=99"));
}

#[test]
fn compressed_payloads_are_decompressed_into_the_frame_buffer() {
    let frame_bytes: Vec<u8> = (0..64u8).collect();
    let compressed = lz4::block::compress(&frame_bytes, None, false).unwrap();
    let mut endpoint = PixelDataEndpoint::new_with_read_size(16 * 1024).unwrap();
    let info = frame(GUD_COMPRESSION_LZ4, 64, compressed.len() as u32);
    endpoint.buf = BytesMut::from(&compressed[..]);
    let stats = PayloadStats {
        read_ms: 2,
        ..PayloadStats::default()
    };
    let out = endpoint.finish_payload(&info, stats, &Instant::now()).unwrap();
    assert_eq!(out.read_ms, 2);
    assert_eq!(endpoint.payload_pixels(&info), frame_bytes.as_slice());

    endpoint.buf = BytesMut::from(&[0xffu8, 0xff, 0xff][..]);
    assert_eq!(
        endpoint
            .finish_payload(&info, stats, &Instant::now())
            .unwrap_err()
            .message(),
        "lz4 decompress"
    );
}

#[test]
fn uncompressed_payloads_are_used_as_received() {
    let mut endpoint = PixelDataEndpoint::new_with_read_size(16 * 1024).unwrap();
    let info = frame(0, 4, 0);
    endpoint.buf = BytesMut::from(&[1u8, 2, 3, 4][..]);
    let stats = PayloadStats::default();
    let out = endpoint.finish_payload(&info, stats, &Instant::now()).unwrap();
    assert_eq!(out.decompress_ms, 0);
    assert_eq!(endpoint.payload_pixels(&info), &[1u8, 2, 3, 4]);
}
