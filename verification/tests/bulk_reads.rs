use std::io::{self, Cursor, Read};

use anyhow::Context;
use bytes::BytesMut;
use gud_gadget::bulk::{
    classify_functionfs_read_completion, usb_packet_estimate, validate_functionfs_read_size,
    BulkReadStats, FunctionFsRead, FunctionFsReadCompletion, Legacy512Read,
    DEFAULT_FUNCTIONFS_BULK_OUT_READ_SIZE, FUNCTIONFS_BULK_OUT_MAX_PACKET_SIZE,
};

struct RecordingReader {
    data: Cursor<Vec<u8>>,
    max_result: Option<usize>,
    reported_result: Option<usize>,
    requests: Vec<usize>,
}

impl RecordingReader {
    fn new(data: Vec<u8>) -> Self {
        Self {
            data: Cursor::new(data),
            max_result: None,
            reported_result: None,
            requests: Vec::new(),
        }
    }

    fn with_max_result(data: Vec<u8>, max_result: usize) -> Self {
        Self {
            data: Cursor::new(data),
            max_result: Some(max_result),
            reported_result: None,
            requests: Vec::new(),
        }
    }

    fn with_reported_result(data: Vec<u8>, reported_result: usize) -> Self {
        Self {
            data: Cursor::new(data),
            max_result: None,
            reported_result: Some(reported_result),
            requests: Vec::new(),
        }
    }
}

impl Read for RecordingReader {
    fn read(&mut self, buf: &mut [u8]) -> io::Result<usize> {
        self.requests.push(buf.len());
        let result_len = self.max_result.unwrap_or(buf.len()).min(buf.len());
        let bytes_read = self.data.read(&mut buf[..result_len])?;
        Ok(self.reported_result.unwrap_or(bytes_read))
    }
}

/// Drives a read plan with blocking reads from `reader`, as the transport does.
fn read_functionfs_payload<R: Read>(
    reader: &mut R,
    buf: &mut BytesMut,
    payload_seq: u64,
    payload_len: usize,
    read_size: usize,
) -> Result<BulkReadStats, String> {
    let mut plan = FunctionFsRead::start(buf, payload_seq, payload_len, read_size)
        .map_err(|err| err.message())?;
    while !plan.is_complete() {
        let (offset, request_bytes) = plan.next_request();
        let bytes_read = reader
            .read(&mut buf[offset..offset + request_bytes])
            .map_err(|err| err.to_string())?;
        plan.finish_read(bytes_read).map_err(|err| err.message())?;
    }
    Ok(plan.stats)
}

#[test]
fn functionfs_read_size_requires_larger_packet_aligned_requests() {
    assert!(validate_functionfs_read_size(4 * 1024).is_ok());
    assert!(validate_functionfs_read_size(16 * 1024).is_ok());
    assert!(validate_functionfs_read_size(DEFAULT_FUNCTIONFS_BULK_OUT_READ_SIZE).is_ok());

    assert!(validate_functionfs_read_size(FUNCTIONFS_BULK_OUT_MAX_PACKET_SIZE).is_err());
    assert!(validate_functionfs_read_size(65_000).is_err());
    assert!(validate_functionfs_read_size(64 * 1024 + 512).is_err());
}

#[test]
fn functionfs_read_completion_classifies_exact_short_and_invalid_results() {
    assert_eq!(
        classify_functionfs_read_completion(8_192, 8_192, 12_800),
        FunctionFsReadCompletion::Exact
    );
    assert_eq!(
        classify_functionfs_read_completion(4_096, 8_192, 12_800),
        FunctionFsReadCompletion::Short
    );
    assert_eq!(
        classify_functionfs_read_completion(0, 8_192, 12_800),
        FunctionFsReadCompletion::Short
    );
    assert_eq!(
        classify_functionfs_read_completion(8_193, 8_192, 12_800),
        FunctionFsReadCompletion::InvalidKernelCompletion
    );
    assert_eq!(
        classify_functionfs_read_completion(4_096, 4_096, 2_048),
        FunctionFsReadCompletion::InvalidKernelCompletion
    );
}

#[test]
fn functionfs_read_completion_classifies_observed_wrapped_dwc2_results() {
    for signed in [-514_048_isize, -518_144_isize] {
        let raw = signed as usize;
        assert_eq!(
            classify_functionfs_read_completion(raw, 8_192, 12_800),
            FunctionFsReadCompletion::InvalidKernelCompletion
        );
        assert_eq!(raw as isize, signed);
    }
}

#[test]
fn functionfs_current_tile_uses_four_staged_reads() {
    let data = vec![0x5a; 64_000];
    let mut reader = RecordingReader::new(data.clone());
    let mut buf = BytesMut::new();

    let stats = read_functionfs_payload(
        &mut reader,
        &mut buf,
        1,
        data.len(),
        DEFAULT_FUNCTIONFS_BULK_OUT_READ_SIZE,
    )
    .unwrap();

    assert_eq!(reader.requests, [16_384, 16_384, 16_384, 14_848]);
    assert_eq!(buf.as_ref(), data.as_slice());
    assert_eq!(stats.read_calls, 4);
    assert_eq!(stats.first_request_bytes, 16_384);
    assert_eq!(stats.last_request_bytes, 14_848);
    assert_eq!(usb_packet_estimate(data.len()), 125);
}

#[test]
fn functionfs_64k_ab_ceiling_uses_one_exact_read() {
    let data = vec![0x3c; 64_000];
    let mut reader = RecordingReader::new(data.clone());
    let mut buf = BytesMut::new();

    let stats = read_functionfs_payload(&mut reader, &mut buf, 2, data.len(), 64 * 1024).unwrap();

    assert_eq!(reader.requests, [64_000]);
    assert_eq!(buf.as_ref(), data.as_slice());
    assert_eq!(stats.read_calls, 1);
    assert_eq!(stats.first_request_bytes, 64_000);
    assert_eq!(stats.last_request_bytes, 64_000);
}

#[test]
fn functionfs_read_ceiling_splits_only_after_full_aligned_request() {
    let data = vec![0xa5; DEFAULT_FUNCTIONFS_BULK_OUT_READ_SIZE + 1];
    let mut reader = RecordingReader::new(data.clone());
    let mut buf = BytesMut::new();

    let stats = read_functionfs_payload(
        &mut reader,
        &mut buf,
        3,
        data.len(),
        DEFAULT_FUNCTIONFS_BULK_OUT_READ_SIZE,
    )
    .unwrap();

    assert_eq!(reader.requests, [16_384, 1]);
    assert_eq!(buf.as_ref(), data.as_slice());
    assert_eq!(stats.read_calls, 2);
    assert_eq!(stats.first_request_bytes, 16_384);
    assert_eq!(stats.last_request_bytes, 1);
}

#[test]
fn functionfs_final_frame_tile_uses_four_staged_reads() {
    let data = vec![0x24; 51_200];
    let mut reader = RecordingReader::new(data.clone());
    let mut buf = BytesMut::new();

    let stats = read_functionfs_payload(
        &mut reader,
        &mut buf,
        4,
        data.len(),
        DEFAULT_FUNCTIONFS_BULK_OUT_READ_SIZE,
    )
    .unwrap();

    assert_eq!(reader.requests, [16_384, 16_384, 16_384, 2_048]);
    assert_eq!(buf.as_ref(), data.as_slice());
    assert_eq!(stats.read_calls, 4);
}

#[test]
fn functionfs_final_unaligned_request_is_not_padded_in_userspace() {
    let data = vec![0x7e; 64_800];
    let mut reader = RecordingReader::new(data.clone());
    let mut buf = BytesMut::new();

    let stats = read_functionfs_payload(
        &mut reader,
        &mut buf,
        5,
        data.len(),
        DEFAULT_FUNCTIONFS_BULK_OUT_READ_SIZE,
    )
    .unwrap();

    assert_eq!(reader.requests, [16_384, 16_384, 16_384, 15_648]);
    assert_eq!(buf.as_ref(), data.as_slice());
    assert_eq!(stats.read_calls, 4);
}

#[test]
fn functionfs_short_read_fails_without_queueing_another_request() {
    let data = vec![0x5a; 64_000];
    let mut reader = RecordingReader::with_max_result(data, 4 * 1024);
    let mut buf = BytesMut::new();

    let err = read_functionfs_payload(
        &mut reader,
        &mut buf,
        6,
        64_000,
        DEFAULT_FUNCTIONFS_BULK_OUT_READ_SIZE,
    )
    .unwrap_err();

    assert_eq!(reader.requests, [16_384]);
    assert!(err.contains("short FunctionFS bulk OUT read"));
    assert!(err.contains("result_bytes=4096"));
}

#[test]
fn functionfs_zero_read_fails_without_busy_looping() {
    let mut reader = RecordingReader::new(Vec::new());
    let mut buf = BytesMut::new();

    let err = read_functionfs_payload(
        &mut reader,
        &mut buf,
        7,
        64_000,
        DEFAULT_FUNCTIONFS_BULK_OUT_READ_SIZE,
    )
    .unwrap_err();

    assert_eq!(reader.requests, [16_384]);
    assert!(err.contains("result_bytes=0"));
}

#[test]
fn functionfs_invalid_completion_fails_without_advancing_receive_accounting() {
    let wrapped_result = (-514_048_isize) as usize;
    let mut reader = RecordingReader::with_reported_result(vec![0x5a; 8_192], wrapped_result);
    let mut buf = BytesMut::new();

    let err = read_functionfs_payload(&mut reader, &mut buf, 8, 12_800, 8 * 1024).unwrap_err();

    assert_eq!(reader.requests, [8_192]);
    assert!(err.contains("invalid kernel FunctionFS read completion"));
    assert!(err.contains("received_bytes_before=0"));
    assert!(err.contains("remaining_before=12800"));
    assert!(err.contains("result_bytes_signed=-514048"));
}

#[test]
fn read_plan_refuses_unaligned_internal_sizes_and_empty_payloads() {
    let mut buf = BytesMut::from(&b"keep"[..]);
    let err = FunctionFsRead::start(&mut buf, 1, 100, 1000).unwrap_err();
    assert!(err.message().contains("non-zero multiple of 512"));
    let err = FunctionFsRead::start(&mut buf, 1, 0, 4096).unwrap_err();
    assert!(err.message().contains("must be non-zero"));
    assert_eq!(buf.as_ref(), b"keep");
}

#[test]
fn legacy_reads_append_packets_retry_empty_ones_and_drop_overshoot() {
    let mut buf = BytesMut::from(&b"stale"[..]);
    let mut plan = Legacy512Read::start(&mut buf, 700);
    assert!(buf.is_empty());
    let packets: [&[u8]; 3] = [&[1u8; 512], &[], &[2u8; 512]];
    for packet in packets {
        assert!(plan.needs_packet(&buf));
        plan.record_packet(&mut buf, packet);
    }
    assert!(!plan.needs_packet(&buf));
    assert_eq!(plan.finish(&mut buf), 1024 - 700);
    assert_eq!(buf.len(), 700);
    assert_eq!(plan.stats.read_calls, 3);
    assert_eq!(plan.stats.first_request_bytes, 512);
    assert_eq!(plan.stats.last_request_bytes, 512);
    assert_eq!(buf[511], 1);
    assert_eq!(buf[512], 2);
}

#[test]
fn usb_packet_estimate_rounds_up_to_whole_packets() {
    assert_eq!(usb_packet_estimate(0), 0);
    assert_eq!(usb_packet_estimate(1), 1);
    assert_eq!(usb_packet_estimate(512), 1);
    assert_eq!(usb_packet_estimate(513), 2);
}

#[test]
fn read_size_errors_name_the_rule_broken() {
    assert!(validate_functionfs_read_size(512)
        .unwrap_err()
        .message()
        .contains("between 4096 and 65536 bytes, got 512"));
    assert!(validate_functionfs_read_size(5000)
        .unwrap_err()
        .message()
        .contains("multiple of 512 bytes, got 5000"));
}

struct InterruptedReader;

impl Read for InterruptedReader {
    fn read(&mut self, _buf: &mut [u8]) -> io::Result<usize> {
        Err(io::Error::new(io::ErrorKind::Interrupted, "interrupted"))
    }
}

/// Drives a read plan as the transport does, keeping the reader's error as
/// the source of a message that names the request.
fn read_functionfs_payload_with_context<R: Read>(
    reader: &mut R,
    buf: &mut BytesMut,
    payload_seq: u64,
    payload_len: usize,
    read_size: usize,
) -> anyhow::Result<BulkReadStats> {
    let mut plan = FunctionFsRead::start(buf, payload_seq, payload_len, read_size)
        .map_err(|e| anyhow::Error::msg(e.message()))?;
    while !plan.is_complete() {
        let (offset, request_bytes) = plan.next_request();
        let read_index = plan.stats.read_calls + 1;
        let bytes_read = reader.read(&mut buf[offset..offset + request_bytes]).with_context(|| {
            format!(
                "read blocking bulk ep: payload_seq={payload_seq}, payload_len={payload_len}, read_size={read_size}, read_index={read_index}, received_bytes={offset}, remaining_before={}, request_bytes={request_bytes}",
                payload_len - offset
            )
        })?;
        plan.finish_read(bytes_read).map_err(|e| anyhow::Error::msg(e.message()))?;
    }
    Ok(plan.stats)
}

#[test]
fn functionfs_read_error_preserves_io_error_in_chain() {
    let mut reader = InterruptedReader;
    let mut buf = BytesMut::new();

    let err = read_functionfs_payload_with_context(
        &mut reader,
        &mut buf,
        8,
        64_000,
        DEFAULT_FUNCTIONFS_BULK_OUT_READ_SIZE,
    )
    .unwrap_err();
    let io_err = err
        .chain()
        .find_map(|cause| cause.downcast_ref::<io::Error>())
        .expect("I/O error should remain in the error chain");

    assert_eq!(io_err.kind(), io::ErrorKind::Interrupted);
    assert!(err.to_string().contains("read_index=1"));
    assert!(err.to_string().contains("request_bytes=16384"));
}
