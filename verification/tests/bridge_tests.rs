use spi_bridge::bridge::{screen_frame, write_response, BridgeResponse, Data, DATA_LEN};

/// A stand-in for the bus handle that counts how many writes reach the
/// device and reports the transferred byte count verbatim.
struct MockBus {
    writes: usize,
}

impl MockBus {
    fn write(&mut self, data: &[u8]) -> Result<usize, String> {
        self.writes += 1;
        Ok(data.len())
    }
}

/// The endpoint flow around the verified pieces: screen the payload, and
/// only when it passes, write and shape the outcome.
fn submit(bus: &mut MockBus, raw: Vec<u8>, data_len: u16) -> BridgeResponse {
    let data = Data { raw };
    match screen_frame(&data, data_len) {
        Some(resp) => resp,
        None => write_response(bus.write(&data.raw)),
    }
}

#[test]
fn short_payload_is_rejected_without_write() {
    let mut bus = MockBus { writes: 0 };
    let resp = submit(&mut bus, vec![1, 2, 3, 4, 5], 8);
    match resp {
        BridgeResponse::Failure { reason } => {
            assert_eq!(reason, "raw_data is not 8 bytes long");
        }
        BridgeResponse::Success { .. } => panic!("short payload must be rejected"),
    }
    assert_eq!(bus.writes, 0);
}

#[test]
fn long_payload_is_rejected_without_write() {
    let mut bus = MockBus { writes: 0 };
    let resp = submit(&mut bus, vec![0; 9], 8);
    match resp {
        BridgeResponse::Failure { reason } => {
            assert_eq!(reason, "raw_data is not 8 bytes long");
        }
        BridgeResponse::Success { .. } => panic!("long payload must be rejected"),
    }
    assert_eq!(bus.writes, 0);
}

#[test]
fn exact_payload_is_written_once() {
    let mut bus = MockBus { writes: 0 };
    let resp = submit(&mut bus, vec![7; 8], 8);
    assert_eq!(resp, BridgeResponse::Success { bytes_written: 8 });
    assert_eq!(bus.writes, 1);
}

#[test]
fn default_frame_size_is_honoured() {
    assert_eq!(DATA_LEN, 7868);
    let mut bus = MockBus { writes: 0 };
    let resp = submit(&mut bus, vec![0; 7868], DATA_LEN);
    assert_eq!(
        resp,
        BridgeResponse::Success { bytes_written: 7868 }
    );
    let resp = submit(&mut bus, vec![0; 7867], DATA_LEN);
    match resp {
        BridgeResponse::Failure { reason } => {
            assert_eq!(reason, "raw_data is not 7868 bytes long");
        }
        BridgeResponse::Success { .. } => panic!("wrong length must be rejected"),
    }
    assert_eq!(bus.writes, 1);
}

#[test]
fn write_error_text_is_passed_through() {
    let outcome: Result<usize, String> = Err("failed to write data to SPI bus".to_string());
    assert_eq!(
        write_response(outcome),
        BridgeResponse::Failure { reason: "failed to write data to SPI bus".to_string() }
    );
}

#[test]
fn write_success_reports_device_count() {
    let outcome: Result<usize, String> = Ok(4096);
    assert_eq!(
        write_response(outcome),
        BridgeResponse::Success { bytes_written: 4096 }
    );
}
