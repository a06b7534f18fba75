use sensecap_indicator::firmware::display::BusFault;
use sensecap_indicator::firmware::touch::{
    decode_le_i16, TouchDriver, TouchProgress, TouchRequest, TouchState,
};

fn status_read() -> TouchRequest {
    TouchRequest::Read { address: 0x5D, register_high: 0x81, register_low: 0x4E, len: 1 }
}

fn coordinate_read() -> TouchRequest {
    TouchRequest::Read { address: 0x5D, register_high: 0x81, register_low: 0x40, len: 4 }
}

fn status_clear() -> TouchRequest {
    TouchRequest::Write { address: 0x5D, register_high: 0x81, register_low: 0x4E, data: 0 }
}

/// Runs one whole poll against a digitizer that reports `status` and the
/// given coordinate block.
fn poll(driver: &mut TouchDriver, status: u8, block: [u8; 4]) -> TouchProgress {
    assert_eq!(driver.read(), status_read());
    let mut progress = driver.advance(Ok([status, 0, 0, 0]));
    loop {
        match progress {
            TouchProgress::Pending(TouchRequest::Read { .. }) => {
                progress = driver.advance(Ok(block));
            }
            TouchProgress::Pending(TouchRequest::Write { .. }) => {
                progress = driver.advance(Ok([0; 4]));
            }
            other => return other,
        }
    }
}

#[test]
fn default_sample_is_released_at_the_origin() {
    assert_eq!(TouchState::default(), TouchState { x: 0, y: 0, pressed: false });
    let driver = TouchDriver::new();
    assert!(!driver.is_pressed());
    assert_eq!(driver.get_position(), (0, 0));
}

#[test]
fn register_address_goes_out_high_byte_first() {
    assert_eq!(TouchDriver::gt911_read(0x814E, 1), status_read());
    assert_eq!(TouchDriver::gt911_read(0x8140, 4), coordinate_read());
    assert_eq!(TouchDriver::gt911_write(0x814E, 0), status_clear());
    assert_eq!(
        TouchDriver::gt911_write(0x1234, 0xAB),
        TouchRequest::Write { address: 0x5D, register_high: 0x12, register_low: 0x34, data: 0xAB }
    );
}

#[test]
fn coordinates_are_little_endian() {
    assert_eq!(decode_le_i16(0x34, 0x12), 0x1234);
    assert_eq!(decode_le_i16(0xE0, 0x01), 480);
    assert_eq!(decode_le_i16(0x00, 0x00), 0);
    assert_eq!(decode_le_i16(0xFF, 0x7F), 32767);
    assert_eq!(decode_le_i16(0x00, 0x80), -32768);
    assert_eq!(decode_le_i16(0xFF, 0xFF), -1);
}

#[test]
fn decoding_agrees_with_the_standard_library() {
    for high in 0..=255u8 {
        for low in [0u8, 1, 0x7F, 0x80, 0xFE, 0xFF] {
            assert_eq!(decode_le_i16(low, high), i16::from_le_bytes([low, high]));
        }
    }
}

#[test]
fn poll_begins_with_the_status_byte() {
    let mut driver = TouchDriver::new();
    assert_eq!(driver.read(), status_read());
}

#[test]
fn touch_is_read_decoded_and_acknowledged() {
    let mut driver = TouchDriver::new();
    driver.read();
    assert_eq!(driver.advance(Ok([0x81, 0, 0, 0])), TouchProgress::Pending(coordinate_read()));
    assert!(!driver.is_pressed());
    assert_eq!(
        driver.advance(Ok([0x78, 0x00, 0x2C, 0x01])),
        TouchProgress::Pending(status_clear())
    );
    assert!(!driver.is_pressed());
    assert_eq!(
        driver.advance(Ok([0; 4])),
        TouchProgress::Done(TouchState { x: 120, y: 300, pressed: true })
    );
    assert!(driver.is_pressed());
    assert_eq!(driver.get_position(), (120, 300));
}

#[test]
fn only_the_top_status_bit_counts() {
    let mut driver = TouchDriver::new();
    assert_eq!(
        poll(&mut driver, 0x7F, [1, 1, 1, 1]),
        TouchProgress::Done(TouchState { x: 0, y: 0, pressed: false })
    );
    assert_eq!(
        poll(&mut driver, 0x80, [5, 0, 6, 0]),
        TouchProgress::Done(TouchState { x: 5, y: 6, pressed: true })
    );
}

#[test]
fn release_keeps_the_last_position() {
    let mut driver = TouchDriver::new();
    poll(&mut driver, 0x80, [100, 0, 200, 0]);
    assert_eq!(
        poll(&mut driver, 0x00, [9, 9, 9, 9]),
        TouchProgress::Done(TouchState { x: 100, y: 200, pressed: false })
    );
    assert!(!driver.is_pressed());
    assert_eq!(driver.get_position(), (100, 200));
}

#[test]
fn no_touch_needs_no_further_transaction() {
    let mut driver = TouchDriver::new();
    driver.read();
    assert_eq!(
        driver.advance(Ok([0x00, 0, 0, 0])),
        TouchProgress::Done(TouchState { x: 0, y: 0, pressed: false })
    );
}

#[test]
fn fault_on_the_status_read_drops_the_sample() {
    let mut driver = TouchDriver::new();
    poll(&mut driver, 0x80, [1, 0, 2, 0]);
    driver.read();
    assert_eq!(driver.advance(Err(BusFault::Timeout)), TouchProgress::Failed(BusFault::Timeout));
    assert!(driver.is_pressed());
    assert_eq!(driver.get_position(), (1, 2));
}

#[test]
fn fault_on_the_coordinate_read_drops_the_sample() {
    let mut driver = TouchDriver::new();
    driver.read();
    driver.advance(Ok([0x80, 0, 0, 0]));
    assert_eq!(driver.advance(Err(BusFault::Nack)), TouchProgress::Failed(BusFault::Nack));
    assert!(!driver.is_pressed());
    assert_eq!(driver.get_position(), (0, 0));
}

#[test]
fn fault_on_the_acknowledgement_drops_the_sample() {
    let mut driver = TouchDriver::new();
    driver.read();
    driver.advance(Ok([0x80, 0, 0, 0]));
    driver.advance(Ok([10, 0, 20, 0]));
    assert_eq!(driver.advance(Err(BusFault::Nack)), TouchProgress::Failed(BusFault::Nack));
    assert!(!driver.is_pressed());
    assert_eq!(driver.get_position(), (0, 0));
}

#[test]
fn reply_outside_a_poll_changes_nothing() {
    let mut driver = TouchDriver::new();
    poll(&mut driver, 0x80, [3, 0, 4, 0]);
    assert_eq!(
        driver.advance(Ok([0x80, 0, 0, 0])),
        TouchProgress::Done(TouchState { x: 3, y: 4, pressed: true })
    );
    assert_eq!(
        driver.advance(Err(BusFault::Timeout)),
        TouchProgress::Done(TouchState { x: 3, y: 4, pressed: true })
    );
}

#[test]
fn poll_after_a_fault_starts_afresh() {
    let mut driver = TouchDriver::new();
    driver.read();
    driver.advance(Ok([0x80, 0, 0, 0]));
    driver.advance(Err(BusFault::Timeout));
    assert_eq!(
        poll(&mut driver, 0x80, [7, 0, 8, 0]),
        TouchProgress::Done(TouchState { x: 7, y: 8, pressed: true })
    );
}
