use dlms_cosem::Dlms;
use smart_meter::{DecryptOutcome, Engine, Error, MBusDataLinkLayer, SmartMeter, Step};

type Meter = Engine<MBusDataLinkLayer>;

/// A short frame: start, control, address, checksum, stop.
const SHORT: [u8; 5] = [0x10, 0x40, 0x01, 0x41, 0x16];

fn meter() -> Meter {
    Engine::new()
}

fn meter_with(bytes: &[u8]) -> Meter {
    let mut meter = meter();
    meter.feed(bytes);
    meter
}

fn emitted_ok(item: Option<Result<u32, Error>>) -> Option<u32> {
    match item {
        Some(Ok(message)) => Some(message),
        _ => None,
    }
}

#[test]
fn new_engine_is_empty_and_looks_for_one_frame() {
    let meter = meter();
    assert!(meter.buffer().is_empty());
    assert_eq!(meter.bytes_needed(), 0);
    assert_eq!(meter.frames_needed(), 1);
    assert!(meter.frame_lengths().is_empty());
    assert!(!meter.is_stopped());
}

#[test]
fn empty_buffer_asks_for_one_byte() {
    let mut meter = meter();
    assert_eq!(meter.advance(), Step::Read(1));
    assert_eq!(meter.bytes_needed(), 1);
    assert!(meter.buffer().is_empty());
}

#[test]
fn waiting_engine_repeats_its_request() {
    let mut meter = meter_with(&[0x68, 0x0a, 0x0a, 0x68, 0x53, 0xff, 0x00]);
    assert_eq!(meter.advance(), Step::Read(7));
    assert_eq!(meter.advance(), Step::Read(7));
    assert_eq!(meter.buffer().len(), 7);
    meter.feed(&[1, 2, 3]);
    assert_eq!(meter.bytes_needed(), 4);
    assert_eq!(meter.advance(), Step::Read(4));
    assert_eq!(meter.buffer(), &[0x68, 0x0a, 0x0a, 0x68, 0x53, 0xff, 0x00, 1, 2, 3]);
}

#[test]
fn feed_counts_against_bytes_needed() {
    let mut meter = meter();
    assert_eq!(meter.advance(), Step::Read(1));
    meter.feed(&[0x10, 0x40]);
    assert_eq!(meter.bytes_needed(), 0);
    assert_eq!(meter.buffer(), &[0x10, 0x40]);
    assert_eq!(meter.advance(), Step::Read(1));
    meter.feed(&[]);
    assert_eq!(meter.bytes_needed(), 1);
}

#[test]
fn complete_frame_is_handed_to_decryption() {
    let mut meter = meter_with(&[0x10, 0x40, 0x01, 0x41, 0x16, 0xe5]);
    assert_eq!(meter.advance(), Step::Decrypt);
    assert_eq!(meter.frame_lengths(), &[5]);
    assert_eq!(meter.frame_set(), &SHORT);
    assert_eq!(meter.buffer().len(), 6);
    assert_eq!(meter.bytes_needed(), 0);
    // asking again finds the same frame set
    assert_eq!(meter.advance(), Step::Decrypt);
    assert_eq!(meter.frame_lengths(), &[5]);
}

#[test]
fn malformed_byte_costs_exactly_one_byte() {
    let mut meter = meter_with(&[0x00, 0xe5, 0xe5]);
    assert_eq!(meter.advance(), Step::Decrypt);
    assert_eq!(meter.buffer(), &[0xe5, 0xe5]);
    assert_eq!(meter.frame_lengths(), &[1]);
}

#[test]
fn malformed_bytes_only_leave_an_empty_buffer() {
    let mut meter = meter_with(&[0x00, 0x01, 0x02, 0x03]);
    assert_eq!(meter.advance(), Step::Read(1));
    assert!(meter.buffer().is_empty());
    assert_eq!(meter.frames_needed(), 1);
}

#[test]
fn corrupted_checksum_is_resynced_byte_by_byte() {
    // a short frame with a wrong checksum, then a good one
    let mut stream = vec![0x10, 0x40, 0x01, 0x42, 0x16];
    stream.extend_from_slice(&SHORT);
    let mut meter = meter_with(&stream);
    assert_eq!(meter.advance(), Step::Decrypt);
    assert_eq!(meter.buffer(), &SHORT);
    assert_eq!(meter.frame_lengths(), &[5]);
}

#[test]
fn incomplete_frame_keeps_the_buffer() {
    let mut meter = meter_with(&[0x00, 0x10, 0x40]);
    assert_eq!(meter.advance(), Step::Read(1));
    assert_eq!(meter.buffer(), &[0x10, 0x40]);
    assert_eq!(meter.bytes_needed(), 1);
    assert!(meter.frame_lengths().is_empty());
}

#[test]
fn success_drains_all_frames_of_the_set() {
    let mut stream = SHORT.to_vec();
    stream.extend_from_slice(&[0xe5, 0xe5, 0x10]);
    let mut meter = meter_with(&stream);
    assert_eq!(meter.advance(), Step::Decrypt);
    assert_eq!(meter.resolve(DecryptOutcome::<u32>::NeedsMore(Some(2))).map(|r| r.is_ok()), None);
    assert_eq!(meter.frames_needed(), 3);
    assert_eq!(meter.buffer().len(), 8);
    assert_eq!(meter.advance(), Step::Decrypt);
    assert_eq!(meter.frame_lengths(), &[5, 1, 1]);
    assert_eq!(meter.frame_set(), &stream[..7]);
    assert_eq!(emitted_ok(meter.resolve(DecryptOutcome::Success(42u32))), Some(42));
    assert_eq!(meter.buffer(), &[0x10]);
    assert_eq!(meter.bytes_needed(), 0);
    assert_eq!(meter.frames_needed(), 1);
    assert!(meter.frame_lengths().is_empty());
}

#[test]
fn soft_failure_drains_the_first_frame_alone() {
    let mut stream = SHORT.to_vec();
    stream.extend_from_slice(&[0xe5, 0xe5]);
    let mut meter = meter_with(&stream);
    assert_eq!(meter.advance(), Step::Decrypt);
    assert!(meter.resolve(DecryptOutcome::<u32>::NeedsMore(None)).is_none());
    assert_eq!(meter.frames_needed(), 2);
    assert_eq!(meter.advance(), Step::Decrypt);
    assert_eq!(meter.frame_lengths(), &[5, 1]);
    assert!(meter.resolve(DecryptOutcome::<u32>::SoftFailure).is_none());
    assert_eq!(meter.buffer(), &[0xe5, 0xe5]);
    assert_eq!(meter.frames_needed(), 1);
    assert_eq!(meter.bytes_needed(), 0);
    assert!(!meter.is_stopped());
    assert_eq!(meter.advance(), Step::Decrypt);
    assert_eq!(meter.frame_lengths(), &[1]);
}

#[test]
fn needs_more_leaves_the_buffer_and_reparses_from_the_front() {
    let mut meter = meter_with(&[0xe5, 0xe5]);
    assert_eq!(meter.advance(), Step::Decrypt);
    assert!(meter.resolve(DecryptOutcome::<u32>::NeedsMore(None)).is_none());
    assert_eq!(meter.buffer(), &[0xe5, 0xe5]);
    assert_eq!(meter.frames_needed(), 2);
    assert_eq!(meter.advance(), Step::Decrypt);
    assert_eq!(meter.frame_lengths(), &[1, 1]);
    assert!(meter.resolve(DecryptOutcome::<u32>::NeedsMore(Some(1))).is_none());
    assert_eq!(meter.frames_needed(), 3);
    // the third frame is not there yet
    assert_eq!(meter.advance(), Step::Read(1));
    assert_eq!(meter.buffer(), &[0xe5, 0xe5]);
    assert_eq!(meter.frames_needed(), 3);
}

#[test]
fn needs_more_stops_at_the_largest_number() {
    let mut meter = meter_with(&[0xe5]);
    assert_eq!(meter.advance(), Step::Decrypt);
    assert!(meter.resolve(DecryptOutcome::<u32>::NeedsMore(Some(usize::MAX))).is_none());
    assert_eq!(meter.frames_needed(), usize::MAX);
    assert_eq!(meter.advance(), Step::Read(1));
}

#[test]
fn malformed_frame_behind_good_ones_resets_frames_needed() {
    let mut meter = meter_with(&[0xe5, 0x00, 0xe5]);
    assert_eq!(meter.advance(), Step::Decrypt);
    assert!(meter.resolve(DecryptOutcome::<u32>::NeedsMore(None)).is_none());
    // the second frame is malformed: the first byte goes, then the malformed one
    assert_eq!(meter.advance(), Step::Decrypt);
    assert_eq!(meter.buffer(), &[0xe5]);
    assert_eq!(meter.frames_needed(), 1);
    assert_eq!(meter.frame_lengths(), &[1]);
}

#[test]
fn hard_failure_is_emitted_once_and_stops_the_engine() {
    let mut meter = meter_with(&[0xe5, 0xe5]);
    assert_eq!(meter.advance(), Step::Decrypt);
    match meter.resolve(DecryptOutcome::<u32>::HardFailure) {
        Some(Err(Error::DecryptionFailed)) => (),
        other => panic!("{:?}", other),
    }
    assert!(meter.is_stopped());
    assert_eq!(meter.buffer(), &[0xe5, 0xe5]);
    assert_eq!(meter.advance(), Step::Stopped);
    assert!(meter.resolve(DecryptOutcome::<u32>::HardFailure).is_none());
    assert!(meter.resolve(DecryptOutcome::Success(1u32)).is_none());
    meter.feed(&[0xe5]);
    assert_eq!(meter.advance(), Step::Stopped);
    assert!(meter.is_stopped());
}

#[test]
fn feed_in_pieces_is_feed_at_once() {
    let mut stream = vec![0x00, 0x00];
    stream.extend_from_slice(&SHORT);
    let mut whole = meter();
    whole.feed(&stream);
    let mut pieces = meter();
    for byte in &stream {
        pieces.feed(&[*byte]);
    }
    assert_eq!(whole.buffer(), pieces.buffer());
    assert_eq!(whole.bytes_needed(), pieces.bytes_needed());
    assert_eq!(whole.advance(), pieces.advance());
    assert_eq!(whole.buffer(), pieces.buffer());
    assert_eq!(whole.frame_lengths(), pieces.frame_lengths());
}

#[test]
fn garbage_in_front_takes_one_resync_step_per_byte() {
    for garbage in 0..6usize {
        let mut stream = vec![0x00; garbage];
        stream.extend_from_slice(&SHORT);
        let mut meter = meter_with(&stream);
        assert_eq!(meter.advance(), Step::Decrypt);
        assert_eq!(stream.len() - meter.buffer().len(), garbage);
        assert_eq!(meter.buffer(), &SHORT);
        assert_eq!(meter.frame_set(), &SHORT);
    }
}

#[test]
fn drain_front_removes_a_prefix() {
    let mut buffer = vec![1u8, 2, 3, 4, 5];
    smart_meter::buffer::drain_front(&mut buffer, 0);
    assert_eq!(buffer, vec![1, 2, 3, 4, 5]);
    smart_meter::buffer::drain_front(&mut buffer, 2);
    assert_eq!(buffer, vec![3, 4, 5]);
    smart_meter::buffer::drain_front(&mut buffer, 3);
    assert!(buffer.is_empty());
}

#[test]
fn append_keeps_the_order() {
    let mut buffer = vec![1u8, 2];
    smart_meter::buffer::append(&mut buffer, &[3, 4]);
    smart_meter::buffer::append(&mut buffer, &[]);
    assert_eq!(buffer, vec![1, 2, 3, 4]);
}

#[test]
fn reader_and_key_are_kept() {
    let mut meter: SmartMeter<Vec<u8>, MBusDataLinkLayer> =
        SmartMeter::apdu_iter(vec![1, 2, 3], Dlms::new([7u8; 16]));
    assert_eq!(meter.reader(), &mut vec![1, 2, 3]);
    meter.reader().push(4);
    meter.engine_mut().feed(&[0xe5]);
    assert_eq!(meter.reader(), &mut vec![1, 2, 3, 4]);
    assert_eq!(meter.engine().buffer(), &[0xe5]);
    assert_eq!(meter.engine_mut().advance(), Step::Decrypt);
    assert_eq!(meter.engine().frame_lengths(), &[1]);
    assert_eq!(format!("{:?}", meter.dlms()), format!("{:?}", Dlms::new([7u8; 16])));
}
