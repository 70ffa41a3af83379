use dlms_cosem::Dlms;
use smart_meter::{Error, HdlcDataLinkLayer, ObisIterator, Reading, SmartMeter, Step};

fn io_error() -> std::io::Error {
    std::io::Error::new(std::io::ErrorKind::UnexpectedEof, "line went silent")
}

#[test]
fn decoded_message_is_yielded() {
    match Reading::of(Some(Ok(Some(5u8)))) {
        Reading::Yield(Ok(5)) => (),
        other => panic!("{:?}", other),
    }
}

#[test]
fn undecodable_message_is_skipped() {
    match Reading::<u8>::of(Some(Ok(None))) {
        Reading::Skip => (),
        other => panic!("{:?}", other),
    }
}

#[test]
fn engine_error_is_handed_on_unchanged() {
    match Reading::<u8>::of(Some(Err(Error::DecryptionFailed))) {
        Reading::Yield(Err(Error::DecryptionFailed)) => (),
        other => panic!("{:?}", other),
    }
    match Reading::<u8>::of(Some(Err(Error::Io(io_error())))) {
        Reading::Yield(Err(Error::Io(err))) => {
            assert_eq!(err.kind(), std::io::ErrorKind::UnexpectedEof);
            assert_eq!(err.to_string(), "line went silent");
        },
        other => panic!("{:?}", other),
    }
}

#[test]
fn end_of_messages_is_end_of_readings() {
    match Reading::<u8>::of(None) {
        Reading::End => (),
        other => panic!("{:?}", other),
    }
}

#[test]
fn obis_iterator_wraps_and_unwraps() {
    let mut iter = ObisIterator::from(vec![1, 2, 3]);
    assert_eq!(iter.get_mut().pop(), Some(3));
    iter.get_mut().push(9);
    assert_eq!(iter.into_inner(), vec![1, 2, 9]);
}

#[test]
fn obis_iter_starts_a_new_engine() {
    let mut iter: ObisIterator<SmartMeter<&[u8], HdlcDataLinkLayer>> =
        SmartMeter::obis_iter(&[0x7e, 0xa0][..], Dlms::new([1u8; 16]));
    let meter = iter.get_mut();
    assert!(meter.engine().buffer().is_empty());
    assert_eq!(meter.engine().frames_needed(), 1);
    assert_eq!(*meter.reader(), &[0x7e, 0xa0][..]);
    assert_eq!(meter.engine_mut().advance(), Step::Read(1));
}

#[test]
fn error_messages() {
    assert_eq!(Error::DecryptionFailed.message(), "decryption failed");
    assert_eq!(Error::Io(io_error()).message(), "line went silent");
}
