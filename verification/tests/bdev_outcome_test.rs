use spdk_io::bdev::{
    completion_outcome, event_log_line, io_channel_outcome, open_outcome, size_bytes,
    submit_outcome, BDEV_EVENT_MEDIA_MANAGEMENT, BDEV_EVENT_REMOVE, BDEV_EVENT_RESIZE,
};
use spdk_io::error::Error;

#[test]
fn bdev_size() {
    assert_eq!(size_bytes(512, 262144), 134217728);
    assert_eq!(size_bytes(4096, 0), 0);
}

#[test]
fn open_outcomes() {
    assert!(open_outcome(0, true).is_ok());
    assert!(matches!(open_outcome(-1, true), Err(Error::Os(1))));
    assert!(matches!(open_outcome(-19, false), Err(Error::Os(19))));
    match open_outcome(0, false) {
        Err(Error::InvalidArgument(m)) => assert_eq!(m, "null descriptor"),
        other => panic!("unexpected: {:?}", other),
    }
}

#[test]
fn io_outcomes() {
    assert!(io_channel_outcome(true).is_ok());
    assert!(matches!(io_channel_outcome(false), Err(Error::ChannelAlloc)));
    assert!(submit_outcome(0).is_ok());
    assert!(matches!(submit_outcome(-22), Err(Error::Os(22))));
    assert!(completion_outcome(true).is_ok());
    assert!(matches!(completion_outcome(false), Err(Error::IoError)));
}

#[test]
fn event_log_lines() {
    assert_eq!(event_log_line(BDEV_EVENT_REMOVE, "Null0"), "bdev event: Null0 is being removed");
    assert_eq!(event_log_line(BDEV_EVENT_RESIZE, "Null0"), "bdev event: Null0 was resized");
    assert_eq!(event_log_line(BDEV_EVENT_MEDIA_MANAGEMENT, "Null0"), "bdev event: Null0 media management");
    assert_eq!(event_log_line(9, "<null>"), "bdev event: <null> unknown event 9");
}
