use web_serial_logger::worker::{append_notice, ReadStep, Transfer, SERIAL_BUFFER_SIZE};
use web_serial_logger::view::AlertType;

#[test]
fn buffer_size() {
    assert_eq!(SERIAL_BUFFER_SIZE, 1024);
}

#[test]
fn notice_only_for_non_empty_file() {
    assert!(append_notice(0).is_none());
    let notice = append_notice(1).unwrap();
    assert_eq!(notice.kind, AlertType::Info);
    assert_eq!(notice.message, "The file is not empty, appending data to the end.");
    assert!(append_notice(u64::MAX).is_some());
}

#[test]
fn transfer_counts_chunks() {
    let mut t = Transfer::new();
    assert_eq!(t.received(), 0);
    assert!(matches!(t.read_step(Some(false)), ReadStep::Chunk));
    t.chunk_written(64);
    assert!(matches!(t.read_step(None), ReadStep::Chunk));
    t.chunk_written(1024);
    t.chunk_written(0);
    assert_eq!(t.received(), 1088);
    assert!(matches!(t.read_step(Some(true)), ReadStep::Finished(1088)));
}

#[test]
fn empty_transfer_finishes_with_zero() {
    let t = Transfer::new();
    assert!(matches!(t.read_step(Some(true)), ReadStep::Finished(0)));
}
