use octapulse::audit::AuditStats;
use octapulse::audit::RowReading;

/// A minimal, well-formed 2x2 24-bit bitmap: 14-byte file header,
/// 40-byte info header, two 8-byte pixel rows.
fn tiny_bitmap() -> Vec<u8> {
    let mut b: Vec<u8> = Vec::new();
    // File header: magic, file size 70, reserved, pixel data offset 54.
    b.extend_from_slice(&[0x42, 0x4D]);
    b.extend_from_slice(&70u32.to_le_bytes());
    b.extend_from_slice(&[0, 0, 0, 0]);
    b.extend_from_slice(&54u32.to_le_bytes());
    // Info header: size 40, width 2, height 2, 1 plane, 24 bpp,
    // no compression, 16 bytes of pixel data, no palette.
    b.extend_from_slice(&40u32.to_le_bytes());
    b.extend_from_slice(&2i32.to_le_bytes());
    b.extend_from_slice(&2i32.to_le_bytes());
    b.extend_from_slice(&1u16.to_le_bytes());
    b.extend_from_slice(&24u16.to_le_bytes());
    b.extend_from_slice(&0u32.to_le_bytes());
    b.extend_from_slice(&16u32.to_le_bytes());
    b.extend_from_slice(&0u32.to_le_bytes());
    b.extend_from_slice(&0u32.to_le_bytes());
    b.extend_from_slice(&0u32.to_le_bytes());
    b.extend_from_slice(&0u32.to_le_bytes());
    // Two rows of two blue-green-red triples, each padded to four bytes.
    b.extend_from_slice(&[255, 0, 0, 0, 255, 0, 0, 0]);
    b.extend_from_slice(&[0, 0, 255, 128, 128, 128, 0, 0]);
    assert_eq!(b.len(), 70);
    b
}

#[test]
fn decodable_blob_counts_as_healthy() {
    let mut stats = AuditStats::new();
    stats.record_row(&RowReading::Asset(tiny_bitmap()));
    assert_eq!(stats.total_scanned(), 1);
    assert_eq!(stats.healthy(), 1);
    assert_eq!(stats.corrupted_blob(), 0);
    assert_eq!(stats.db_schema_error(), 0);
    assert!(stats.is_system_healthy());
}

#[test]
fn garbage_blob_counts_as_corrupted() {
    let mut stats = AuditStats::new();
    stats.record_row(&RowReading::Asset(vec![0xDE, 0xAD, 0xBE, 0xEF, 0x00, 0x01]));
    assert_eq!(stats.total_scanned(), 1);
    assert_eq!(stats.healthy(), 0);
    assert_eq!(stats.corrupted_blob(), 1);
    assert!(!stats.is_system_healthy());
}

#[test]
fn truncated_image_counts_as_corrupted() {
    // A correct bitmap magic with the rest cut off must not pass.
    let mut blob = tiny_bitmap();
    blob.truncate(20);
    let mut stats = AuditStats::new();
    stats.record_row(&RowReading::Asset(blob));
    assert_eq!(stats.healthy(), 0);
    assert_eq!(stats.corrupted_blob(), 1);
}

#[test]
fn mistyped_row_counts_as_schema_error() {
    let mut stats = AuditStats::new();
    stats.record_row(&RowReading::SchemaMismatch);
    assert_eq!(stats.total_scanned(), 1);
    assert_eq!(stats.db_schema_error(), 1);
    assert_eq!(stats.healthy(), 0);
    assert!(!stats.is_system_healthy());
}

#[test]
fn unreadable_row_only_counts_as_scanned() {
    let mut stats = AuditStats::new();
    stats.record_row(&RowReading::ReadFailure);
    assert_eq!(stats.total_scanned(), 1);
    assert_eq!(stats.healthy(), 0);
    assert_eq!(stats.corrupted_blob(), 0);
    assert_eq!(stats.db_schema_error(), 0);
    // Nothing was found corrupted, so the verdict stays healthy.
    assert!(stats.is_system_healthy());
}

#[test]
fn mixed_scan_counts_every_row_once() {
    let mut stats = AuditStats::new();
    stats.record_row(&RowReading::Asset(tiny_bitmap()));
    stats.record_row(&RowReading::Asset(vec![1, 2, 3]));
    stats.record_row(&RowReading::SchemaMismatch);
    stats.record_row(&RowReading::ReadFailure);
    stats.record_row(&RowReading::Asset(tiny_bitmap()));
    assert_eq!(stats.total_scanned(), 5);
    assert_eq!(stats.healthy(), 2);
    assert_eq!(stats.corrupted_blob(), 1);
    assert_eq!(stats.db_schema_error(), 1);
    assert!(!stats.is_system_healthy());
}
