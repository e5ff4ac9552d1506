use windows_erg::file::raw::{RawReadCursor, RawReadError, RawReadPlan, ERROR_INSUFFICIENT_BUFFER};
use windows_erg::file::win::{buffer_to_retrieval_pointers, get_drive_and_disk, PointerExtent, RetrievalPointersBuffer};
use windows_erg::file::RawFileBuilder;
use windows_erg::Error;

#[test]
fn open_requires_path() {
    let result = RawFileBuilder::new().open();
    match result {
        Err(Error::InvalidParameter(e)) => {
            assert_eq!(e.parameter, "path");
        }
        _ => panic!("expected InvalidParameter error"),
    }
}

#[test]
fn parses_drive_and_disk_prefix() {
    let (drive, disk) = get_drive_and_disk(r"C:\\Windows\\notepad.exe").unwrap();
    assert_eq!(drive, r"\\.\C:");
    assert_eq!(disk, r"C:\");
}

#[test]
fn parses_retrieval_pointer_buffer() {
    // extent_count=1, reserved=0, starting_vcn=0, next_vcn=4, lcn=1024
    let mut raw = Vec::new();
    raw.extend(1u32.to_le_bytes());
    raw.extend(0u32.to_le_bytes());
    raw.extend(0i64.to_le_bytes());
    raw.extend(4i64.to_le_bytes());
    raw.extend(1024i64.to_le_bytes());

    let parsed = buffer_to_retrieval_pointers(&raw).unwrap();
    assert_eq!(parsed.extent_count, 1);
    assert_eq!(parsed.starting_vcn, 0);
    assert_eq!(parsed.extents.len(), 1);
    assert_eq!(parsed.extents[0].next_vcn, 4);
    assert_eq!(parsed.extents[0].lcn, 1024);
}

#[test]
fn retrieval_pointer_buffer_too_short_header() {
    let raw = vec![0u8; 15];
    match buffer_to_retrieval_pointers(&raw) {
        Err(Error::FileOperation(e)) => assert_eq!(e.operation, "parse retrieval pointers"),
        _ => panic!("expected FileOperation error"),
    }
}

#[test]
fn retrieval_pointer_buffer_missing_extent() {
    let mut raw = Vec::new();
    raw.extend(2u32.to_le_bytes());
    raw.extend(0u32.to_le_bytes());
    raw.extend(0i64.to_le_bytes());
    raw.extend(4i64.to_le_bytes());
    raw.extend(1024i64.to_le_bytes());
    match buffer_to_retrieval_pointers(&raw) {
        Err(Error::FileOperation(e)) => assert_eq!(e.operation, "parse retrieval pointer extents"),
        _ => panic!("expected FileOperation error"),
    }
}

#[test]
fn drive_prefix_required() {
    match get_drive_and_disk("relative\\path.txt") {
        Err(Error::InvalidParameter(e)) => assert_eq!(e.parameter, "path"),
        _ => panic!("expected InvalidParameter error"),
    }
}

#[test]
fn open_with_path_builds_plan() {
    let plan = RawFileBuilder::new()
        .path("D:\\data\\file.bin")
        .clusters_per_read(0)
        .metadata_buffer_capacity(10)
        .open()
        .unwrap();
    assert_eq!(plan.volume_path, "\\\\.\\D:");
    assert_eq!(plan.volume_root, "D:\\");
    assert_eq!(plan.clusters_per_read, 1);
    assert_eq!(plan.metadata_buffer_capacity, 4096);
}

fn two_extents() -> RetrievalPointersBuffer {
    RetrievalPointersBuffer {
        extent_count: 2,
        starting_vcn: 0,
        extents: vec![PointerExtent { next_vcn: 2, lcn: 100 }, PointerExtent { next_vcn: 5, lcn: 300 }],
    }
}

#[test]
fn raw_cursor_reads_extents_in_order() {
    // 512-byte sectors, 8 sectors per cluster: 4096-byte clusters.
    let mut cursor = RawReadCursor::new(5 * 4096 - 100, two_extents(), 512, 8);
    assert_eq!(cursor.bytes_per_cluster(), 4096);

    // Buffer of one cluster: the first read is cluster 0 of extent 0.
    match cursor.plan_read(4096) {
        RawReadPlan::Read { disk_offset, bytes_to_read, clusters_to_read, clusters_available } => {
            assert_eq!(disk_offset, 100 * 4096);
            assert_eq!(bytes_to_read, 4096);
            assert_eq!(clusters_to_read, 1);
            assert_eq!(clusters_available, 2);
            assert_eq!(cursor.commit_read(4096, clusters_to_read, clusters_available), 4096);
        }
        other => panic!("unexpected plan {:?}", other),
    }

    // A large buffer: the rest of extent 0, one cluster.
    match cursor.plan_read(8 * 4096) {
        RawReadPlan::Read { disk_offset, bytes_to_read, clusters_to_read, clusters_available } => {
            assert_eq!(disk_offset, 101 * 4096);
            assert_eq!(bytes_to_read, 4096);
            assert_eq!(clusters_to_read, 1);
            assert_eq!(clusters_available, 1);
            assert_eq!(cursor.commit_read(4096, clusters_to_read, clusters_available), 4096);
        }
        other => panic!("unexpected plan {:?}", other),
    }

    // Extent 1 holds three clusters; the last read is cut to the file size.
    match cursor.plan_read(8 * 4096) {
        RawReadPlan::Read { disk_offset, bytes_to_read, clusters_to_read, clusters_available } => {
            assert_eq!(disk_offset, 300 * 4096);
            assert_eq!(bytes_to_read, 3 * 4096);
            assert_eq!(clusters_to_read, 3);
            assert_eq!(clusters_available, 3);
            assert_eq!(cursor.commit_read(3 * 4096, clusters_to_read, clusters_available), 3 * 4096 - 100);
        }
        other => panic!("unexpected plan {:?}", other),
    }

    assert_eq!(cursor.plan_read(4096), RawReadPlan::EndOfData);
}

#[test]
fn raw_cursor_buffer_too_small() {
    let mut cursor = RawReadCursor::new(4096, two_extents(), 512, 8);
    assert_eq!(cursor.plan_read(4095), RawReadPlan::BufferTooSmall);
}

#[test]
fn raw_cursor_rejects_non_monotonic_extents() {
    let pointers = RetrievalPointersBuffer {
        extent_count: 2,
        starting_vcn: 0,
        extents: vec![PointerExtent { next_vcn: 4, lcn: 10 }, PointerExtent { next_vcn: 2, lcn: 20 }],
    };
    let mut cursor = RawReadCursor::new(10 * 4096, pointers, 512, 8);
    match cursor.plan_read(16 * 4096) {
        RawReadPlan::Read { clusters_to_read, clusters_available, .. } => {
            cursor.commit_read(4 * 4096, clusters_to_read, clusters_available);
        }
        other => panic!("unexpected plan {:?}", other),
    }
    assert_eq!(cursor.plan_read(16 * 4096), RawReadPlan::NotMonotonic);
}

#[test]
fn raw_cursor_offset_out_of_range() {
    let pointers = RetrievalPointersBuffer {
        extent_count: 1,
        starting_vcn: 0,
        extents: vec![PointerExtent { next_vcn: 1, lcn: i64::MAX / 2 }],
    };
    let mut cursor = RawReadCursor::new(4096, pointers, 512, 8);
    assert_eq!(cursor.plan_read(4096), RawReadPlan::OffsetOverflow);
}

#[test]
fn complete_read_maps_plans_and_never_passes_file_size() {
    let mut cursor = RawReadCursor::new(4096 + 10, two_extents(), 512, 8);
    let small = cursor.plan_read(100);
    assert_eq!(cursor.complete_read(small, Ok(0)), Err(RawReadError::Os(ERROR_INSUFFICIENT_BUFFER)));
    assert_eq!(ERROR_INSUFFICIENT_BUFFER, 122);
    assert_eq!(cursor.bytes_read(), 0);
    let plan = cursor.plan_read(4096);
    assert_eq!(cursor.complete_read(plan, Err(5)), Err(RawReadError::Os(5)));
    assert_eq!(cursor.bytes_read(), 0);
    let plan = cursor.plan_read(4096);
    assert_eq!(cursor.complete_read(plan, Ok(4096)), Ok(4096));
    let plan = cursor.plan_read(8 * 4096);
    assert_eq!(cursor.complete_read(plan, Ok(8 * 4096)), Ok(10));
    assert_eq!(cursor.bytes_read(), 4096 + 10);
    let plan = cursor.plan_read(4096);
    assert_eq!(plan, RawReadPlan::EndOfData);
    assert_eq!(cursor.complete_read(plan, Ok(4096)), Ok(0));
    assert_eq!(cursor.bytes_read(), 4096 + 10);
}
