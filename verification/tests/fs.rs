use zephyr::fs::{fat_rw, fatfs_buffer_words, FatAction, ENODEV};

/// Drives a round trip with fixed replies and returns the calls made and the result.
fn drive(
    init: i32,
    mount: i32,
    open_w: i32,
    written: isize,
    open_r: i32,
    read: isize,
) -> (Vec<FatAction>, Result<usize, i32>) {
    let mut s = fat_rw();
    let mut calls = Vec::new();
    loop {
        let a = s.action();
        match a {
            FatAction::Finish(res) => return (calls, res),
            FatAction::Write => s.transferred(written),
            FatAction::Read => s.transferred(read),
            FatAction::InitDisk => s.completed(init),
            FatAction::Mount => s.completed(mount),
            FatAction::OpenForWrite => s.completed(open_w),
            FatAction::OpenForRead => s.completed(open_r),
            FatAction::Close | FatAction::Unmount => s.completed(-1),
        }
        calls.push(a);
        assert!(calls.len() <= 9);
    }
}

#[test]
fn fat_round_trip_success() {
    let (calls, res) = drive(0, 0, 0, 11, 0, 11);
    assert_eq!(res, Ok(11));
    assert_eq!(
        calls,
        vec![
            FatAction::InitDisk,
            FatAction::Mount,
            FatAction::OpenForWrite,
            FatAction::Write,
            FatAction::Close,
            FatAction::OpenForRead,
            FatAction::Read,
            FatAction::Close,
            FatAction::Unmount,
        ]
    );
}

#[test]
fn fat_disk_init_failure_is_enodev() {
    let (calls, res) = drive(-5, 0, 0, 0, 0, 0);
    assert_eq!(res, Err(-ENODEV));
    assert_eq!(res, Err(-19));
    assert_eq!(calls, vec![FatAction::InitDisk]);
}

#[test]
fn fat_mount_failure_returns_code_without_unmount() {
    let (calls, res) = drive(0, -22, 0, 0, 0, 0);
    assert_eq!(res, Err(-22));
    assert_eq!(calls, vec![FatAction::InitDisk, FatAction::Mount]);
}

#[test]
fn fat_open_for_write_failure_unmounts() {
    let (calls, res) = drive(0, 0, -2, 0, 0, 0);
    assert_eq!(res, Err(-2));
    assert_eq!(
        calls,
        vec![FatAction::InitDisk, FatAction::Mount, FatAction::OpenForWrite, FatAction::Unmount]
    );
}

#[test]
fn fat_write_failure_closes_then_unmounts() {
    let (calls, res) = drive(0, 0, 0, -28, 0, 0);
    assert_eq!(res, Err(-28));
    assert_eq!(
        calls,
        vec![
            FatAction::InitDisk,
            FatAction::Mount,
            FatAction::OpenForWrite,
            FatAction::Write,
            FatAction::Close,
            FatAction::Unmount,
        ]
    );
}

#[test]
fn fat_open_for_read_failure_unmounts() {
    let (calls, res) = drive(0, 0, 0, 4, -13, 0);
    assert_eq!(res, Err(-13));
    assert_eq!(calls.last(), Some(&FatAction::Unmount));
    assert_eq!(calls.len(), 7);
}

#[test]
fn fat_read_failure_is_error() {
    let (calls, res) = drive(0, 0, 0, 4, 0, -5);
    assert_eq!(res, Err(-5));
    assert_eq!(calls.len(), 9);
}

#[test]
fn fat_short_write_still_reads_back() {
    let (_, res) = drive(0, 0, 0, 0, 0, 0);
    assert_eq!(res, Ok(0));
}

#[test]
fn fat_positive_open_code_is_reported_as_count() {
    let (_, res) = drive(0, 0, 3, 0, 0, 0);
    assert_eq!(res, Ok(3));
}

#[test]
fn fatfs_buffer_covers_sector_and_header() {
    assert_eq!(fatfs_buffer_words(512), 80);
    assert_eq!(fatfs_buffer_words(4096), 528);
    assert!(fatfs_buffer_words(4096) * 8 >= 4096 + 128);
    assert_eq!(fatfs_buffer_words(0), 16);
}
