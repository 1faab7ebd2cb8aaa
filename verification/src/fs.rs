//! FAT round trip over a disk-access drive: initialise the disk, mount the FAT volume,
//! write a file, read it back, unmount.
//!
//! The filesystem is reached through the Zephyr C API, which the caller drives. A
//! [`FatSession`] decides, from what each call returned, which call comes next and what
//! the round trip reports in the end.
use vstd::prelude::*;

verus! {

/// `ENODEV`: the disk could not be initialised.
pub const ENODEV: i32 = 19;

/// Number of 8-byte words backing the FAT context (`FATFS`) for a driver whose largest
/// sector is `max_sector_size` bytes: the sector cache plus 128 bytes for the fixed fields.
/// For a sector size that is a multiple of 8 the words hold exactly that, so raising the
/// sector size can never leave the cache without room.
pub fn fatfs_buffer_words(max_sector_size: u32) -> (words: usize)
    requires
        max_sector_size + 128 <= usize::MAX,
    ensures
        words == (max_sector_size + 128) / 8,
        words * 8 <= max_sector_size + 128 < words * 8 + 8,
        max_sector_size % 8 == 0 ==> words * 8 == max_sector_size + 128,
{
    (max_sector_size as usize + 128) / 8
}

/// Where a FAT round trip stands.
#[derive(Clone, Copy, Debug, PartialEq, Eq)]
pub enum FatPhase {
    /// The disk is still to be initialised.
    InitDisk,
    /// The volume is still to be mounted.
    Mount,
    /// The file is still to be opened for writing (created and truncated).
    OpenForWrite,
    /// The payload is still to be written to the open file.
    Write,
    /// The file written to is still to be closed; the write returned this count.
    CloseAfterWrite(isize),
    /// The file is still to be opened for reading.
    OpenForRead,
    /// The file is still to be read into the output buffer.
    Read,
    /// The file read from is still to be closed; the read returned this count.
    CloseAfterRead(isize),
    /// The volume is still to be unmounted; the write-then-read ended with this code.
    Unmount(i32),
    /// Finished: the number of bytes read back, or a negative errno.
    Finished(Result<usize, i32>),
}

/// The call the caller has to make next.
#[derive(Clone, Copy, Debug, PartialEq, Eq)]
pub enum FatAction {
    /// `disk_access_init` on the drive; hand back its return code.
    InitDisk,
    /// `fs_mount` of the FAT volume; hand back its return code.
    Mount,
    /// `fs_open` with create, write and truncate; hand back its return code.
    OpenForWrite,
    /// `fs_write` of the payload; hand back the count it returns.
    Write,
    /// `fs_close` of the open file; its return code is not looked at.
    Close,
    /// `fs_open` for reading; hand back its return code.
    OpenForRead,
    /// `fs_read` into the output buffer; hand back the count it returns.
    Read,
    /// `fs_unmount`; its return code is not looked at.
    Unmount,
    /// Nothing more to do: the round trip's result.
    Finish(Result<usize, i32>),
}

/// A FAT round trip in progress.
#[derive(Clone, Copy, Debug, PartialEq, Eq)]
pub struct FatSession {
    pub phase: FatPhase,
}

/// The session as it starts.
pub open spec fn fat_start() -> FatSession {
    FatSession { phase: FatPhase::InitDisk }
}

/// The call a session in state `s` asks for.
pub open spec fn fat_action(s: FatSession) -> FatAction {
    match s.phase {
        FatPhase::InitDisk => FatAction::InitDisk,
        FatPhase::Mount => FatAction::Mount,
        FatPhase::OpenForWrite => FatAction::OpenForWrite,
        FatPhase::Write => FatAction::Write,
        FatPhase::CloseAfterWrite(_) => FatAction::Close,
        FatPhase::OpenForRead => FatAction::OpenForRead,
        FatPhase::Read => FatAction::Read,
        FatPhase::CloseAfterRead(_) => FatAction::Close,
        FatPhase::Unmount(_) => FatAction::Unmount,
        FatPhase::Finished(res) => FatAction::Finish(res),
    }
}

/// The result reported once the volume is unmounted, from the write-then-read's code.
pub open spec fn unmounted_result(code: i32) -> Result<usize, i32> {
    if code < 0 {
        Err(code)
    } else {
        Ok(code as usize)
    }
}

/// The session after the caller hands back `outcome` for the call it asked for (a return
/// code for the status calls, a byte count for the transfers).
pub open spec fn fat_next(s: FatSession, outcome: int) -> FatSession {
    FatSession {
        phase: match s.phase {
            FatPhase::InitDisk => if outcome != 0 {
                FatPhase::Finished(Err((-ENODEV) as i32))
            } else {
                FatPhase::Mount
            },
            FatPhase::Mount => if outcome != 0 {
                FatPhase::Finished(Err(outcome as i32))
            } else {
                FatPhase::OpenForWrite
            },
            FatPhase::OpenForWrite => if outcome != 0 {
                FatPhase::Unmount(outcome as i32)
            } else {
                FatPhase::Write
            },
            FatPhase::Write => FatPhase::CloseAfterWrite(outcome as isize),
            FatPhase::CloseAfterWrite(w) => if w < 0 {
                FatPhase::Unmount(w as i32)
            } else {
                FatPhase::OpenForRead
            },
            FatPhase::OpenForRead => if outcome != 0 {
                FatPhase::Unmount(outcome as i32)
            } else {
                FatPhase::Read
            },
            FatPhase::Read => FatPhase::CloseAfterRead(outcome as isize),
            FatPhase::CloseAfterRead(n) => FatPhase::Unmount(n as i32),
            FatPhase::Unmount(code) => FatPhase::Finished(unmounted_result(code)),
            FatPhase::Finished(res) => FatPhase::Finished(res),
        },
    }
}

/// Starts a round trip: mount the FAT volume of a disk-access drive, write a payload to a
/// file, read it back into the output buffer, unmount.
pub fn fat_rw() -> (s: FatSession)
    ensures
        s == fat_start(),
{
    FatSession { phase: FatPhase::InitDisk }
}

impl FatSession {
    /// The call to make next.
    pub fn action(&self) -> (a: FatAction)
        ensures
            a == fat_action(*self),
    {
        match self.phase {
            FatPhase::InitDisk => FatAction::InitDisk,
            FatPhase::Mount => FatAction::Mount,
            FatPhase::OpenForWrite => FatAction::OpenForWrite,
            FatPhase::Write => FatAction::Write,
            FatPhase::CloseAfterWrite(_) => FatAction::Close,
            FatPhase::OpenForRead => FatAction::OpenForRead,
            FatPhase::Read => FatAction::Read,
            FatPhase::CloseAfterRead(_) => FatAction::Close,
            FatPhase::Unmount(_) => FatAction::Unmount,
            FatPhase::Finished(res) => FatAction::Finish(res),
        }
    }

    /// Takes the return code of the status call just made (anything but a transfer); a
    /// finished session ignores it.
    pub fn completed(&mut self, rc: i32)
        requires
            !(old(self).phase is Write),
            !(old(self).phase is Read),
        ensures
            *final(self) == fat_next(*old(self), rc as int),
    {
        let next = match self.phase {
            FatPhase::InitDisk => if rc != 0 {
                FatPhase::Finished(Err(-ENODEV))
            } else {
                FatPhase::Mount
            },
            FatPhase::Mount => if rc != 0 {
                FatPhase::Finished(Err(rc))
            } else {
                FatPhase::OpenForWrite
            },
            FatPhase::OpenForWrite => if rc != 0 {
                FatPhase::Unmount(rc)
            } else {
                FatPhase::Write
            },
            FatPhase::CloseAfterWrite(w) => if w < 0 {
                FatPhase::Unmount(w as i32)
            } else {
                FatPhase::OpenForRead
            },
            FatPhase::OpenForRead => if rc != 0 {
                FatPhase::Unmount(rc)
            } else {
                FatPhase::Read
            },
            FatPhase::CloseAfterRead(n) => FatPhase::Unmount(n as i32),
            FatPhase::Unmount(code) => FatPhase::Finished(
                if code < 0 {
                    Err(code)
                } else {
                    Ok(code as usize)
                },
            ),
            FatPhase::Finished(res) => FatPhase::Finished(res),
            FatPhase::Write => FatPhase::Write,
            FatPhase::Read => FatPhase::Read,
        };
        self.phase = next;
    }

    /// Takes the byte count (or negative errno) returned by the write or read just made.
    pub fn transferred(&mut self, count: isize)
        requires
            old(self).phase is Write || old(self).phase is Read,
        ensures
            *final(self) == fat_next(*old(self), count as int),
    {
        match self.phase {
            FatPhase::Write => {
                self.phase = FatPhase::CloseAfterWrite(count);
            },
            _ => {
                self.phase = FatPhase::CloseAfterRead(count);
            },
        }
    }
}


/// What the drive and filesystem answer to each call of a round trip.
#[derive(Clone, Copy, Debug, PartialEq, Eq)]
pub struct FatReplies {
    pub init_rc: i32,
    pub mount_rc: i32,
    pub open_write_rc: i32,
    pub written: isize,
    pub close_write_rc: i32,
    pub open_read_rc: i32,
    pub read: isize,
    pub close_read_rc: i32,
    pub unmount_rc: i32,
}

/// The answer `r` gives to the call that a session in state `s` asks for.
pub open spec fn fat_reply(r: FatReplies, s: FatSession) -> int {
    match s.phase {
        FatPhase::InitDisk => r.init_rc as int,
        FatPhase::Mount => r.mount_rc as int,
        FatPhase::OpenForWrite => r.open_write_rc as int,
        FatPhase::Write => r.written as int,
        FatPhase::CloseAfterWrite(_) => r.close_write_rc as int,
        FatPhase::OpenForRead => r.open_read_rc as int,
        FatPhase::Read => r.read as int,
        FatPhase::CloseAfterRead(_) => r.close_read_rc as int,
        FatPhase::Unmount(_) => r.unmount_rc as int,
        FatPhase::Finished(_) => 0,
    }
}

/// The session after `steps` calls answered by `r`.
pub open spec fn fat_run(s: FatSession, r: FatReplies, steps: nat) -> FatSession
    decreases steps,
{
    if steps == 0 {
        s
    } else {
        fat_run(fat_next(s, fat_reply(r, s)), r, (steps - 1) as nat)
    }
}

/// The code of the write-then-read on the mounted volume: the failing open's code, the
/// failed write's count, or the number of bytes read.
pub open spec fn write_read_code(r: FatReplies) -> i32 {
    if r.open_write_rc != 0 {
        r.open_write_rc
    } else if r.written < 0 {
        r.written as i32
    } else if r.open_read_rc != 0 {
        r.open_read_rc
    } else {
        r.read as i32
    }
}

/// The result of the whole round trip: `-ENODEV` when the disk does not initialise, the
/// mount's code when it fails, otherwise the write-then-read's code as an error when
/// negative and as a byte count when not.
pub open spec fn fat_rw_result(r: FatReplies) -> Result<usize, i32> {
    if r.init_rc != 0 {
        Err((-ENODEV) as i32)
    } else if r.mount_rc != 0 {
        Err(r.mount_rc)
    } else {
        unmounted_result(write_read_code(r))
    }
}

/// Between a successful mount and the unmount.
pub open spec fn volume_mounted(s: FatSession) -> bool {
    match s.phase {
        FatPhase::OpenForWrite | FatPhase::Write | FatPhase::CloseAfterWrite(_)
        | FatPhase::OpenForRead | FatPhase::Read | FatPhase::CloseAfterRead(_)
        | FatPhase::Unmount(_) => true,
        _ => false,
    }
}

/// Between a successful open and the close of the file.
pub open spec fn file_open(s: FatSession) -> bool {
    match s.phase {
        FatPhase::Write | FatPhase::CloseAfterWrite(_) | FatPhase::Read
        | FatPhase::CloseAfterRead(_) => true,
        _ => false,
    }
}

/// Calls still to come at most for a session in state `s`.
pub open spec fn fat_calls_left(s: FatSession) -> nat {
    match s.phase {
        FatPhase::InitDisk => 9,
        FatPhase::Mount => 8,
        FatPhase::OpenForWrite => 7,
        FatPhase::Write => 6,
        FatPhase::CloseAfterWrite(_) => 5,
        FatPhase::OpenForRead => 4,
        FatPhase::Read => 3,
        FatPhase::CloseAfterRead(_) => 2,
        FatPhase::Unmount(_) => 1,
        FatPhase::Finished(_) => 0,
    }
}

/// Whatever the drive answers, a round trip is finished after at most nine calls, with
/// the result of `fat_rw_result`, and stays finished.
pub proof fn lemma_fat_round_trip(r: FatReplies, extra: nat)
    ensures
        fat_run(fat_start(), r, 9).phase == FatPhase::Finished(fat_rw_result(r)),
        fat_action(fat_run(fat_start(), r, 9)) == FatAction::Finish(fat_rw_result(r)),
        fat_run(fat_start(), r, 9 + extra) == fat_run(fat_start(), r, 9),
    decreases extra,
{
    reveal_with_fuel(fat_run, 10);
    if extra > 0 {
        lemma_fat_round_trip(r, (extra - 1) as nat);
        lemma_fat_run_split(fat_start(), r, 9, (extra - 1) as nat);
        lemma_fat_run_split(fat_start(), r, 9, extra);
    }
}

/// Running `a + b` steps is running `a` steps and then `b` more.
pub proof fn lemma_fat_run_split(s: FatSession, r: FatReplies, a: nat, b: nat)
    ensures
        fat_run(s, r, a + b) == fat_run(fat_run(s, r, a), r, b),
    decreases a,
{
    if a > 0 {
        lemma_fat_run_split(fat_next(s, fat_reply(r, s)), r, (a - 1) as nat, b);
        assert((a + b - 1) as nat == ((a - 1) as nat + b) as nat);
    }
}

/// Every step of a session keeps the mount and the open file balanced: the volume is left
/// only by the unmount and entered only by a successful mount, a file is left only by its
/// close and entered only by a successful open, and each step brings the session closer
/// to the end, where it stays.
pub proof fn lemma_fat_step(s: FatSession, outcome: int)
    ensures
        ({
            let n = fat_next(s, outcome);
            &&& volume_mounted(s) && !volume_mounted(n) ==> fat_action(s) == FatAction::Unmount
            &&& !volume_mounted(s) && volume_mounted(n) ==> fat_action(s) == FatAction::Mount
                && outcome == 0
            &&& file_open(s) && !file_open(n) ==> fat_action(s) == FatAction::Close
            &&& !file_open(s) && file_open(n) ==> (fat_action(s) == FatAction::OpenForWrite
                || fat_action(s) == FatAction::OpenForRead) && outcome == 0
            &&& s.phase is Finished ==> n == s
            &&& !(s.phase is Finished) ==> fat_calls_left(n) < fat_calls_left(s)
        }),
{
}


/// A finished session asks for no call: it reports the result it finished with.
pub proof fn lemma_fat_finished_reports(s: FatSession)
    ensures
        s.phase matches FatPhase::Finished(res) ==> fat_action(s) == FatAction::Finish(res),
{
}

/// What a round trip reports, case by case, in terms of what the calls returned: `-ENODEV`
/// when the disk does not initialise; the mount's code when it fails; the failing open's
/// code, or the failed write's count, as an error; and when every call succeeds, exactly
/// the number of bytes the read returned (an error when the read returned one).
pub proof fn lemma_fat_reports(r: FatReplies)
    ensures
        ({
            let reported = fat_action(fat_run(fat_start(), r, 9));
            &&& r.init_rc != 0 ==> reported == FatAction::Finish(Err(-19i32))
            &&& r.init_rc == 0 && r.mount_rc != 0 ==> reported == FatAction::Finish(
                Err(r.mount_rc),
            )
            &&& r.init_rc == 0 && r.mount_rc == 0 && r.open_write_rc < 0 ==> reported
                == FatAction::Finish(Err(r.open_write_rc))
            &&& r.init_rc == 0 && r.mount_rc == 0 && r.open_write_rc == 0 && i32::MIN
                <= r.written < 0 ==> reported == FatAction::Finish(Err(r.written as i32))
            &&& r.init_rc == 0 && r.mount_rc == 0 && r.open_write_rc == 0 && r.written >= 0
                && r.open_read_rc < 0 ==> reported == FatAction::Finish(Err(r.open_read_rc))
            &&& r.init_rc == 0 && r.mount_rc == 0 && r.open_write_rc == 0 && r.written >= 0
                && r.open_read_rc == 0 && 0 <= r.read <= i32::MAX ==> reported
                == FatAction::Finish(Ok(r.read as usize))
            &&& r.init_rc == 0 && r.mount_rc == 0 && r.open_write_rc == 0 && r.written >= 0
                && r.open_read_rc == 0 && i32::MIN <= r.read < 0 ==> reported
                == FatAction::Finish(Err(r.read as i32))
        }),
{
    lemma_fat_round_trip(r, 0);
}

} // verus!
