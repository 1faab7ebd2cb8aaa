//! Firmware-update (MCUboot image manager) helpers.
//!
//! The bootloader is reached through the Zephyr C API, which the caller drives: each
//! function here takes what a query returned and computes what the helper reports. A
//! build without the MCUboot image manager is represented by `None` in place of the
//! query's result; the helpers then return their documented sentinels.
use vstd::prelude::*;
use crate::text::{
    c_string_into, decimal, holds_c_string, lemma_c_string_reads_back, lemma_decimal_digits,
    lemma_decimal_len, lemma_put_concat, pow10, put, put_byte, put_decimal, terminate,
};

verus! {

/// MCUboot swap type: a test swap is pending.
pub const BOOT_SWAP_TYPE_TEST: i32 = 2;

/// MCUboot swap type: a permanent swap is pending.
pub const BOOT_SWAP_TYPE_PERM: i32 = 3;

/// The semantic version in an MCUboot image header.
#[derive(Clone, Copy, Debug, PartialEq, Eq, Structural)]
pub struct ImageVersion {
    pub major: u8,
    pub minor: u8,
    pub revision: u16,
    pub build_num: u32,
}

/// `major.minor.revision+build` in ASCII.
pub open spec fn semver_text(major: u8, minor: u8, revision: u16, build: u32) -> Seq<u8> {
    decimal(major as nat) + seq![46u8] + decimal(minor as nat) + seq![46u8] + decimal(
        revision as nat,
    ) + seq![43u8] + decimal(build as nat)
}

/// The longest version text is 24 bytes, and it holds no NUL byte.
pub proof fn lemma_semver_text_bounds(major: u8, minor: u8, revision: u16, build: u32)
    ensures
        semver_text(major, minor, revision, build).len() <= 24,
        forall|i: int|
            0 <= i < semver_text(major, minor, revision, build).len() ==> #[trigger] semver_text(
                major,
                minor,
                revision,
                build,
            )[i] != 0,
{
    assert(pow10(3) == 1000 && pow10(5) == 100000 && pow10(10) == 10000000000) by {
        reveal_with_fuel(pow10, 11);
    }
    lemma_decimal_len(major as nat, 3);
    lemma_decimal_len(minor as nat, 3);
    lemma_decimal_len(revision as nat, 5);
    lemma_decimal_len(build as nat, 10);
    lemma_decimal_digits(major as nat);
    lemma_decimal_digits(minor as nat);
    lemma_decimal_digits(revision as nat);
    lemma_decimal_digits(build as nat);
    let t = semver_text(major, minor, revision, build);
    assert forall|i: int| 0 <= i < t.len() implies #[trigger] t[i] != 0 by {
        let a = decimal(major as nat).len();
        let b = decimal(minor as nat).len();
        let c = decimal(revision as nat).len();
        if i < a {
            assert(t[i] == decimal(major as nat)[i]);
        } else if i == a {
        } else if i < a + 1 + b {
            assert(t[i] == decimal(minor as nat)[i - a - 1]);
        } else if i == a + 1 + b {
        } else if i < a + 2 + b + c {
            assert(t[i] == decimal(revision as nat)[i - a - b - 2]);
        } else if i == a + 2 + b + c {
        } else {
            assert(t[i] == decimal(build as nat)[i - a - b - c - 3]);
        }
    }
}

/// What `write_semver` leaves in a non-empty buffer reads as a C string holding the
/// version text cut to the buffer, and the whole text once the buffer has 25 bytes.
pub proof fn lemma_semver_reads_back(
    buf: Seq<u8>,
    major: u8,
    minor: u8,
    revision: u16,
    build: u32,
)
    requires
        buf.len() > 0,
    ensures
        ({
            let t = semver_text(major, minor, revision, build);
            let n = if t.len() < buf.len() {
                t.len() as int
            } else {
                buf.len() - 1
            };
            holds_c_string(c_string_into(buf, t), t.take(n))
        }),
        buf.len() >= 25 ==> holds_c_string(
            c_string_into(buf, semver_text(major, minor, revision, build)),
            semver_text(major, minor, revision, build),
        ),
{
    lemma_semver_text_bounds(major, minor, revision, build);
    lemma_c_string_reads_back(buf, semver_text(major, minor, revision, build));
}

/// The version text is the four numbers' decimal numerals joined by `.`, `.` and `+`,
/// each numeral reading back as its number.
pub proof fn lemma_semver_fields(major: u8, minor: u8, revision: u16, build: u32)
    ensures
        semver_text(major, minor, revision, build) == decimal(major as nat) + seq![46u8]
            + decimal(minor as nat) + seq![46u8] + decimal(revision as nat) + seq![43u8]
            + decimal(build as nat),
        digits_value(decimal(major as nat)) == major,
        digits_value(decimal(minor as nat)) == minor,
        digits_value(decimal(revision as nat)) == revision,
        digits_value(decimal(build as nat)) == build,
{
    lemma_decimal_reads_back(major as nat);
    lemma_decimal_reads_back(minor as nat);
    lemma_decimal_reads_back(revision as nat);
    lemma_decimal_reads_back(build as nat);
}

/// Formats `major.minor.revision+build` into `out` as a NUL-terminated ASCII string,
/// truncated to the buffer; the bytes after the NUL are left untouched.
pub fn write_semver(out: &mut [u8], major: u8, minor: u8, revision: u16, build: u32)
    ensures
        final(out)@ == c_string_into(old(out)@, semver_text(major, minor, revision, build)),
{
    let ghost orig = out@;
    let ghost len = orig.len() as int;
    let ghost a = decimal(major as nat);
    let ghost b = decimal(minor as nat);
    let ghost c = decimal(revision as nat);
    let ghost d = decimal(build as nat);
    let ghost dot = seq![46u8];
    let ghost plus = seq![43u8];

    let pos = put_decimal(out, 0, major as u32);
    let pos = put_byte(out, pos, 46);
    proof {
        lemma_put_concat(orig, 0, a, dot);
    }
    let pos = put_decimal(out, pos, minor as u32);
    proof {
        lemma_put_concat(orig, 0, a + dot, b);
    }
    let pos = put_byte(out, pos, 46);
    proof {
        lemma_put_concat(orig, 0, a + dot + b, dot);
    }
    let pos = put_decimal(out, pos, revision as u32);
    proof {
        lemma_put_concat(orig, 0, a + dot + b + dot, c);
    }
    let pos = put_byte(out, pos, 43);
    proof {
        lemma_put_concat(orig, 0, a + dot + b + dot + c, plus);
    }
    let pos = put_decimal(out, pos, build);
    proof {
        lemma_put_concat(orig, 0, a + dot + b + dot + c + plus, d);
    }
    terminate(out, pos, Ghost(orig), Ghost(semver_text(major, minor, revision, build)));
}


/// Confirm state of the running image: 1 when MCUboot reports it confirmed, 0 when it is
/// still a pending test image, -1 when the build has no MCUboot image manager.
pub fn confirm_state(confirmed: Option<bool>) -> (state: i32)
    ensures
        state == match confirmed {
            None => -1i32,
            Some(true) => 1i32,
            Some(false) => 0i32,
        },
{
    match confirmed {
        None => -1,
        Some(c) => {
            if c {
                1
            } else {
                0
            }
        },
    }
}

/// The swap type MCUboot reports (NONE = 1 .. FAIL = 5), or -1 when the build has no
/// MCUboot image manager.
pub fn swap_type(reported: Option<i32>) -> (swap: i32)
    ensures
        swap == match reported {
            None => -1i32,
            Some(t) => t,
        },
{
    match reported {
        None => -1,
        Some(t) => t,
    }
}

/// Result of confirming the running image: MCUboot's return code (0 or a negative errno),
/// or the sentinel 1 when the build has no MCUboot image manager.
pub fn confirm(rc: Option<i32>) -> (res: i32)
    ensures
        res == match rc {
            None => 1i32,
            Some(r) => r,
        },
{
    match rc {
        None => 1,
        Some(r) => r,
    }
}

/// Kind of upgrade to request for slot1.
#[derive(Clone, Copy, Debug, PartialEq, Eq, Structural)]
pub enum UpgradeMode {
    /// Boot the new image once; it reverts unless confirmed.
    Test,
    /// Make the new image permanent.
    Permanent,
}

/// Where an upgrade request stands.
#[derive(Clone, Copy, Debug, PartialEq, Eq, Structural)]
pub enum UpgradePhase {
    /// The upgrade request is still to be made.
    Requesting,
    /// The request was accepted; the pending swap type is still to be read.
    CheckingSwap,
    /// Finished with this code: 0 ok and pending, -1 no MCUboot, -2 request refused,
    /// -3 request accepted but no swap pending.
    Finished(i32),
}

/// What the caller has to do next for an upgrade request.
#[derive(Clone, Copy, Debug, PartialEq, Eq, Structural)]
pub enum UpgradeAction {
    /// Call `boot_request_upgrade` with this mode and hand back its return code.
    Request(UpgradeMode),
    /// Call `mcuboot_swap_type` and hand back what it returns.
    QuerySwapType,
    /// Nothing more to do: the request's result is this code.
    Report(i32),
}

/// An upgrade request of slot1, driven one bootloader call at a time.
#[derive(Clone, Copy, Debug, PartialEq, Eq, Structural)]
pub struct UpgradeRequest {
    pub mode: UpgradeMode,
    pub phase: UpgradePhase,
}

/// The mode asked for by `permanent`.
pub open spec fn mode_of(permanent: bool) -> UpgradeMode {
    if permanent {
        UpgradeMode::Permanent
    } else {
        UpgradeMode::Test
    }
}

/// A swap type that shows an upgrade went pending.
pub open spec fn swap_pending(swap: i32) -> bool {
    swap == BOOT_SWAP_TYPE_TEST || swap == BOOT_SWAP_TYPE_PERM
}

/// The request as it starts.
pub open spec fn upgrade_start(permanent: bool, image_manager: bool) -> UpgradeRequest {
    UpgradeRequest {
        mode: mode_of(permanent),
        phase: if image_manager {
            UpgradePhase::Requesting
        } else {
            UpgradePhase::Finished(-1i32)
        },
    }
}

/// The action that a request in state `r` asks for.
pub open spec fn upgrade_action(r: UpgradeRequest) -> UpgradeAction {
    match r.phase {
        UpgradePhase::Requesting => UpgradeAction::Request(r.mode),
        UpgradePhase::CheckingSwap => UpgradeAction::QuerySwapType,
        UpgradePhase::Finished(code) => UpgradeAction::Report(code),
    }
}

/// The request after the caller hands back `outcome` for the action it asked for.
pub open spec fn upgrade_next(r: UpgradeRequest, outcome: i32) -> UpgradeRequest {
    match r.phase {
        UpgradePhase::Requesting => UpgradeRequest {
            phase: if outcome != 0 {
                UpgradePhase::Finished(-2i32)
            } else {
                UpgradePhase::CheckingSwap
            },
            ..r
        },
        UpgradePhase::CheckingSwap => UpgradeRequest {
            phase: if swap_pending(outcome) {
                UpgradePhase::Finished(0i32)
            } else {
                UpgradePhase::Finished(-3i32)
            },
            ..r
        },
        UpgradePhase::Finished(_) => r,
    }
}

/// Outside calls still to come for a request in state `r`.
pub open spec fn upgrade_calls_left(r: UpgradeRequest) -> nat {
    match r.phase {
        UpgradePhase::Requesting => 2,
        UpgradePhase::CheckingSwap => 1,
        UpgradePhase::Finished(_) => 0,
    }
}

/// Starts a TEST (`permanent == false`) or PERMANENT upgrade request of slot1; without the
/// MCUboot image manager it is finished at once with -1.
pub fn request_upgrade(permanent: bool, image_manager: bool) -> (r: UpgradeRequest)
    ensures
        r == upgrade_start(permanent, image_manager),
{
    let mode = if permanent {
        UpgradeMode::Permanent
    } else {
        UpgradeMode::Test
    };
    let phase = if image_manager {
        UpgradePhase::Requesting
    } else {
        UpgradePhase::Finished(-1)
    };
    UpgradeRequest { mode, phase }
}

impl UpgradeRequest {
    /// What the caller has to do next.
    pub fn action(&self) -> (a: UpgradeAction)
        ensures
            a == upgrade_action(*self),
    {
        match self.phase {
            UpgradePhase::Requesting => UpgradeAction::Request(self.mode),
            UpgradePhase::CheckingSwap => UpgradeAction::QuerySwapType,
            UpgradePhase::Finished(code) => UpgradeAction::Report(code),
        }
    }

    /// Takes the result of the action asked for; a finished request ignores it.
    pub fn advance(&mut self, outcome: i32)
        ensures
            *final(self) == upgrade_next(*old(self), outcome),
    {
        match self.phase {
            UpgradePhase::Requesting => {
                if outcome != 0 {
                    self.phase = UpgradePhase::Finished(-2);
                } else {
                    self.phase = UpgradePhase::CheckingSwap;
                }
            },
            UpgradePhase::CheckingSwap => {
                if outcome == BOOT_SWAP_TYPE_TEST || outcome == BOOT_SWAP_TYPE_PERM {
                    self.phase = UpgradePhase::Finished(0);
                } else {
                    self.phase = UpgradePhase::Finished(-3);
                }
            },
            UpgradePhase::Finished(_) => {},
        }
    }
}


/// The code a whole upgrade request ends with, given what the bootloader returned: the
/// return code of the request and, when that was 0, the swap type read afterwards.
pub open spec fn upgrade_code(image_manager: bool, request_rc: i32, swap: i32) -> i32 {
    if !image_manager {
        -1i32
    } else if request_rc != 0 {
        -2i32
    } else if swap_pending(swap) {
        0i32
    } else {
        -3i32
    }
}

/// An upgrade request asks first for the request in the chosen mode, reads the swap type
/// only when the request returned 0, and then reports the code of `upgrade_code`.
pub proof fn lemma_upgrade_protocol(
    permanent: bool,
    image_manager: bool,
    request_rc: i32,
    swap: i32,
)
    ensures
        ({
            let r0 = upgrade_start(permanent, image_manager);
            let r1 = upgrade_next(r0, request_rc);
            let r2 = upgrade_next(r1, swap);
            &&& image_manager ==> upgrade_action(r0) == UpgradeAction::Request(
                mode_of(permanent),
            )
            &&& !image_manager ==> upgrade_action(r0) == UpgradeAction::Report(
                upgrade_code(image_manager, request_rc, swap),
            )
            &&& image_manager && request_rc != 0 ==> upgrade_action(r1) == UpgradeAction::Report(
                upgrade_code(image_manager, request_rc, swap),
            )
            &&& image_manager && request_rc == 0 ==> upgrade_action(r1)
                == UpgradeAction::QuerySwapType
            &&& upgrade_action(r2) == UpgradeAction::Report(
                upgrade_code(image_manager, request_rc, swap),
            )
            &&& !image_manager ==> upgrade_action(r0) == UpgradeAction::Report(-1i32)
            &&& image_manager && request_rc != 0 ==> upgrade_action(r1) == UpgradeAction::Report(
                -2i32,
            )
            &&& image_manager && request_rc == 0 && (swap == 2 || swap == 3) ==> upgrade_action(r2)
                == UpgradeAction::Report(0i32)
            &&& image_manager && request_rc == 0 && swap != 2 && swap != 3 ==> upgrade_action(r2)
                == UpgradeAction::Report(-3i32)
            &&& (permanent ==> mode_of(permanent) == UpgradeMode::Permanent)
            &&& (!permanent ==> mode_of(permanent) == UpgradeMode::Test)
        }),
{
}

/// A finished request stays as it is, and every other step brings it closer to the end.
pub proof fn lemma_upgrade_progress(r: UpgradeRequest, outcome: i32)
    ensures
        r.phase is Finished ==> upgrade_next(r, outcome) == r,
        !(r.phase is Finished) ==> upgrade_calls_left(upgrade_next(r, outcome))
            < upgrade_calls_left(r),
        upgrade_next(r, outcome).mode == r.mode,
{
}

/// The bytes of an ASCII decimal numeral read back as a number.
pub open spec fn digits_value(s: Seq<u8>) -> nat
    decreases s.len(),
{
    if s.len() == 0 {
        0
    } else {
        digits_value(s.drop_last()) * 10 + (s.last() - 48) as nat
    }
}

/// Reading back the decimal rendering of `n` gives `n`.
pub proof fn lemma_decimal_reads_back(n: nat)
    ensures
        digits_value(decimal(n)) == n,
    decreases n,
{
    let d = decimal(n);
    if n >= 10 {
        lemma_decimal_reads_back(n / 10);
        assert(d.drop_last() =~= decimal(n / 10));
        assert(d.last() == (48 + n % 10) as u8);
        assert((d.last() - 48) as nat == n % 10);
        assert(digits_value(d) == digits_value(decimal(n / 10)) * 10 + n % 10);
        assert((n / 10) * 10 + n % 10 == n);
    } else {
        assert(d.drop_last() =~= Seq::<u8>::empty());
        assert(digits_value(Seq::<u8>::empty()) == 0);
        assert(d.last() == (48 + n) as u8);
        assert(digits_value(d) == digits_value(d.drop_last()) * 10 + (d.last() - 48) as nat);
    }
}

/// The version text that `running_version` leaves for a header read that returned 0 is
/// the header's own version: the four fields' decimal numerals, each reading back as the
/// field, joined by `.`, `.` and `+`; it is a C string in the buffer, whole once the buffer
/// has 25 bytes.
pub proof fn lemma_running_version_text(buf: Seq<u8>, h: SlotHeader)
    requires
        h.rc == 0,
    ensures
        ({
            let v = h.version;
            let t = decimal(v.major as nat) + seq![46u8] + decimal(v.minor as nat) + seq![46u8]
                + decimal(v.revision as nat) + seq![43u8] + decimal(v.build_num as nat);
            &&& running_version_buffer(buf, Some(h)) == c_string_into(buf, t)
            &&& buf.len() >= 25 ==> holds_c_string(running_version_buffer(buf, Some(h)), t)
            &&& digits_value(decimal(v.major as nat)) == v.major
            &&& digits_value(decimal(v.minor as nat)) == v.minor
            &&& digits_value(decimal(v.revision as nat)) == v.revision
            &&& digits_value(decimal(v.build_num as nat)) == v.build_num
        }),
{
    let v = h.version;
    lemma_decimal_reads_back(v.major as nat);
    lemma_decimal_reads_back(v.minor as nat);
    lemma_decimal_reads_back(v.revision as nat);
    lemma_decimal_reads_back(v.build_num as nat);
    if buf.len() >= 25 {
        lemma_semver_reads_back(buf, v.major, v.minor, v.revision, v.build_num);
    }
}

/// Without MCUboot, `running_version` writes `n/a` and its NUL, as much as fits, and
/// leaves the rest of the buffer as it was.
pub proof fn lemma_running_version_unavailable(buf: Seq<u8>)
    ensures
        running_version_buffer(buf, None).len() == buf.len(),
        buf.len() >= 4 ==> running_version_buffer(buf, None).take(4) == seq![
            110u8,
            47u8,
            97u8,
            0u8,
        ],
        forall|i: int|
            4 <= i < buf.len() ==> #[trigger] running_version_buffer(buf, None)[i] == buf[i],
{
    if buf.len() >= 4 {
        assert(running_version_buffer(buf, None).take(4) =~= seq![110u8, 47u8, 97u8, 0u8]);
    }
}

/// An MCUboot image slot.
#[derive(Clone, Copy, Debug, PartialEq, Eq, Structural)]
pub enum ImageSlot {
    /// slot0: the image that runs.
    Primary,
    /// slot1: where a new image is staged.
    Secondary,
}

/// The number by which the application's partition lookup names `slot`.
pub open spec fn slot_number(slot: ImageSlot) -> i32 {
    match slot {
        ImageSlot::Primary => 0i32,
        ImageSlot::Secondary => 1i32,
    }
}

/// The number to hand the application's partition lookup for `slot`: 0 for slot0, 1 for
/// slot1.
pub fn slot_index(slot: ImageSlot) -> (n: i32)
    ensures
        n == slot_number(slot),
{
    match slot {
        ImageSlot::Primary => 0,
        ImageSlot::Secondary => 1,
    }
}

/// The slot whose header `running_version` reads: slot0, the running image.
pub fn running_version_slot() -> (slot: ImageSlot)
    ensures
        slot == ImageSlot::Primary,
{
    ImageSlot::Primary
}

/// The slot a `Slot1Writer` streams into: slot1, never the running slot0.
pub fn slot1_writer_slot() -> (slot: ImageSlot)
    ensures
        slot == ImageSlot::Secondary,
{
    ImageSlot::Secondary
}

/// What `boot_read_bank_header` gave for slot0: its return code and, when that is 0, the
/// version in the header read.
#[derive(Clone, Copy, Debug, PartialEq, Eq, Structural)]
pub struct SlotHeader {
    pub rc: i32,
    pub version: ImageVersion,
}

/// The text written when the build has no MCUboot image manager: `n/a` and its NUL.
pub open spec fn unavailable_text() -> Seq<u8> {
    seq![110u8, 47u8, 97u8, 0u8]
}

/// What `running_version` leaves in `buf` for the header read `slot0`.
pub open spec fn running_version_buffer(buf: Seq<u8>, slot0: Option<SlotHeader>) -> Seq<u8> {
    match slot0 {
        None => put(buf, 0, unavailable_text()),
        Some(h) => if h.rc != 0 {
            if buf.len() > 0 {
                buf.update(0, 0u8)
            } else {
                buf
            }
        } else {
            c_string_into(
                buf,
                semver_text(h.version.major, h.version.minor, h.version.revision, h.version.build_num),
            )
        },
    }
}

/// Writes the running (slot0) image's version into `out` as a NUL-terminated string (25
/// bytes hold any version) and returns 0; on a header-read error returns its code and
/// leaves an empty string; without MCUboot writes as much of `n/a` and its NUL as fits and
/// returns -1.
pub fn running_version(out: &mut [u8], slot0: Option<SlotHeader>) -> (rc: i32)
    ensures
        final(out)@ == running_version_buffer(old(out)@, slot0),
        slot0 matches Some(h) ==> (h.rc == 0 ==> final(out)@ == c_string_into(
            old(out)@,
            semver_text(h.version.major, h.version.minor, h.version.revision, h.version.build_num),
        )),
        slot0 is None && old(out)@.len() >= 4 ==> final(out)@.take(4) == seq![
            110u8,
            47u8,
            97u8,
            0u8,
        ] && final(out)@.skip(4) == old(out)@.skip(4),
        slot0 matches Some(h) ==> (h.rc != 0 && old(out)@.len() > 0 ==> final(out)@[0] == 0
            && final(out)@.skip(1) == old(out)@.skip(1)),
        rc == match slot0 {
            None => -1i32,
            Some(h) => h.rc,
        },
{
    match slot0 {
        None => {
            let na: [u8; 4] = [110, 47, 97, 0];
            let n = if out.len() < 4 {
                out.len()
            } else {
                4
            };
            let ghost orig = out@;
            let mut i: usize = 0;
            while i < n
                invariant
                    n <= out@.len(),
                    n <= 4,
                    i <= n,
                    na@ == unavailable_text(),
                    out@.len() == orig.len(),
                    n == (if orig.len() < 4 {
                        orig.len() as int
                    } else {
                        4
                    }),
                    forall|k: int| 0 <= k < i ==> out@[k] == unavailable_text()[k],
                    forall|k: int| i <= k < out@.len() ==> out@[k] == orig[k],
                decreases n - i,
            {
                out[i] = na[i];
                i = i + 1;
            }
            assert(out@ =~= put(orig, 0, unavailable_text()));
            -1
        },
        Some(h) => {
            if h.rc != 0 {
                if out.len() > 0 {
                    out[0] = 0;
                }
                h.rc
            } else {
                write_semver(
                    out,
                    h.version.major,
                    h.version.minor,
                    h.version.revision,
                    h.version.build_num,
                );
                0
            }
        },
    }
}

/// Streaming writer into the secondary MCUboot slot (slot1) as a build without the MCUboot
/// image manager has it: it never opens, and its calls do nothing but return the
/// sentinel 1.
pub struct Slot1Writer;

impl Slot1Writer {
    /// Opens the writer: without the MCUboot image manager this never succeeds and
    /// returns the sentinel 1.
    pub fn begin() -> (res: Result<Slot1Writer, i32>)
        ensures
            res == Err::<Slot1Writer, i32>(1),
    {
        Err(1)
    }

    /// Appends `data`: without the MCUboot image manager a no-op that returns 1.
    pub fn write(&mut self, _data: &[u8]) -> (rc: i32)
        ensures
            rc == 1,
            *final(self) == *old(self),
    {
        1
    }

    /// Flushes the writer: without the MCUboot image manager a no-op that returns 1.
    pub fn finish(&mut self) -> (rc: i32)
        ensures
            rc == 1,
            *final(self) == *old(self),
    {
        1
    }
}

/// What opening slot1 for streaming reports, from the return code of `flash_img_init_id`:
/// success on 0, the code itself otherwise.
pub fn slot1_open_result(rc: i32) -> (res: Result<(), i32>)
    ensures
        rc == 0 ==> res == Ok::<(), i32>(()),
        rc != 0 ==> res == Err::<(), i32>(rc),
{
    if rc == 0 {
        Ok(())
    } else {
        Err(rc)
    }
}

} // verus!
