//! The disk that a run reports, and what it reports of it.
//!
//! The operating system lists its mounted disks in an order of its own. A run
//! reports the first of them whose device name holds [`DISK_NAME_PATTERN`] and
//! whose mount point holds [`MOUNT_POINT_PATTERN`]. A disk whose name cannot
//! be read as text is passed over. A disk whose name matches and whose mount
//! point cannot be read as text ends the scan with an error, whatever follows
//! it in the list.

use vstd::prelude::*;
use crate::text::{contains, str_contains, text_of};

verus! {

/// Bytes in one gibibyte, the unit in which capacities are reported.
pub const BYTES_PER_GIB: u64 = 1073741824;

/// What the device name of the reported disk holds.
pub const DISK_NAME_PATTERN: &'static str = "1p6";

/// What the mount point of the reported disk holds.
pub const MOUNT_POINT_PATTERN: &'static str = "/home";

/// One mounted disk, as the operating system lists it.
#[derive(Debug, PartialEq, Eq)]
pub struct DiskEntry {
    /// The device name, `None` where it is not valid Unicode.
    pub name: Option<String>,
    /// The mount point, `None` where it is not valid Unicode.
    pub mount_point: Option<String>,
    /// Size of the disk in bytes.
    pub total_space: u64,
    /// Bytes of the disk that are free to use.
    pub available_space: u64,
}

/// A [`DiskEntry`] with its texts as sequences of characters.
pub struct DiskRecord {
    pub name: Option<Seq<char>>,
    pub mount_point: Option<Seq<char>>,
    pub total_space: u64,
    pub available_space: u64,
}

impl View for DiskEntry {
    type V = DiskRecord;

    open spec fn view(&self) -> DiskRecord {
        DiskRecord {
            name: text_of(self.name),
            mount_point: text_of(self.mount_point),
            total_space: self.total_space,
            available_space: self.available_space,
        }
    }
}

/// The records of a list of entries, in the same order.
pub open spec fn records(entries: Seq<DiskEntry>) -> Seq<DiskRecord> {
    Seq::new(entries.len(), |i: int| entries[i]@)
}

/// Capacity of the reported disk, in bytes. The used bytes are never measured:
/// in every value of this type they are the total less the available ones.
#[derive(Clone, Copy, Debug, PartialEq, Eq)]
pub struct DiskInfo {
    system_total_space: u64,
    system_available_space: u64,
    system_used_space: u64,
}

/// What a [`DiskInfo`] holds.
pub struct DiskInfoView {
    pub total_space: u64,
    pub available_space: u64,
    pub used_space: u64,
}

impl View for DiskInfo {
    type V = DiskInfoView;

    closed spec fn view(&self) -> DiskInfoView {
        DiskInfoView {
            total_space: self.system_total_space,
            available_space: self.system_available_space,
            used_space: self.system_used_space,
        }
    }
}

impl DiskInfoView {
    /// Zero bytes throughout: what is reported where no disk matches.
    pub open spec fn zero() -> DiskInfoView {
        DiskInfoView { total_space: 0, available_space: 0, used_space: 0 }
    }

    /// The used bytes are the total less the available ones.
    pub open spec fn consistent(self) -> bool {
        &&& self.available_space <= self.total_space
        &&& self.used_space == self.total_space - self.available_space
    }
}

/// The outcome of a scan, with the capacity as what it holds.
pub open spec fn outcome_view(found: Result<Option<DiskInfo>, DiskError>) -> Result<
    Option<DiskInfoView>,
    DiskError,
> {
    match found {
        Ok(Some(info)) => Ok(Some(info@)),
        Ok(None) => Ok(None),
        Err(e) => Err(e),
    }
}

/// Why no capacity could be reported.
#[derive(Clone, Copy, Debug, PartialEq, Eq, Structural)]
pub enum DiskError {
    /// The device name matches, but the mount point is not valid Unicode.
    MountPointNotText,
    /// The chosen disk claims more available bytes than it has in total.
    AvailableExceedsTotal,
}

impl DiskError {
    /// What to tell the user of the error.
    pub fn message(&self) -> (text: &'static str)
        ensures
            text@ == match *self {
                DiskError::MountPointNotText => "Error getting mount point"@,
                DiskError::AvailableExceedsTotal => "available space exceeds total space"@,
            },
    {
        match self {
            DiskError::MountPointNotText => "Error getting mount point",
            DiskError::AvailableExceedsTotal => "available space exceeds total space",
        }
    }
}

/// The device name can be read and holds the name pattern.
pub open spec fn name_matches(disk: DiskRecord) -> bool {
    disk.name matches Some(name) && contains(name, DISK_NAME_PATTERN@)
}

/// The mount point can be read and holds the mount point pattern.
pub open spec fn mount_point_matches(disk: DiskRecord) -> bool {
    disk.mount_point matches Some(path) && contains(path, MOUNT_POINT_PATTERN@)
}

/// Both patterns match: this is a disk to report.
pub open spec fn is_reported(disk: DiskRecord) -> bool {
    name_matches(disk) && mount_point_matches(disk)
}

/// The scan does not go past this disk: its name matches, and its mount point
/// either matches too or cannot be read at all.
pub open spec fn ends_scan(disk: DiskRecord) -> bool {
    name_matches(disk) && (disk.mount_point is None || mount_point_matches(disk))
}

/// `at` is the first position in `disks` at which the scan ends.
pub open spec fn scan_ends_at(disks: Seq<DiskRecord>, at: int) -> bool {
    &&& 0 <= at < disks.len()
    &&& ends_scan(disks[at])
    &&& forall|before: int| 0 <= before < at ==> !ends_scan(#[trigger] disks[before])
}

/// The capacity of a disk whose available bytes do not exceed its total.
pub open spec fn capacity_of(total_space: u64, available_space: u64) -> DiskInfoView {
    DiskInfoView {
        total_space,
        available_space,
        used_space: (total_space - available_space) as u64,
    }
}

/// What is reported of the disk at which the scan ends.
pub open spec fn outcome_of(disk: DiskRecord) -> Result<Option<DiskInfoView>, DiskError> {
    if disk.mount_point is None {
        Err(DiskError::MountPointNotText)
    } else if disk.available_space > disk.total_space {
        Err(DiskError::AvailableExceedsTotal)
    } else {
        Ok(Some(capacity_of(disk.total_space, disk.available_space)))
    }
}

/// What a run reports of a list of disks: the outcome of the first disk at
/// which the scan ends, and `Ok(None)` where it ends at none.
pub open spec fn disk_outcome(disks: Seq<DiskRecord>) -> Result<
    Option<DiskInfoView>,
    DiskError,
> {
    if exists|at: int| scan_ends_at(disks, at) {
        outcome_of(disks[choose|at: int| scan_ends_at(disks, at)])
    } else {
        Ok(None)
    }
}

/// The scan ends at one position at most.
pub proof fn lemma_scan_end_unique(disks: Seq<DiskRecord>, a: int, b: int)
    requires
        scan_ends_at(disks, a),
        scan_ends_at(disks, b),
    ensures
        a == b,
{
    if a < b {
        assert(!ends_scan(disks[a]));
    } else if b < a {
        assert(!ends_scan(disks[b]));
    }
}

/// Where the scan ends at `at`, the outcome is that of the disk at `at`.
pub proof fn lemma_outcome_at(disks: Seq<DiskRecord>, at: int)
    requires
        scan_ends_at(disks, at),
    ensures
        disk_outcome(disks) == outcome_of(disks[at]),
{
    let chosen = choose|c: int| scan_ends_at(disks, c);
    lemma_scan_end_unique(disks, at, chosen);
}

/// Where no disk has a name that holds the name pattern, nothing is reported,
/// whatever the mount points are.
pub proof fn law_no_name_match_reports_nothing(disks: Seq<DiskRecord>)
    requires
        forall|i: int| 0 <= i < disks.len() ==> !name_matches(#[trigger] disks[i]),
    ensures
        disk_outcome(disks) == Ok::<Option<DiskInfoView>, DiskError>(None),
{
    assert forall|at: int| !scan_ends_at(disks, at) by {
        if 0 <= at < disks.len() {
            assert(!name_matches(disks[at]));
        }
    }
}

/// The first disk that matches in name and in mount point is the one
/// reported, provided that the scan reaches it and that its available bytes
/// do not exceed its total. The used bytes are then the total less the
/// available ones.
pub proof fn law_first_match_is_reported(disks: Seq<DiskRecord>, at: int)
    requires
        0 <= at < disks.len(),
        is_reported(disks[at]),
        forall|before: int| 0 <= before < at ==> !ends_scan(#[trigger] disks[before]),
        disks[at].available_space <= disks[at].total_space,
    ensures
        disk_outcome(disks) == Ok::<Option<DiskInfoView>, DiskError>(
            Some(capacity_of(disks[at].total_space, disks[at].available_space)),
        ),
        capacity_of(disks[at].total_space, disks[at].available_space).used_space
            == disks[at].total_space - disks[at].available_space,
{
    lemma_outcome_at(disks, at);
}

/// Where exactly one disk matches in name and in mount point, that disk is
/// reported, with its used bytes the total less the available ones. This
/// holds where no disk before it has a matching name and a mount point that
/// cannot be read, and where its available bytes do not exceed its total.
pub proof fn law_single_match_is_reported(disks: Seq<DiskRecord>, at: int)
    requires
        0 <= at < disks.len(),
        is_reported(disks[at]),
        forall|other: int|
            0 <= other < disks.len() && other != at ==> !is_reported(#[trigger] disks[other]),
        forall|before: int|
            0 <= before < at ==> !(name_matches(#[trigger] disks[before])
                && disks[before].mount_point is None),
        disks[at].available_space <= disks[at].total_space,
    ensures
        disk_outcome(disks) == Ok::<Option<DiskInfoView>, DiskError>(
            Some(capacity_of(disks[at].total_space, disks[at].available_space)),
        ),
        capacity_of(disks[at].total_space, disks[at].available_space).used_space
            == disks[at].total_space - disks[at].available_space,
{
    assert forall|before: int| 0 <= before < at implies !ends_scan(#[trigger] disks[before]) by {
        assert(!is_reported(disks[before]));
        assert(!(name_matches(disks[before]) && disks[before].mount_point is None));
    }
    law_first_match_is_reported(disks, at);
}

/// A disk with a matching name and a mount point that cannot be read fails
/// the scan where the scan reaches it, whatever follows it.
pub proof fn law_unreadable_mount_point_fails(disks: Seq<DiskRecord>, at: int)
    requires
        0 <= at < disks.len(),
        name_matches(disks[at]),
        disks[at].mount_point is None,
        forall|before: int| 0 <= before < at ==> !ends_scan(#[trigger] disks[before]),
    ensures
        disk_outcome(disks) == Err::<Option<DiskInfoView>, DiskError>(DiskError::MountPointNotText),
{
    lemma_outcome_at(disks, at);
}

/// Disks at which the scan does not end are passed over: what is reported of
/// a list is what is reported of the list without such disks in front. A disk
/// whose name does not match is such a disk, also where its mount point
/// cannot be read.
pub proof fn law_leading_disks_passed_over(front: Seq<DiskRecord>, rest: Seq<DiskRecord>)
    requires
        forall|i: int| 0 <= i < front.len() ==> !ends_scan(#[trigger] front[i]),
    ensures
        disk_outcome(front + rest) == disk_outcome(rest),
{
    let all = front + rest;
    if exists|at: int| scan_ends_at(rest, at) {
        let at = choose|at: int| scan_ends_at(rest, at);
        assert(all[front.len() + at] == rest[at]);
        assert forall|before: int| 0 <= before < front.len() + at implies !ends_scan(
            #[trigger] all[before],
        ) by {
            if before < front.len() {
                assert(all[before] == front[before]);
            } else {
                assert(all[before] == rest[before - front.len()]);
            }
        }
        lemma_outcome_at(all, front.len() + at);
    } else {
        assert forall|at: int| !scan_ends_at(all, at) by {
            if scan_ends_at(all, at) {
                if at < front.len() {
                    assert(all[at] == front[at]);
                } else {
                    let shifted = at - front.len();
                    assert(all[at] == rest[shifted]);
                    assert forall|before: int| 0 <= before < shifted implies !ends_scan(
                        #[trigger] rest[before],
                    ) by {
                        assert(all[front.len() + before] == rest[before]);
                    }
                    assert(scan_ends_at(rest, shifted));
                }
            }
        }
    }
}

/// Every capacity that is reported is consistent: its used bytes are its
/// total less its available ones, and it is the capacity of a listed disk
/// that matches in name and in mount point.
pub proof fn law_reported_capacity_is_consistent(disks: Seq<DiskRecord>, info: DiskInfoView)
    requires
        disk_outcome(disks) == Ok::<Option<DiskInfoView>, DiskError>(Some(info)),
    ensures
        info.consistent(),
        exists|at: int|
            0 <= at < disks.len() && is_reported(#[trigger] disks[at]) && info == capacity_of(
                disks[at].total_space,
                disks[at].available_space,
            ),
{
    let at = choose|at: int| scan_ends_at(disks, at);
    assert(is_reported(disks[at]));
}

impl DiskInfo {
    /// Holds of every capacity that a program has in hand.
    #[verifier::type_invariant]
    pub open spec fn is_consistent(self) -> bool {
        self@.consistent()
    }

    /// The capacity reported where no disk matches: zero bytes throughout.
    pub fn zero() -> (info: DiskInfo)
        ensures
            info@ == DiskInfoView::zero(),
    {
        DiskInfo { system_total_space: 0, system_available_space: 0, system_used_space: 0 }
    }

    /// The capacity of a disk with `total_space` bytes of which
    /// `available_space` are free to use, and an error where more are free
    /// than the disk has.
    pub fn from_bytes(total_space: u64, available_space: u64) -> (info: Result<DiskInfo, DiskError>)
        ensures
            available_space <= total_space ==> info is Ok && info.unwrap()@ == capacity_of(
                total_space,
                available_space,
            ),
            available_space > total_space ==> info == Err::<DiskInfo, DiskError>(
                DiskError::AvailableExceedsTotal,
            ),
    {
        if available_space > total_space {
            Err(DiskError::AvailableExceedsTotal)
        } else {
            Ok(
                DiskInfo {
                    system_total_space: total_space,
                    system_available_space: available_space,
                    system_used_space: total_space - available_space,
                },
            )
        }
    }

    /// Size of the disk in bytes.
    pub fn total_space(&self) -> (bytes: u64)
        ensures
            bytes == self@.total_space,
    {
        self.system_total_space
    }

    /// Bytes of the disk that are free to use.
    pub fn available_space(&self) -> (bytes: u64)
        ensures
            bytes == self@.available_space,
    {
        self.system_available_space
    }

    /// Bytes of the disk that are in use: the total less the available ones.
    pub fn used_space(&self) -> (bytes: u64)
        ensures
            bytes == self@.used_space,
            bytes == self@.total_space - self@.available_space,
    {
        proof {
            use_type_invariant(self);
        }
        self.system_used_space
    }
}

/// Whether a text that may be missing is there and holds `pattern`.
fn text_holds(text: &Option<String>, pattern: &str) -> (holds: bool)
    ensures
        holds == (text_of(*text) matches Some(t) && contains(t, pattern@)),
{
    match text {
        Some(t) => str_contains(t.as_str(), pattern),
        None => false,
    }
}

/// Scans `entries` in order and reports the first disk whose name and mount
/// point both match.
///
/// `Ok(None)` where the scan ends at no disk. An error where it ends at a disk
/// whose mount point cannot be read, or whose available bytes exceed its
/// total. Disks behind the one at which the scan ends are not looked at.
pub fn select_disk(entries: &[DiskEntry]) -> (found: Result<Option<DiskInfo>, DiskError>)
    ensures
        outcome_view(found) == disk_outcome(records(entries@)),
{
    let ghost disks = records(entries@);
    let mut at: usize = 0;
    while at < entries.len()
        invariant
            at <= entries.len(),
            disks == records(entries@),
            forall|before: int| 0 <= before < at ==> !ends_scan(#[trigger] disks[before]),
        decreases entries.len() - at,
    {
        let entry = &entries[at];
        assert(disks[at as int] == entry@);
        if text_holds(&entry.name, DISK_NAME_PATTERN) {
            if entry.mount_point.is_none() {
                proof {
                    lemma_outcome_at(disks, at as int);
                }
                return Err(DiskError::MountPointNotText);
            }
            if text_holds(&entry.mount_point, MOUNT_POINT_PATTERN) {
                proof {
                    lemma_outcome_at(disks, at as int);
                }
                return match DiskInfo::from_bytes(entry.total_space, entry.available_space) {
                    Ok(info) => Ok(Some(info)),
                    Err(e) => Err(e),
                };
            }
        }
        at += 1;
    }
    assert forall|end: int| !scan_ends_at(disks, end) by {
        if 0 <= end < disks.len() {
            assert(!ends_scan(disks[end]));
        }
    }
    Ok(None)
}

} // verus!
