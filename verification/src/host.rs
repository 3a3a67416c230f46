//! The operating system's list of disks, as `sysinfo` holds it.
//!
//! Verus cannot look inside a `sysinfo::Disks`. What such a list holds is
//! named by [`listed_disks`], and the functions that read the list are trusted
//! to return what that name says. Everything behind them is proved.

use vstd::prelude::*;
use sysinfo::Disks;
use crate::disk::{
    disk_outcome, outcome_view, records, select_disk, DiskEntry, DiskError, DiskInfo, DiskRecord,
};
use crate::text::text_of;

verus! {

/// `sysinfo::Disks`, the list of disks. Nothing is claimed of the type.
#[verifier::external_type_specification]
#[verifier::external_body]
pub struct ExDisks(sysinfo::Disks);

/// `sysinfo::Disk`, one disk of the list. Nothing is claimed of the type; it
/// is declared because a `Disks` dereferences to a slice of it.
#[verifier::external_type_specification]
#[verifier::external_body]
pub struct ExDisk(sysinfo::Disk);

/// The disks that a list holds, in the order of `Disks::list`: of each its
/// device name and its mount point, as text where they are valid Unicode, and
/// its total and available bytes.
pub uninterp spec fn listed_disks(disks: Disks) -> Seq<DiskRecord>;

/// Calls `Disks::list` and takes the length of the slice. Trusted: that is
/// the number of disks that the list holds.
#[verifier::external_body]
fn disk_count(disks: &Disks) -> (count: usize)
    ensures
        count == listed_disks(*disks).len(),
{
    disks.list().len()
}

/// Calls `Disk::name` on the disk at `at` of `Disks::list`, and
/// `OsStr::to_str` on what it returns. Trusted: that is the device name of
/// the disk at `at`, and `None` where the name is not valid Unicode. Indexing
/// the slice panics behind its end, so `at` must lie within the list.
#[verifier::external_body]
fn disk_name(disks: &Disks, at: usize) -> (name: Option<String>)
    requires
        at < listed_disks(*disks).len(),
    ensures
        text_of(name) == listed_disks(*disks)[at as int].name,
{
    disks.list()[at].name().to_str().map(String::from)
}

/// Calls `Disk::mount_point` on the disk at `at` of `Disks::list`, and
/// `Path::to_str` on what it returns. Trusted: that is the mount point of the
/// disk at `at`, and `None` where the path is not valid Unicode.
#[verifier::external_body]
fn disk_mount_point(disks: &Disks, at: usize) -> (mount_point: Option<String>)
    requires
        at < listed_disks(*disks).len(),
    ensures
        text_of(mount_point) == listed_disks(*disks)[at as int].mount_point,
{
    disks.list()[at].mount_point().to_str().map(String::from)
}

/// Calls `Disk::total_space` on the disk at `at` of `Disks::list`. Trusted:
/// that is the size in bytes of the disk at `at`.
#[verifier::external_body]
fn disk_total_space(disks: &Disks, at: usize) -> (bytes: u64)
    requires
        at < listed_disks(*disks).len(),
    ensures
        bytes == listed_disks(*disks)[at as int].total_space,
{
    disks.list()[at].total_space()
}

/// Calls `Disk::available_space` on the disk at `at` of `Disks::list`.
/// Trusted: that is the number of bytes of the disk at `at` that are free to
/// use.
#[verifier::external_body]
fn disk_available_space(disks: &Disks, at: usize) -> (bytes: u64)
    requires
        at < listed_disks(*disks).len(),
    ensures
        bytes == listed_disks(*disks)[at as int].available_space,
{
    disks.list()[at].available_space()
}

/// Copies the disks of a list into entries, in the list's order.
pub fn read_disks(disks: &Disks) -> (entries: Vec<DiskEntry>)
    ensures
        records(entries@) == listed_disks(*disks),
{
    let count: usize = disk_count(disks);
    let mut entries: Vec<DiskEntry> = Vec::new();
    let mut at: usize = 0;
    while at < count
        invariant
            count == listed_disks(*disks).len(),
            at <= count,
            entries@.len() == at,
            forall|i: int| 0 <= i < at ==> (#[trigger] entries@[i])@ == listed_disks(*disks)[i],
        decreases count - at,
    {
        let entry = DiskEntry {
            name: disk_name(disks, at),
            mount_point: disk_mount_point(disks, at),
            total_space: disk_total_space(disks, at),
            available_space: disk_available_space(disks, at),
        };
        entries.push(entry);
        at += 1;
    }
    assert(records(entries@) =~= listed_disks(*disks));
    entries
}

/// Reports the first disk of the list whose name and mount point both match,
/// as [`select_disk`] does of the list's entries.
pub fn get_disk_info(disks: Disks) -> (found: Result<Option<DiskInfo>, DiskError>)
    ensures
        outcome_view(found) == disk_outcome(listed_disks(disks)),
{
    let entries = read_disks(&disks);
    select_disk(entries.as_slice())
}

} // verus!
