use disk_telemetry::disk::{
    select_disk, DiskEntry, DiskError, DiskInfo, BYTES_PER_GIB, DISK_NAME_PATTERN,
    MOUNT_POINT_PATTERN,
};

fn entry(name: &str, mount_point: &str, total_space: u64, available_space: u64) -> DiskEntry {
    DiskEntry {
        name: Some(name.to_string()),
        mount_point: Some(mount_point.to_string()),
        total_space,
        available_space,
    }
}

fn unreadable_mount_point(name: &str, total_space: u64, available_space: u64) -> DiskEntry {
    DiskEntry {
        name: Some(name.to_string()),
        mount_point: None,
        total_space,
        available_space,
    }
}

fn capacity(total: u64, available: u64, used: u64) -> (u64, u64, u64) {
    (total, available, used)
}

fn bytes(info: DiskInfo) -> (u64, u64, u64) {
    (info.total_space(), info.available_space(), info.used_space())
}

fn select(disks: &[DiskEntry]) -> Result<Option<(u64, u64, u64)>, DiskError> {
    select_disk(disks).map(|found| found.map(bytes))
}

fn gib(bytes: u64) -> f64 {
    bytes as f64 / BYTES_PER_GIB as f64
}

#[test]
fn patterns_are_the_fixed_ones() {
    assert_eq!(DISK_NAME_PATTERN, "1p6");
    assert_eq!(MOUNT_POINT_PATTERN, "/home");
}

#[test]
fn a_gibibyte_is_two_to_the_thirty_bytes() {
    assert_eq!(BYTES_PER_GIB, 1024 * 1024 * 1024);
    assert_eq!(BYTES_PER_GIB, 1u64 << 30);
}

#[test]
fn gibibyte_conversion_is_exact() {
    assert_eq!(gib(1073741824), 1.0);
    assert_eq!(gib(0), 0.0);
    assert_eq!(gib(536870912), 0.5);
    assert_eq!(gib(1073741824), 1073741824f64 / 1024f64 / 1024f64 / 1024f64);
    assert_eq!(gib(u64::MAX), u64::MAX as f64 / 1024f64 / 1024f64 / 1024f64);
}

#[test]
fn empty_list_reports_nothing() {
    assert_eq!(select(&[]), Ok(None));
}

#[test]
fn no_name_with_the_pattern_reports_nothing() {
    let disks = vec![
        entry("sda1", "/home", 100, 50),
        entry("nvme0n1p2", "/home/data", 200, 20),
        unreadable_mount_point("sdb", 300, 30),
        entry("1p", "/home", 400, 40),
        entry("p61", "/home", 500, 50),
    ];
    assert_eq!(select(&disks), Ok(None));
}

#[test]
fn matching_disk_is_reported_in_bytes() {
    let disks = vec![entry("nvme1p6", "/home/data", 10737418240, 5368709120)];
    assert_eq!(
        select(&disks),
        Ok(Some(capacity(10737418240, 5368709120, 5368709120)))
    );
}

#[test]
fn matching_disk_is_ten_five_and_five_gibibytes() {
    let disks = vec![entry("nvme1p6", "/home/data", 10737418240, 5368709120)];
    let info = select_disk(&disks).unwrap().unwrap();
    assert_eq!(gib(info.total_space()), 10.0);
    assert_eq!(gib(info.available_space()), 5.0);
    assert_eq!(gib(info.used_space()), 5.0);
}

#[test]
fn single_match_among_others_is_reported() {
    let disks = vec![
        entry("sda1", "/", 1000, 900),
        entry("nvme0n1p6", "/var", 2000, 100),
        entry("/dev/nvme1p6", "/mnt/home", 3000, 1),
        entry("sdb1", "/home", 4000, 4000),
    ];
    assert_eq!(select(&disks), Ok(Some(capacity(3000, 1, 2999))));
}

#[test]
fn used_is_total_less_available() {
    let disks = vec![entry("x1p6", "/home", u64::MAX, 1)];
    assert_eq!(
        select(&disks),
        Ok(Some(capacity(u64::MAX, 1, u64::MAX - 1)))
    );
    let full = vec![entry("x1p6", "/home", 77, 0)];
    assert_eq!(select(&full), Ok(Some(capacity(77, 0, 77))));
    let free = vec![entry("x1p6", "/home", 77, 77)];
    assert_eq!(select(&free), Ok(Some(capacity(77, 77, 0))));
}

#[test]
fn first_of_several_matches_wins() {
    let disks = vec![
        entry("a1p6", "/home/a", 10, 1),
        entry("b1p6", "/home/b", 20, 2),
        entry("c1p6", "/home/c", 30, 3),
    ];
    assert_eq!(select(&disks), Ok(Some(capacity(10, 1, 9))));
}

#[test]
fn name_must_match_on_the_same_disk_as_the_mount_point() {
    let disks = vec![
        entry("nvme1p6", "/boot", 10, 1),
        entry("sda1", "/home", 20, 2),
    ];
    assert_eq!(select(&disks), Ok(None));
}

#[test]
fn matching_name_with_other_mount_point_is_passed_over() {
    let disks = vec![
        entry("nvme1p6", "/boot", 10, 1),
        entry("nvme1p6", "/home", 20, 2),
    ];
    assert_eq!(select(&disks), Ok(Some(capacity(20, 2, 18))));
}

#[test]
fn patterns_match_anywhere_in_the_text() {
    assert_eq!(
        select(&[entry("1p6", "/home", 5, 5)]),
        Ok(Some(capacity(5, 5, 0)))
    );
    assert_eq!(
        select(&[entry("1p6tail", "/srv/home", 5, 4)]),
        Ok(Some(capacity(5, 4, 1)))
    );
    assert_eq!(
        select(&[entry("head1p6", "/x/homestead", 5, 3)]),
        Ok(Some(capacity(5, 3, 2)))
    );
    assert_eq!(select(&[entry("1P6", "/home", 5, 5)]), Ok(None));
    assert_eq!(select(&[entry("1p6", "home", 5, 5)]), Ok(None));
    assert_eq!(select(&[entry("1p6", "/Home", 5, 5)]), Ok(None));
}

#[test]
fn undecodable_mount_point_of_matching_name_is_an_error() {
    let disks = vec![unreadable_mount_point("nvme1p6", 10, 5)];
    assert_eq!(select(&disks), Err(DiskError::MountPointNotText));
}

#[test]
fn undecodable_mount_point_of_other_name_is_passed_over() {
    let disks = vec![
        unreadable_mount_point("sda1", 10, 5),
        entry("nvme1p6", "/home/data", 20, 5),
    ];
    assert_eq!(select(&disks), Ok(Some(capacity(20, 5, 15))));
    let only = vec![unreadable_mount_point("sda1", 10, 5)];
    assert_eq!(select(&only), Ok(None));
}

#[test]
fn undecodable_mount_point_before_a_match_is_an_error() {
    let disks = vec![
        entry("sda1", "/", 1, 1),
        unreadable_mount_point("nvme1p6", 10, 5),
        entry("nvme1p6", "/home/data", 20, 5),
    ];
    assert_eq!(select(&disks), Err(DiskError::MountPointNotText));
}

#[test]
fn undecodable_mount_point_behind_a_match_is_not_looked_at() {
    let disks = vec![
        entry("nvme1p6", "/home/data", 20, 5),
        unreadable_mount_point("nvme1p6", 10, 5),
    ];
    assert_eq!(select(&disks), Ok(Some(capacity(20, 5, 15))));
}

#[test]
fn undecodable_name_is_passed_over() {
    let disks = vec![
        DiskEntry {
            name: None,
            mount_point: Some("/home".to_string()),
            total_space: 10,
            available_space: 5,
        },
        DiskEntry {
            name: None,
            mount_point: None,
            total_space: 10,
            available_space: 5,
        },
    ];
    assert_eq!(select(&disks), Ok(None));
}

#[test]
fn more_available_than_total_is_an_error() {
    let disks = vec![entry("nvme1p6", "/home", 5, 6)];
    assert_eq!(select(&disks), Err(DiskError::AvailableExceedsTotal));
}

#[test]
fn more_available_than_total_on_another_disk_is_passed_over() {
    let disks = vec![
        entry("sda1", "/home", 5, 6),
        entry("nvme1p6", "/boot", 5, 6),
        entry("nvme1p6", "/home", 8, 6),
    ];
    assert_eq!(select(&disks), Ok(Some(capacity(8, 6, 2))));
}

#[test]
fn from_bytes_subtracts() {
    assert_eq!(DiskInfo::from_bytes(10, 4).map(bytes), Ok(capacity(10, 4, 6)));
    assert_eq!(DiskInfo::from_bytes(0, 0).map(bytes), Ok(capacity(0, 0, 0)));
    assert_eq!(
        DiskInfo::from_bytes(u64::MAX, u64::MAX).map(bytes),
        Ok(capacity(u64::MAX, u64::MAX, 0))
    );
    assert_eq!(
        DiskInfo::from_bytes(0, 1),
        Err(DiskError::AvailableExceedsTotal)
    );
    assert_eq!(
        DiskInfo::from_bytes(5, u64::MAX),
        Err(DiskError::AvailableExceedsTotal)
    );
}

#[test]
fn zero_capacity_is_zero_throughout() {
    assert_eq!(bytes(DiskInfo::zero()), capacity(0, 0, 0));
    assert_eq!(Ok(DiskInfo::zero()), DiskInfo::from_bytes(0, 0));
    assert_eq!(gib(DiskInfo::zero().total_space()), 0.0);
    assert_eq!(gib(DiskInfo::zero().available_space()), 0.0);
    assert_eq!(gib(DiskInfo::zero().used_space()), 0.0);
}

#[test]
fn disk_errors_have_messages() {
    assert_eq!(
        DiskError::MountPointNotText.message(),
        "Error getting mount point"
    );
    assert_eq!(
        DiskError::AvailableExceedsTotal.message(),
        "available space exceeds total space"
    );
}

#[test]
fn unicode_names_are_searched_by_character() {
    let disks = vec![entry("диск1p6", "/mnt/дом/home", 9, 3)];
    assert_eq!(select(&disks), Ok(Some(capacity(9, 3, 6))));
    let other = vec![entry("диск1p", "/home", 9, 3)];
    assert_eq!(select(&other), Ok(None));
}
