use provision::device::{BlockDevice, LsBlkOutput};

fn device(name: &str, size: &str, blocktype: &str, mountpoints: Vec<Option<String>>) -> BlockDevice {
    BlockDevice {
        name: name.to_string(),
        majmin: "8:0".to_string(),
        rm: false,
        size: size.to_string(),
        ro: false,
        blocktype: blocktype.to_string(),
        mountpoints,
        children: None,
    }
}

#[test]
fn size_parses_terabyte_suffix() {
    let d = device("sda", "2T", "disk", vec![]);
    assert_eq!(d.size(), 2 * 1024u64 * 1024 * 1024 * 1024);
}

#[test]
fn size_parses_megabyte_suffix() {
    let d = device("sda", "512M", "disk", vec![]);
    assert_eq!(d.size(), 512 * 1024u64 * 1024);
}

#[test]
fn size_without_suffix_is_bytes() {
    let d = device("sda", "100", "disk", vec![]);
    assert_eq!(d.size(), 100);
}

#[test]
fn unparsable_size_counts_as_zero() {
    let d = device("sda", "bogus", "disk", vec![]);
    assert_eq!(d.size(), 0);
}

#[test]
fn size_parses_gigabyte_and_kilobyte() {
    assert_eq!(device("a", "3G", "disk", vec![]).size(), 3 * 1024u64 * 1024 * 1024);
    assert_eq!(device("a", "7K", "disk", vec![]).size(), 7 * 1024u64);
}

#[test]
fn fractional_size_does_not_parse() {
    assert_eq!(device("a", "3.5G", "disk", vec![]).size(), 0);
}

#[test]
fn unit_suffix_is_case_sensitive() {
    assert_eq!(device("a", "5g", "disk", vec![]).size(), 0);
    assert_eq!(device("a", "2t", "disk", vec![]).size(), 0);
}

#[test]
fn unpartitioned_unmounted_disk_is_not_busy() {
    assert!(!device("sda", "1G", "disk", vec![]).is_busy());
    assert!(!device("sda", "1G", "disk", vec![None]).is_busy());
}

#[test]
fn non_disk_type_is_busy() {
    assert!(device("sda1", "1G", "part", vec![None]).is_busy());
}

#[test]
fn mounted_device_is_busy() {
    assert!(device("sda", "1G", "disk", vec![Some("/".to_string())]).is_busy());
}

#[test]
fn two_mountpoint_entries_make_a_device_busy() {
    assert!(device("sda", "1G", "disk", vec![None, None]).is_busy());
}

#[test]
fn partitioned_disk_is_busy() {
    let mut d = device("sda", "1G", "disk", vec![None]);
    d.children = Some(vec![device("sda1", "1G", "part", vec![None])]);
    assert!(d.is_busy());
}

#[test]
fn disk_with_empty_children_list_is_not_busy() {
    let mut d = device("sda", "1G", "disk", vec![None]);
    d.children = Some(vec![]);
    assert!(!d.is_busy());
}

#[test]
fn biggest_unmounted_picks_largest_eligible() {
    let listing = LsBlkOutput {
        blockdevices: vec![
            device("sda", "1G", "disk", vec![Some("/".to_string())]),
            device("sdb", "2G", "disk", vec![None]),
            device("sdc", "10G", "disk", vec![None]),
            device("sdd", "5G", "disk", vec![None]),
        ],
    };
    let picked = listing.get_biggest_unmounted().expect("eligible device");
    assert_eq!(picked.name, "sdc");
}

#[test]
fn biggest_unmounted_breaks_ties_by_listing_order() {
    let listing = LsBlkOutput {
        blockdevices: vec![
            device("sdx", "4G", "disk", vec![None]),
            device("sdy", "4G", "disk", vec![None]),
            device("sdz", "3G", "disk", vec![None]),
        ],
    };
    let picked = listing.get_biggest_unmounted().expect("eligible device");
    assert_eq!(picked.name, "sdx");
}

#[test]
fn biggest_unmounted_is_deterministic_over_a_fixed_set() {
    let make = || LsBlkOutput {
        blockdevices: vec![
            device("sda", "4G", "disk", vec![None]),
            device("sdb", "4G", "disk", vec![None]),
        ],
    };
    let first = make();
    let second = make();
    assert_eq!(
        first.get_biggest_unmounted().unwrap().name,
        second.get_biggest_unmounted().unwrap().name
    );
}

#[test]
fn biggest_unmounted_none_when_all_busy() {
    let listing = LsBlkOutput {
        blockdevices: vec![
            device("sda", "1G", "disk", vec![Some("/".to_string())]),
            device("sda1", "1G", "part", vec![None]),
        ],
    };
    assert!(listing.get_biggest_unmounted().is_none());
}

#[test]
fn mounted_to_finds_first_match_without_recursing() {
    let listing = LsBlkOutput {
        blockdevices: vec![
            device("sda", "1G", "disk", vec![Some("/".to_string())]),
            device("sdb", "2G", "disk", vec![Some("/data".to_string())]),
            device("sdc", "2G", "disk", vec![Some("/data".to_string())]),
        ],
    };
    let found = listing.get_mounted_to("/data".to_string()).expect("mounted device");
    assert_eq!(found.name, "sdb");
    assert!(listing.get_mounted_to("/missing".to_string()).is_none());
}

#[test]
fn null_mountpoints_are_skipped_when_matching() {
    let listing = LsBlkOutput {
        blockdevices: vec![device("sda", "1G", "disk", vec![None, Some("/data".to_string())])],
    };
    let found = listing.get_mounted_to("/data".to_string()).expect("mounted device");
    assert_eq!(found.name, "sda");
}
