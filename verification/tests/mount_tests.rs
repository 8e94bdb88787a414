use provision::device::{BlockDevice, LsBlkOutput};
use provision::executor::Error;
use provision::mount::{MountOptions, fstab_plan, mounting, on_check, on_install, update_fstab};
use provision::status::Status;

fn device(name: &str, size: &str, blocktype: &str, mountpoints: Vec<Option<String>>) -> BlockDevice {
    BlockDevice {
        name: name.to_string(),
        majmin: "8:0".to_string(),
        rm: false,
        size: size.to_string(),
        ro: false,
        blocktype: blocktype.to_string(),
        mountpoints,
        children: None,
    }
}

#[test]
fn install_on_fresh_host_formats_mounts_and_appends() {
    let listing = LsBlkOutput {
        blockdevices: vec![
            device("sda", "10G", "disk", vec![Some("/".to_string())]),
            device("sdb", "100G", "disk", vec![None]),
        ],
    };
    let opt = MountOptions::new("/data");
    let plan = on_install(&listing, &opt, "/dev/sda / ext4 defaults 0 0\n").unwrap();
    assert_eq!(
        plan,
        vec![
            "sudo mkfs -t ext4 /dev/sdb 2>&1".to_string(),
            "sudo mkdir -p /data 2>&1".to_string(),
            "sudo mount /dev/sdb /data 2>&1".to_string(),
            "sudo cp /etc/fstab /etc/fstab.bak".to_string(),
            "sudo sh -c 'echo \"/dev/sdb       /data   ext4    defaults,nofail        0       0\" >> /etc/fstab'"
                .to_string(),
        ]
    );
}

#[test]
fn second_install_run_plans_zero_mutating_commands() {
    let listing = LsBlkOutput {
        blockdevices: vec![device(
            "sdb",
            "100G",
            "disk",
            vec![Some("/data".to_string())],
        )],
    };
    let opt = MountOptions::new("/data");
    let fstab = "/dev/sdb       /data   ext4    defaults,nofail        0       0\n";
    let plan = on_install(&listing, &opt, fstab).unwrap();
    assert!(plan.is_empty());
}

#[test]
fn adopted_device_still_gets_fstab_entry_once() {
    let listing = LsBlkOutput {
        blockdevices: vec![device(
            "sdb",
            "100G",
            "disk",
            vec![Some("/data".to_string())],
        )],
    };
    let opt = MountOptions::new("/data");
    let plan = on_install(&listing, &opt, "/dev/sda / ext4 defaults 0 0\n").unwrap();
    assert_eq!(
        plan,
        vec![
            "sudo cp /etc/fstab /etc/fstab.bak".to_string(),
            "sudo sh -c 'echo \"/dev/sdb       /data   ext4    defaults,nofail        0       0\" >> /etc/fstab'"
                .to_string(),
        ]
    );
}

#[test]
fn install_without_eligible_device_fails() {
    let listing = LsBlkOutput {
        blockdevices: vec![device("sda", "10G", "disk", vec![Some("/".to_string())])],
    };
    let opt = MountOptions::new("/data");
    match on_install(&listing, &opt, "") {
        Err(Error::NoEligibleDeviceError) => {}
        _ => panic!("expected NoEligibleDeviceError"),
    }
}

#[test]
fn fstab_append_is_exactly_once() {
    let table = "/dev/sdb       /data   ext4    defaults,nofail        0       0\n";
    assert!(fstab_plan("sdb", "/data", "ext4", table).is_empty());
    let fresh = fstab_plan("sdb", "/data", "ext4", "# empty table\n");
    assert_eq!(fresh, update_fstab("sdb", "/data", "ext4"));
    assert_eq!(fresh.len(), 2);
}

#[test]
fn mounting_issues_mkfs_mkdir_mount() {
    assert_eq!(
        mounting("sdc", "/data2", "ext4"),
        vec![
            "sudo mkfs -t ext4 /dev/sdc 2>&1".to_string(),
            "sudo mkdir -p /data2 2>&1".to_string(),
            "sudo mount /dev/sdc /data2 2>&1".to_string(),
        ]
    );
}

#[test]
fn check_reports_mounted_device_and_fstab_presence() {
    let listing = LsBlkOutput {
        blockdevices: vec![device(
            "sdb",
            "100G",
            "disk",
            vec![Some("/data".to_string())],
        )],
    };
    let opt = MountOptions::new("/data");
    let status = on_check(&listing, &opt, "/dev/sdb   /data  ext4 defaults,nofail 0 0\n");
    match status {
        Status::Installed { success } => {
            assert_eq!(
                success,
                vec![
                    "folder /data is used by sdb".to_string(),
                    "device /dev/sdb is in fstab".to_string(),
                ]
            );
        }
        Status::NotInstalled { .. } => panic!("expected Installed"),
    }
}

#[test]
fn check_reports_unmounted_path_and_missing_fstab_entry() {
    let listing = LsBlkOutput {
        blockdevices: vec![device("sdb", "100G", "disk", vec![None])],
    };
    let opt = MountOptions::new("/data");
    let status = on_check(&listing, &opt, "");
    match status {
        Status::NotInstalled { success, fail } => {
            assert!(success.is_empty());
            assert_eq!(
                fail,
                vec![
                    "folder /data is not mounted".to_string(),
                    "device /dev/sdb is not in fstab".to_string(),
                ]
            );
        }
        Status::Installed { .. } => panic!("expected NotInstalled"),
    }
}

#[test]
fn check_is_unsatisfied_while_the_path_stays_unmounted() {
    let listing = LsBlkOutput {
        blockdevices: vec![device("sdb", "100G", "disk", vec![None])],
    };
    let opt = MountOptions::new("/data");
    let status = on_check(&listing, &opt, "/dev/sdb   /data  ext4 defaults,nofail 0 0\n");
    match status {
        Status::NotInstalled { success, fail } => {
            assert_eq!(success, vec!["device /dev/sdb is in fstab".to_string()]);
            assert_eq!(fail, vec!["folder /data is not mounted".to_string()]);
        }
        Status::Installed { .. } => panic!("expected NotInstalled"),
    }
}

#[test]
fn check_fails_outright_without_any_target_device() {
    let listing = LsBlkOutput {
        blockdevices: vec![device("sda", "10G", "disk", vec![Some("/".to_string())])],
    };
    let opt = MountOptions::new("/data");
    match on_check(&listing, &opt, "") {
        Status::NotInstalled { success, fail } => {
            assert!(success.is_empty());
            assert_eq!(fail, vec!["failed to find target block device".to_string()]);
        }
        Status::Installed { .. } => panic!("expected NotInstalled"),
    }
}
