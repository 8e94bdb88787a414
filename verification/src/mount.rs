//! The mount capability: pick a target block device (the one already
//! mounted at the destination, else the biggest unmounted disk), plan the
//! formatting / mounting commands, and keep the persisted mount table in
//! shape exactly once.  The surrounding binary fetches the disk listing and
//! the mount table and runs the planned commands; every decision is here.

use vstd::prelude::*;
use crate::device::{
    BlockDevice, LsBlkOutput, is_biggest_pick, lemma_biggest_pick_unique, lemma_mounted_at_index,
    mounted_at_index,
};
use crate::executor::{Error, ErrorView};
use crate::status::{Status, StatusView, status_new_spec};
use crate::text;

verus! {

/// Desired state of the mount capability: the destination folder; the
/// biggest free device that is not mounted is selected for it.
pub struct MountOptions {
    pub to: String,
}

impl MountOptions {
    pub fn new(to: &str) -> (r: MountOptions)
        ensures
            r.to@ == to@,
    {
        MountOptions { to: to.to_owned() }
    }
}

/// The `/dev` path of a device name.
pub open spec fn dev_path_spec(name: Seq<char>) -> Seq<char> {
    "/dev/"@ + name
}

pub open spec fn mkfs_cmd_spec(name: Seq<char>, fs: Seq<char>) -> Seq<char> {
    "sudo mkfs -t "@ + fs + " /dev/"@ + name + " 2>&1"@
}

pub open spec fn mkdir_cmd_spec(to: Seq<char>) -> Seq<char> {
    "sudo mkdir -p "@ + to + " 2>&1"@
}

pub open spec fn mount_cmd_spec(name: Seq<char>, to: Seq<char>) -> Seq<char> {
    "sudo mount /dev/"@ + name + " "@ + to + " 2>&1"@
}

pub open spec fn fstab_backup_cmd_spec() -> Seq<char> {
    "sudo cp /etc/fstab /etc/fstab.bak"@
}

pub open spec fn fstab_append_cmd_spec(name: Seq<char>, to: Seq<char>, fs: Seq<char>) -> Seq<
    char,
> {
    "sudo sh -c 'echo \"/dev/"@ + name + "       "@ + to + "   "@ + fs
        + "    defaults,nofail        0       0\" >> /etc/fstab'"@
}

/// The `/dev` path of a device name.
pub fn dev_path(name: &str) -> (r: String)
    ensures
        r@ == dev_path_spec(name@),
{
    let mut s = "/dev/".to_owned();
    s.append(name);
    s
}

/// The three commands that format a fresh device and mount it: make an ext4
/// filesystem, create the destination folder, mount the device there.
pub fn mounting(name: &str, to: &str, fs_type: &str) -> (r: Vec<String>)
    ensures
        r.deep_view() == seq![
            mkfs_cmd_spec(name@, fs_type@),
            mkdir_cmd_spec(to@),
            mount_cmd_spec(name@, to@),
        ],
{
    let mut mkfs = "sudo mkfs -t ".to_owned();
    mkfs.append(fs_type);
    mkfs.append(" /dev/");
    mkfs.append(name);
    mkfs.append(" 2>&1");
    let mut mkdir = "sudo mkdir -p ".to_owned();
    mkdir.append(to);
    mkdir.append(" 2>&1");
    let mut mnt = "sudo mount /dev/".to_owned();
    mnt.append(name);
    mnt.append(" ");
    mnt.append(to);
    mnt.append(" 2>&1");
    let mut r: Vec<String> = Vec::new();
    r.push(mkfs);
    r.push(mkdir);
    r.push(mnt);
    proof {
        assert(r.deep_view() =~= seq![
            mkfs_cmd_spec(name@, fs_type@),
            mkdir_cmd_spec(to@),
            mount_cmd_spec(name@, to@),
        ]);
    }
    r
}

/// The two commands that record the device persistently: back the table up,
/// then append a `defaults,nofail` entry.
pub fn update_fstab(name: &str, to: &str, fs_type: &str) -> (r: Vec<String>)
    ensures
        r.deep_view() == seq![
            fstab_backup_cmd_spec(),
            fstab_append_cmd_spec(name@, to@, fs_type@),
        ],
{
    let mut app = "sudo sh -c 'echo \"/dev/".to_owned();
    app.append(name);
    app.append("       ");
    app.append(to);
    app.append("   ");
    app.append(fs_type);
    app.append("    defaults,nofail        0       0\" >> /etc/fstab'");
    let mut r: Vec<String> = Vec::new();
    r.push("sudo cp /etc/fstab /etc/fstab.bak".to_owned());
    r.push(app);
    proof {
        assert(r.deep_view() =~= seq![
            fstab_backup_cmd_spec(),
            fstab_append_cmd_spec(name@, to@, fs_type@),
        ]);
    }
    r
}

/// What the mount-table phase appends, given the table's current contents:
/// nothing when the device's `/dev` path already occurs, else the backup
/// and one append.
pub open spec fn fstab_plan_spec(
    name: Seq<char>,
    to: Seq<char>,
    fs: Seq<char>,
    fstab: Seq<char>,
) -> Seq<Seq<char>> {
    if text::contains_seq(fstab, dev_path_spec(name)) {
        Seq::empty()
    } else {
        seq![fstab_backup_cmd_spec(), fstab_append_cmd_spec(name, to, fs)]
    }
}

/// Plans the mount-table phase from the table's current contents.
pub fn fstab_plan(name: &str, to: &str, fs_type: &str, fstab: &str) -> (r: Vec<String>)
    ensures
        r.deep_view() == fstab_plan_spec(name@, to@, fs_type@, fstab@),
{
    let dev = dev_path(name);
    if text::contains_str(fstab, dev.as_str()) {
        let r: Vec<String> = Vec::new();
        proof {
            assert(r.deep_view() =~= Seq::<Seq<char>>::empty());
        }
        r
    } else {
        update_fstab(name, to, fs_type)
    }
}

/// The mount table holds the device's entry exactly once after an install:
/// a table that already names the device gets nothing appended; any other
/// table gets one backup and one append.
pub proof fn lemma_fstab_append_once(name: Seq<char>, to: Seq<char>, fs: Seq<char>, fstab: Seq<char>)
    ensures
        text::contains_seq(fstab, dev_path_spec(name)) ==> fstab_plan_spec(
            name,
            to,
            fs,
            fstab,
        ).len() == 0,
        !text::contains_seq(fstab, dev_path_spec(name)) ==> fstab_plan_spec(name, to, fs, fstab)
            =~= seq![fstab_backup_cmd_spec(), fstab_append_cmd_spec(name, to, fs)],
{
}

/// The device an install run adopts: the one already mounted at the target
/// path (no formatting then), else the biggest unmounted one (formatted and
/// mounted), else nothing.
pub open spec fn install_selection(devs: Seq<BlockDevice>, to: Seq<char>) -> Option<
    (Seq<char>, bool),
> {
    if mounted_at_index(devs, to) != -1 {
        Some((devs[mounted_at_index(devs, to)].name@, true))
    } else if exists|i: int| is_biggest_pick(devs, i) {
        Some(((devs[choose|i: int| is_biggest_pick(devs, i)]).name@, false))
    } else {
        None
    }
}

/// The full install plan: every mutating remote command of one mount
/// install, in order, or the selection failure.
pub open spec fn mount_install_spec(
    devs: Seq<BlockDevice>,
    to: Seq<char>,
    fstab: Seq<char>,
) -> Result<Seq<Seq<char>>, ErrorView> {
    match install_selection(devs, to) {
        None => Err(ErrorView::NoEligibleDeviceError),
        Some((name, already_mounted)) => {
            let mount_cmds = if already_mounted {
                Seq::<Seq<char>>::empty()
            } else {
                seq![mkfs_cmd_spec(name, "ext4"@), mkdir_cmd_spec(to), mount_cmd_spec(name, to)]
            };
            Ok(mount_cmds + fstab_plan_spec(name, to, "ext4"@, fstab))
        },
    }
}

/// Plans one mount install from the current disk listing and mount table.
/// The planned commands mutate the host; the listing and table reads do not.
pub fn on_install(devices: &LsBlkOutput, opt: &MountOptions, fstab: &str) -> (r: Result<
    Vec<String>,
    Error,
>)
    ensures
        r matches Ok(cmds) ==> (mount_install_spec(devices.blockdevices@, opt.to@, fstab@)
            matches Ok(s) && cmds.deep_view() == s),
        r matches Err(e) ==> (mount_install_spec(devices.blockdevices@, opt.to@, fstab@)
            matches Err(ev) && e@ == ev),
{
    let ghost devs = devices.blockdevices@;
    let mut cmds: Vec<String>;
    let name: String;
    match devices.get_mounted_to(opt.to.clone()) {
        Some(device) => {
            name = device.name.clone();
            cmds = Vec::new();
        },
        None => {
            match devices.get_biggest_unmounted() {
                Some(found) => {
                    proof {
                        let wi = choose|i: int|
                            is_biggest_pick(devs, i) && *found == devs[i];
                        let ci = choose|i: int| is_biggest_pick(devs, i);
                        lemma_biggest_pick_unique(devs, wi, ci);
                    }
                    name = found.name.clone();
                    cmds = mounting(name.as_str(), opt.to.as_str(), "ext4");
                },
                None => {
                    return Err(Error::NoEligibleDeviceError);
                },
            }
        },
    }
    let ghost head = cmds.deep_view();
    let mut extra = fstab_plan(name.as_str(), opt.to.as_str(), "ext4", fstab);
    let ghost tail = extra.deep_view();
    cmds.append(&mut extra);
    proof {
        assert(cmds.deep_view() =~= head + tail);
        assert(mount_install_spec(devs, opt.to@, fstab@) matches Ok(s) && cmds.deep_view() =~= s);
    }
    Ok(cmds)
}

/// Mount install is idempotent: when some device is already mounted at the
/// target path and its `/dev` path already stands in the persisted mount
/// table, a further install run plans zero mutating remote commands.
pub proof fn lemma_mount_install_idempotent(
    devs: Seq<BlockDevice>,
    to: Seq<char>,
    fstab: Seq<char>,
)
    requires
        mounted_at_index(devs, to) != -1,
        text::contains_seq(fstab, dev_path_spec(devs[mounted_at_index(devs, to)].name@)),
    ensures
        mount_install_spec(devs, to, fstab) matches Ok(cmds) && cmds.len() == 0,
{
    lemma_mounted_at_index(devs, to);
    let name = devs[mounted_at_index(devs, to)].name@;
    assert(Seq::<Seq<char>>::empty() + fstab_plan_spec(name, to, "ext4"@, fstab)
        =~= Seq::<Seq<char>>::empty());
}

/// What one mount check reports: two facts — whether the path is mounted
/// to some device, and whether that device (or the one that would be
/// selected) stands in the persisted mount table — and outright failure
/// when neither a mounted nor an eligible device exists.  An unmounted
/// path is a gap, so the check is satisfied only once the mount exists
/// and is persisted.
pub open spec fn mount_check_spec(
    devs: Seq<BlockDevice>,
    to: Seq<char>,
    fstab: Seq<char>,
) -> StatusView {
    let mi = mounted_at_index(devs, to);
    if mi != -1 {
        let dev = dev_path_spec(devs[mi].name@);
        let used = "folder "@ + to + " is used by "@ + devs[mi].name@;
        if text::contains_seq(fstab, dev) {
            status_new_spec(seq![used, "device "@ + dev + " is in fstab"@], Seq::empty())
        } else {
            status_new_spec(seq![used], seq!["device "@ + dev + " is not in fstab"@])
        }
    } else if exists|i: int| is_biggest_pick(devs, i) {
        let dev = dev_path_spec(devs[choose|i: int| is_biggest_pick(devs, i)].name@);
        let unmounted = "folder "@ + to + " is not mounted"@;
        if text::contains_seq(fstab, dev) {
            status_new_spec(
                seq!["device "@ + dev + " is in fstab"@],
                seq![unmounted],
            )
        } else {
            status_new_spec(
                Seq::empty(),
                seq![unmounted, "device "@ + dev + " is not in fstab"@],
            )
        }
    } else {
        StatusView::NotInstalled {
            success: Seq::empty(),
            fail: seq!["failed to find target block device"@],
        }
    }
}

/// A satisfied mount check certifies a no-op install: when the check
/// reports no gaps, some device is mounted at the target path and already
/// stands in the persisted mount table, so a further install run plans
/// zero mutating remote commands.
pub proof fn lemma_mount_check_satisfied_install_empty(
    devs: Seq<BlockDevice>,
    to: Seq<char>,
    fstab: Seq<char>,
)
    requires
        mount_check_spec(devs, to, fstab) matches StatusView::Installed { .. },
    ensures
        mount_install_spec(devs, to, fstab) matches Ok(cmds) && cmds.len() == 0,
{
    assert(mounted_at_index(devs, to) != -1);
    lemma_mount_install_idempotent(devs, to, fstab);
}

/// Re-derives the install selection without mutating anything and reports
/// the two facts of the check contract: the path's mount state and the
/// device's presence in the persisted mount table.
pub fn on_check(devices: &LsBlkOutput, opt: &MountOptions, fstab: &str) -> (r: Status)
    ensures
        r@ == mount_check_spec(devices.blockdevices@, opt.to@, fstab@),
{
    let ghost devs = devices.blockdevices@;
    let mut success: Vec<String> = Vec::new();
    let mut fail: Vec<String> = Vec::new();
    let name: String;
    match devices.get_mounted_to(opt.to.clone()) {
        Some(device) => {
            let mut used = "folder ".to_owned();
            used.append(opt.to.as_str());
            used.append(" is used by ");
            used.append(device.name.as_str());
            success.push(used);
            name = device.name.clone();
        },
        None => {
            match devices.get_biggest_unmounted() {
                Some(found) => {
                    proof {
                        let wi = choose|i: int|
                            is_biggest_pick(devs, i) && *found == devs[i];
                        let ci = choose|i: int| is_biggest_pick(devs, i);
                        lemma_biggest_pick_unique(devs, wi, ci);
                    }
                    let mut unmounted = "folder ".to_owned();
                    unmounted.append(opt.to.as_str());
                    unmounted.append(" is not mounted");
                    fail.push(unmounted);
                    name = found.name.clone();
                },
                None => {
                    fail.push("failed to find target block device".to_owned());
                    let r = Status::NotInstalled { success, fail };
                    proof {
                        assert(r@->NotInstalled_success =~= Seq::<Seq<char>>::empty());
                        assert(r@->NotInstalled_fail =~= seq![
                            "failed to find target block device"@,
                        ]);
                    }
                    return r;
                },
            }
        },
    }
    let dev = dev_path(name.as_str());
    if text::contains_str(fstab, dev.as_str()) {
        let mut ev = "device ".to_owned();
        ev.append(dev.as_str());
        ev.append(" is in fstab");
        success.push(ev);
    } else {
        let mut gap = "device ".to_owned();
        gap.append(dev.as_str());
        gap.append(" is not in fstab");
        fail.push(gap);
    }
    let ghost s = success.deep_view();
    let ghost f = fail.deep_view();
    let r = Status::new(success, fail);
    proof {
        let mi = mounted_at_index(devs, opt.to@);
        if mi != -1 {
            let devp = dev_path_spec(devs[mi].name@);
            let used = "folder "@ + opt.to@ + " is used by "@ + devs[mi].name@;
            if text::contains_seq(fstab@, devp) {
                assert(s =~= seq![used, "device "@ + devp + " is in fstab"@]);
                assert(f =~= Seq::<Seq<char>>::empty());
            } else {
                assert(s =~= seq![used]);
                assert(f =~= seq!["device "@ + devp + " is not in fstab"@]);
            }
        } else {
            let devp = dev_path_spec(devs[choose|i: int| is_biggest_pick(devs, i)].name@);
            let unmounted = "folder "@ + opt.to@ + " is not mounted"@;
            if text::contains_seq(fstab@, devp) {
                assert(s =~= seq!["device "@ + devp + " is in fstab"@]);
                assert(f =~= seq![unmounted]);
            } else {
                assert(s =~= Seq::<Seq<char>>::empty());
                assert(f =~= seq![unmounted, "device "@ + devp + " is not in fstab"@]);
            }
        }
    }
    r
}

} // verus!
