//! Exact argument vectors for every external tool the system invokes.
//!
//! Each function materializes one invocation, program name first.  The
//! caller spawns the command and hands the exit status to
//! `status::check_status` (or `check_output` where stdout is captured).

use vstd::prelude::*;

use crate::text::str_concat;

verus! {

/// `btrfs --quiet inspect-internal rootid <path>`: the subvolume's rootid.
pub fn subvolid_args(path: &str) -> (r: Vec<String>)
    ensures
        r.deep_view() == seq!["btrfs"@, "--quiet"@, "inspect-internal"@, "rootid"@, path@],
{
    let mut out: Vec<String> = Vec::new();
    out.push("btrfs".to_owned());
    out.push("--quiet".to_owned());
    out.push("inspect-internal".to_owned());
    out.push("rootid".to_owned());
    out.push(path.to_owned());
    assert(out.deep_view() =~~= seq!["btrfs"@, "--quiet"@, "inspect-internal"@, "rootid"@, path@]);
    out
}

/// `btrfs --quiet subvolume delete <path>`.
pub fn subvol_delete_args(path: &str) -> (r: Vec<String>)
    ensures
        r.deep_view() == seq!["btrfs"@, "--quiet"@, "subvolume"@, "delete"@, path@],
{
    let mut out: Vec<String> = Vec::new();
    out.push("btrfs".to_owned());
    out.push("--quiet".to_owned());
    out.push("subvolume".to_owned());
    out.push("delete".to_owned());
    out.push(path.to_owned());
    assert(out.deep_view() =~~= seq!["btrfs"@, "--quiet"@, "subvolume"@, "delete"@, path@]);
    out
}

/// `btrfs --quiet subvolume snapshot <src> <dst>`: a writable snapshot.
pub fn subvol_snapshot_args(src: &str, dst: &str) -> (r: Vec<String>)
    ensures
        r.deep_view() == seq!["btrfs"@, "--quiet"@, "subvolume"@, "snapshot"@, src@, dst@],
{
    let mut out: Vec<String> = Vec::new();
    out.push("btrfs".to_owned());
    out.push("--quiet".to_owned());
    out.push("subvolume".to_owned());
    out.push("snapshot".to_owned());
    out.push(src.to_owned());
    out.push(dst.to_owned());
    assert(out.deep_view() =~~= seq!["btrfs"@, "--quiet"@, "subvolume"@, "snapshot"@, src@, dst@]);
    out
}

/// `btrfs --quiet property set -t subvol <path> ro true`: seals a
/// subvolume read-only.
pub fn property_ro_args(path: &str) -> (r: Vec<String>)
    ensures
        r.deep_view() == seq![
            "btrfs"@,
            "--quiet"@,
            "property"@,
            "set"@,
            "-t"@,
            "subvol"@,
            path@,
            "ro"@,
            "true"@,
        ],
{
    let mut out: Vec<String> = Vec::new();
    out.push("btrfs".to_owned());
    out.push("--quiet".to_owned());
    out.push("property".to_owned());
    out.push("set".to_owned());
    out.push("-t".to_owned());
    out.push("subvol".to_owned());
    out.push(path.to_owned());
    out.push("ro".to_owned());
    out.push("true".to_owned());
    assert(out.deep_view() =~~= seq![
        "btrfs"@,
        "--quiet"@,
        "property"@,
        "set"@,
        "-t"@,
        "subvol"@,
        path@,
        "ro"@,
        "true"@,
    ]);
    out
}

/// `btrfs --quiet subvolume set-default <path>`.
pub fn set_default_args(path: &str) -> (r: Vec<String>)
    ensures
        r.deep_view() == seq!["btrfs"@, "--quiet"@, "subvolume"@, "set-default"@, path@],
{
    let mut out: Vec<String> = Vec::new();
    out.push("btrfs".to_owned());
    out.push("--quiet".to_owned());
    out.push("subvolume".to_owned());
    out.push("set-default".to_owned());
    out.push(path.to_owned());
    assert(out.deep_view() =~~= seq!["btrfs"@, "--quiet"@, "subvolume"@, "set-default"@, path@]);
    out
}

/// `btrfs subvolume create <path>` (build path).
pub fn subvol_create_args(path: &str) -> (r: Vec<String>)
    ensures
        r.deep_view() == seq!["btrfs"@, "subvolume"@, "create"@, path@],
{
    let mut out: Vec<String> = Vec::new();
    out.push("btrfs".to_owned());
    out.push("subvolume".to_owned());
    out.push("create".to_owned());
    out.push(path.to_owned());
    assert(out.deep_view() =~~= seq!["btrfs"@, "subvolume"@, "create"@, path@]);
    out
}

/// `btrfs subvolume set-default <path>` (build path).
pub fn set_default_build_args(path: &str) -> (r: Vec<String>)
    ensures
        r.deep_view() == seq!["btrfs"@, "subvolume"@, "set-default"@, path@],
{
    let mut out: Vec<String> = Vec::new();
    out.push("btrfs".to_owned());
    out.push("subvolume".to_owned());
    out.push("set-default".to_owned());
    out.push(path.to_owned());
    assert(out.deep_view() =~~= seq!["btrfs"@, "subvolume"@, "set-default"@, path@]);
    out
}

/// `btrfs subvolume snapshot -r <src> <dst>`: a read-only snapshot
/// (build path).
pub fn snapshot_ro_args(src: &str, dst: &str) -> (r: Vec<String>)
    ensures
        r.deep_view() == seq!["btrfs"@, "subvolume"@, "snapshot"@, "-r"@, src@, dst@],
{
    let mut out: Vec<String> = Vec::new();
    out.push("btrfs".to_owned());
    out.push("subvolume".to_owned());
    out.push("snapshot".to_owned());
    out.push("-r".to_owned());
    out.push(src.to_owned());
    out.push(dst.to_owned());
    assert(out.deep_view() =~~= seq!["btrfs"@, "subvolume"@, "snapshot"@, "-r"@, src@, dst@]);
    out
}

/// `findmnt --noheadings --output <column> --mountpoint <path>`.
pub fn findmnt_args(column: &str, mountpoint: &str) -> (r: Vec<String>)
    ensures
        r.deep_view() == seq![
            "findmnt"@,
            "--noheadings"@,
            "--output"@,
            column@,
            "--mountpoint"@,
            mountpoint@,
        ],
{
    let mut out: Vec<String> = Vec::new();
    out.push("findmnt".to_owned());
    out.push("--noheadings".to_owned());
    out.push("--output".to_owned());
    out.push(column.to_owned());
    out.push("--mountpoint".to_owned());
    out.push(mountpoint.to_owned());
    assert(out.deep_view() =~~= seq![
        "findmnt"@,
        "--noheadings"@,
        "--output"@,
        column@,
        "--mountpoint"@,
        mountpoint@,
    ]);
    out
}

/// `losetup --partscan --show --find <file>`: attach a loop device with
/// partition scanning, printing the chosen device.
pub fn losetup_attach_args(file: &str) -> (r: Vec<String>)
    ensures
        r.deep_view() == seq!["losetup"@, "--partscan"@, "--show"@, "--find"@, file@],
{
    let mut out: Vec<String> = Vec::new();
    out.push("losetup".to_owned());
    out.push("--partscan".to_owned());
    out.push("--show".to_owned());
    out.push("--find".to_owned());
    out.push(file.to_owned());
    assert(out.deep_view() =~~= seq!["losetup"@, "--partscan"@, "--show"@, "--find"@, file@]);
    out
}

/// `losetup --detach <device>`.
pub fn losetup_detach_args(device: &str) -> (r: Vec<String>)
    ensures
        r.deep_view() == seq!["losetup"@, "--detach"@, device@],
{
    let mut out: Vec<String> = Vec::new();
    out.push("losetup".to_owned());
    out.push("--detach".to_owned());
    out.push(device.to_owned());
    assert(out.deep_view() =~~= seq!["losetup"@, "--detach"@, device@]);
    out
}

/// `cp --archive --no-target-directory <src> <dst>`: archive-copy a
/// layer, preserving all attributes.
pub fn cp_archive_args(src: &str, dst: &str) -> (r: Vec<String>)
    ensures
        r.deep_view() == seq!["cp"@, "--archive"@, "--no-target-directory"@, src@, dst@],
{
    let mut out: Vec<String> = Vec::new();
    out.push("cp".to_owned());
    out.push("--archive".to_owned());
    out.push("--no-target-directory".to_owned());
    out.push(src.to_owned());
    out.push(dst.to_owned());
    assert(out.deep_view() =~~= seq!["cp"@, "--archive"@, "--no-target-directory"@, src@, dst@]);
    out
}

/// `fallocate --length 32GiB --posix <file>`: the sparse image file.
pub fn fallocate_args(file: &str) -> (r: Vec<String>)
    ensures
        r.deep_view() == seq!["fallocate"@, "--length"@, "32GiB"@, "--posix"@, file@],
{
    let mut out: Vec<String> = Vec::new();
    out.push("fallocate".to_owned());
    out.push("--length".to_owned());
    out.push("32GiB".to_owned());
    out.push("--posix".to_owned());
    out.push(file.to_owned());
    assert(out.deep_view() =~~= seq!["fallocate"@, "--length"@, "32GiB"@, "--posix"@, file@]);
    out
}

/// `sgdisk` partitioning: partition 1 is a 512 MiB EFI System partition,
/// partition 2 the remaining space as a Linux x86-64 root.
pub fn sgdisk_args(file: &str) -> (r: Vec<String>)
    ensures
        r.deep_view() == seq![
            "sgdisk"@,
            "--new=1:0:+512M"@,
            "--typecode=1:0xef00"@,
            "--new=2:0:0"@,
            "--typecode=2:0x8304"@,
            file@,
        ],
{
    let mut out: Vec<String> = Vec::new();
    out.push("sgdisk".to_owned());
    out.push("--new=1:0:+512M".to_owned());
    out.push("--typecode=1:0xef00".to_owned());
    out.push("--new=2:0:0".to_owned());
    out.push("--typecode=2:0x8304".to_owned());
    out.push(file.to_owned());
    assert(out.deep_view() =~~= seq![
        "sgdisk"@,
        "--new=1:0:+512M"@,
        "--typecode=1:0xef00"@,
        "--new=2:0:0"@,
        "--typecode=2:0x8304"@,
        file@,
    ]);
    out
}

/// `mkfs.fat -F 32 <partition>`: the EFI system partition.
pub fn mkfs_fat_args(partition: &str) -> (r: Vec<String>)
    ensures
        r.deep_view() == seq!["mkfs.fat"@, "-F"@, "32"@, partition@],
{
    let mut out: Vec<String> = Vec::new();
    out.push("mkfs.fat".to_owned());
    out.push("-F".to_owned());
    out.push("32".to_owned());
    out.push(partition.to_owned());
    assert(out.deep_view() =~~= seq!["mkfs.fat"@, "-F"@, "32"@, partition@]);
    out
}

/// `mkfs.btrfs <partition>`: the root partition.
pub fn mkfs_btrfs_args(partition: &str) -> (r: Vec<String>)
    ensures
        r.deep_view() == seq!["mkfs.btrfs"@, partition@],
{
    let mut out: Vec<String> = Vec::new();
    out.push("mkfs.btrfs".to_owned());
    out.push(partition.to_owned());
    assert(out.deep_view() =~~= seq!["mkfs.btrfs"@, partition@]);
    out
}

/// The container invocation of the run path: the user command against the
/// writable clone, with the host's home read-only, resolv.conf and
/// timezone untouched, and no journal linkage.
pub fn run_container_args(
    root_new_dir: &str,
    hostname: &str,
    command: &str,
    args: &Vec<String>,
) -> (r: Vec<String>)
    ensures
        r.deep_view() == seq![
            "systemd-nspawn"@,
            "--bind-ro=/home"@,
            "--bind-ro=/run/systemd/resolve/stub-resolv.conf"@,
            "--bind=/var"@,
            "--directory="@ + root_new_dir@,
            "--link-journal=no"@,
            "--machine="@ + hostname@,
            "--quiet"@,
            "--resolv-conf=off"@,
            "--timezone=off"@,
            "--"@,
            command@,
        ] + args.deep_view(),
{
    let mut out: Vec<String> = Vec::new();
    out.push("systemd-nspawn".to_owned());
    out.push("--bind-ro=/home".to_owned());
    out.push("--bind-ro=/run/systemd/resolve/stub-resolv.conf".to_owned());
    out.push("--bind=/var".to_owned());
    out.push(str_concat("--directory=", root_new_dir));
    out.push("--link-journal=no".to_owned());
    out.push(str_concat("--machine=", hostname));
    out.push("--quiet".to_owned());
    out.push("--resolv-conf=off".to_owned());
    out.push("--timezone=off".to_owned());
    out.push("--".to_owned());
    out.push(command.to_owned());
    let mut i: usize = 0;
    let ghost head = seq![
        "systemd-nspawn"@,
        "--bind-ro=/home"@,
        "--bind-ro=/run/systemd/resolve/stub-resolv.conf"@,
        "--bind=/var"@,
        "--directory="@ + root_new_dir@,
        "--link-journal=no"@,
        "--machine="@ + hostname@,
        "--quiet"@,
        "--resolv-conf=off"@,
        "--timezone=off"@,
        "--"@,
        command@,
    ];
    proof {
        assert(out.deep_view() =~~= head);
    }
    while i < args.len()
        invariant
            0 <= i <= args@.len(),
            out.deep_view() =~~= head + args.deep_view().subrange(0, i as int),
        decreases args@.len() - i,
    {
        let a: &String = &args[i];
        let ghost pre = out.deep_view();
        out.push(a.clone());
        proof {
            assert(out.deep_view() =~~= pre.push(a@));
            assert(head + args.deep_view().subrange(0, i + 1) =~~= (head
                + args.deep_view().subrange(0, i as int)).push(args.deep_view()[i as int]));
        }
        i = i + 1;
    }
    proof {
        assert(args.deep_view().subrange(0, args@.len() as int) =~= args.deep_view());
        assert(out.deep_view() =~~= head + args.deep_view());
    }
    out
}

/// The container invocation of the server and desktop layers: the apt
/// script with the package set, with the host's resolv.conf for network
/// reachability.
pub fn apt_container_args(root_dir: &str, packages: &Vec<String>) -> (r: Vec<String>)
    ensures
        r.deep_view() == seq![
            "systemd-nspawn"@,
            "--machine=pop-core-install"@,
            "--resolv-conf=replace-host"@,
            "-D"@,
            root_dir@,
            "bash"@,
            "/apt.sh"@,
        ] + packages.deep_view(),
{
    let mut out: Vec<String> = Vec::new();
    out.push("systemd-nspawn".to_owned());
    out.push("--machine=pop-core-install".to_owned());
    out.push("--resolv-conf=replace-host".to_owned());
    out.push("-D".to_owned());
    out.push(root_dir.to_owned());
    out.push("bash".to_owned());
    out.push("/apt.sh".to_owned());
    let ghost head = seq![
        "systemd-nspawn"@,
        "--machine=pop-core-install"@,
        "--resolv-conf=replace-host"@,
        "-D"@,
        root_dir@,
        "bash"@,
        "/apt.sh"@,
    ];
    proof {
        assert(out.deep_view() =~~= head);
    }
    let mut i: usize = 0;
    while i < packages.len()
        invariant
            0 <= i <= packages@.len(),
            out.deep_view() =~~= head + packages.deep_view().subrange(0, i as int),
        decreases packages@.len() - i,
    {
        let p: &String = &packages[i];
        let ghost pre = out.deep_view();
        out.push(p.clone());
        proof {
            assert(out.deep_view() =~~= pre.push(p@));
            assert(head + packages.deep_view().subrange(0, i + 1) =~~= (head
                + packages.deep_view().subrange(0, i as int)).push(
                packages.deep_view()[i as int],
            ));
        }
        i = i + 1;
    }
    proof {
        assert(packages.deep_view().subrange(0, packages@.len() as int) =~= packages.deep_view());
        assert(out.deep_view() =~~= head + packages.deep_view());
    }
    out
}

/// The container invocation of the image layer: the bootloader script
/// with the root UUID and the EFI PARTUUID, no network replacement.
pub fn image_container_args(root_dir: &str, root_uuid: &str, efi_partuuid: &str) -> (r: Vec<
    String,
>)
    ensures
        r.deep_view() == seq![
            "systemd-nspawn"@,
            "--machine=pop-core-install"@,
            "-D"@,
            root_dir@,
            "bash"@,
            "/image.sh"@,
            root_uuid@,
            efi_partuuid@,
        ],
{
    let mut out: Vec<String> = Vec::new();
    out.push("systemd-nspawn".to_owned());
    out.push("--machine=pop-core-install".to_owned());
    out.push("-D".to_owned());
    out.push(root_dir.to_owned());
    out.push("bash".to_owned());
    out.push("/image.sh".to_owned());
    out.push(root_uuid.to_owned());
    out.push(efi_partuuid.to_owned());
    assert(out.deep_view() =~~= seq![
        "systemd-nspawn"@,
        "--machine=pop-core-install"@,
        "-D"@,
        root_dir@,
        "bash"@,
        "/image.sh"@,
        root_uuid@,
        efi_partuuid@,
    ]);
    out
}

} // verus!
