use pop_core::cache::{BuildOutcome, DirModel};
use pop_core::commands::{
    apt_container_args, cp_archive_args, fallocate_args, findmnt_args, image_container_args,
    losetup_attach_args, losetup_detach_args, mkfs_btrfs_args, mkfs_fat_args, property_ro_args,
    run_container_args, set_default_args, set_default_build_args, sgdisk_args, snapshot_ro_args,
    subvol_create_args, subvol_delete_args, subvol_snapshot_args, subvolid_args,
};
use pop_core::error::ErrorKind;
use pop_core::pipeline::{
    all_packages, build_pipeline, cache_root, desktop_steps, image_container_steps,
    image_format_steps, image_promote_steps, image_start_steps, image_subvol_steps, layer_names,
    server_packages, server_steps, BuildStep, Resource,
};

fn strings(items: &[&str]) -> Vec<String> {
    items.iter().map(|s| s.to_string()).collect()
}

#[test]
fn btrfs_command_lines() {
    assert_eq!(
        subvolid_args("/"),
        strings(&["btrfs", "--quiet", "inspect-internal", "rootid", "/"])
    );
    assert_eq!(
        subvol_delete_args("/t/@root.new"),
        strings(&["btrfs", "--quiet", "subvolume", "delete", "/t/@root.new"])
    );
    assert_eq!(
        subvol_snapshot_args("/t/@root", "/t/@root.new"),
        strings(&["btrfs", "--quiet", "subvolume", "snapshot", "/t/@root", "/t/@root.new"])
    );
    assert_eq!(
        property_ro_args("/t/@root.new"),
        strings(&["btrfs", "--quiet", "property", "set", "-t", "subvol", "/t/@root.new", "ro", "true"])
    );
    assert_eq!(
        set_default_args("/t/@root"),
        strings(&["btrfs", "--quiet", "subvolume", "set-default", "/t/@root"])
    );
    assert_eq!(
        subvol_create_args("/m/@root"),
        strings(&["btrfs", "subvolume", "create", "/m/@root"])
    );
    assert_eq!(
        set_default_build_args("/m/@root"),
        strings(&["btrfs", "subvolume", "set-default", "/m/@root"])
    );
    assert_eq!(
        snapshot_ro_args("/m/@root", "/m/@root.old"),
        strings(&["btrfs", "subvolume", "snapshot", "-r", "/m/@root", "/m/@root.old"])
    );
}

#[test]
fn disk_tool_command_lines() {
    assert_eq!(
        findmnt_args("UUID", "/mnt"),
        strings(&["findmnt", "--noheadings", "--output", "UUID", "--mountpoint", "/mnt"])
    );
    assert_eq!(
        losetup_attach_args("image.raw"),
        strings(&["losetup", "--partscan", "--show", "--find", "image.raw"])
    );
    assert_eq!(
        losetup_detach_args("/dev/loop0"),
        strings(&["losetup", "--detach", "/dev/loop0"])
    );
    assert_eq!(
        cp_archive_args("a", "b"),
        strings(&["cp", "--archive", "--no-target-directory", "a", "b"])
    );
    assert_eq!(
        fallocate_args("i.raw"),
        strings(&["fallocate", "--length", "32GiB", "--posix", "i.raw"])
    );
    assert_eq!(
        sgdisk_args("i.raw"),
        strings(&[
            "sgdisk",
            "--new=1:0:+512M",
            "--typecode=1:0xef00",
            "--new=2:0:0",
            "--typecode=2:0x8304",
            "i.raw",
        ])
    );
    assert_eq!(mkfs_fat_args("/dev/loop0p1"), strings(&["mkfs.fat", "-F", "32", "/dev/loop0p1"]));
    assert_eq!(mkfs_btrfs_args("/dev/loop0p2"), strings(&["mkfs.btrfs", "/dev/loop0p2"]));
}

#[test]
fn container_command_lines() {
    let args = run_container_args("/t/@root.new", "pop-os", "true", &strings(&["-v", "x"]));
    assert_eq!(
        args,
        strings(&[
            "systemd-nspawn",
            "--bind-ro=/home",
            "--bind-ro=/run/systemd/resolve/stub-resolv.conf",
            "--bind=/var",
            "--directory=/t/@root.new",
            "--link-journal=no",
            "--machine=pop-os",
            "--quiet",
            "--resolv-conf=off",
            "--timezone=off",
            "--",
            "true",
            "-v",
            "x",
        ])
    );
    let args = apt_container_args("/d", &strings(&["curl"]));
    assert_eq!(
        args,
        strings(&[
            "systemd-nspawn",
            "--machine=pop-core-install",
            "--resolv-conf=replace-host",
            "-D",
            "/d",
            "bash",
            "/apt.sh",
            "curl",
        ])
    );
    let args = image_container_args("/m/@root", "UUID-1", "PART-2");
    assert_eq!(
        args,
        strings(&[
            "systemd-nspawn",
            "--machine=pop-core-install",
            "-D",
            "/m/@root",
            "bash",
            "/image.sh",
            "UUID-1",
            "PART-2",
        ])
    );
}

#[test]
fn package_sets() {
    assert_eq!(
        server_packages(),
        strings(&[
            "binutils",
            "btrfs-progs",
            "kernelstub",
            "linux-system76",
            "network-manager",
            "pop-default-settings",
            "shim-signed",
            "systemd-container",
        ])
    );
    let all = all_packages();
    assert_eq!(all.len(), 18);
    assert_eq!(all[8], "alacritty");
    assert_eq!(all[17], "wireplumber");
}

#[test]
fn server_layer_steps() {
    let steps = server_steps("build/cache/debootstrap", "build/cache/server.partial");
    assert_eq!(steps.len(), 11);
    match &steps[0] {
        BuildStep::Run { argv } => assert_eq!(
            argv,
            &strings(&[
                "cp",
                "--archive",
                "--no-target-directory",
                "build/cache/debootstrap",
                "build/cache/server.partial",
            ])
        ),
        other => panic!("unexpected step {:?}", other),
    }
    match &steps[1] {
        BuildStep::WriteResource { path, resource } => {
            assert_eq!(path.as_str(), "build/cache/server.partial/etc/hostname");
            assert_eq!(*resource, Resource::Hostname);
        }
        other => panic!("unexpected step {:?}", other),
    }
    match &steps[6] {
        BuildStep::EnsureDir { path } => {
            assert_eq!(path.as_str(), "build/cache/server.partial/etc/kernelstub");
        }
        other => panic!("unexpected step {:?}", other),
    }
    match &steps[9] {
        BuildStep::Run { argv } => {
            assert_eq!(argv[0], "systemd-nspawn");
            assert_eq!(argv[2], "--resolv-conf=replace-host");
            assert_eq!(argv[7], "binutils");
        }
        other => panic!("unexpected step {:?}", other),
    }
    match &steps[10] {
        BuildStep::RemoveFile { path } => {
            assert_eq!(path.as_str(), "build/cache/server.partial/apt.sh");
        }
        other => panic!("unexpected step {:?}", other),
    }
}

#[test]
fn desktop_layer_steps() {
    let steps = desktop_steps("build/cache/server", "build/cache/desktop.partial");
    assert_eq!(steps.len(), 4);
    match &steps[2] {
        BuildStep::Run { argv } => {
            assert_eq!(argv.len(), 7 + 18);
            assert_eq!(argv[7 + 17], "wireplumber");
        }
        other => panic!("unexpected step {:?}", other),
    }
}

#[test]
fn image_layer_steps() {
    let start = image_start_steps("build/cache/image.partial");
    assert_eq!(start.len(), 3);
    match &start[1] {
        BuildStep::Run { argv } => {
            assert_eq!(argv[4], "build/cache/image.partial/image.raw");
        }
        other => panic!("unexpected step {:?}", other),
    }
    let format = image_format_steps("/dev/loop0p1", "/dev/loop0p2", "build/cache/image.partial/mount");
    assert_eq!(format.len(), 3);
    let subvols = image_subvol_steps("/m", "build/cache/desktop");
    assert_eq!(subvols.len(), 7);
    match &subvols[4] {
        BuildStep::Run { argv } => {
            assert_eq!(argv, &strings(&["btrfs", "subvolume", "set-default", "/m/@root"]))
        }
        other => panic!("unexpected step {:?}", other),
    }
    match &subvols[6] {
        BuildStep::EnsureDir { path } => assert_eq!(path.as_str(), "/m/@root/boot/efi"),
        other => panic!("unexpected step {:?}", other),
    }
    let container = image_container_steps("/m/@root", "U", "P");
    assert_eq!(container.len(), 4);
    match &container[0] {
        BuildStep::CopyFile { from, to } => {
            assert_eq!(from.as_str(), "target/release/pop-core");
            assert_eq!(to.as_str(), "/m/@root/usr/bin/pop-core");
        }
        other => panic!("unexpected step {:?}", other),
    }
    let promote = image_promote_steps("/m");
    assert_eq!(promote.len(), 8);
    match &promote[0] {
        BuildStep::RenamePath { from, to } => {
            assert_eq!(from.as_str(), "/m/@root/home");
            assert_eq!(to.as_str(), "/m/@home");
        }
        other => panic!("unexpected step {:?}", other),
    }
    match &promote[7] {
        BuildStep::Run { argv } => assert_eq!(
            argv,
            &strings(&["btrfs", "subvolume", "snapshot", "-r", "/m/@root", "/m/@root.original"])
        ),
        other => panic!("unexpected step {:?}", other),
    }
}

#[test]
fn pipeline_cold_build_builds_all_layers() {
    let mut dir = DirModel::empty();
    let rep = build_pipeline(
        &mut dir,
        BuildOutcome::Success,
        BuildOutcome::Success,
        BuildOutcome::Success,
        BuildOutcome::Success,
    )
    .unwrap();
    assert!(rep.debootstrap_rebuilt);
    assert!(rep.server_rebuilt);
    assert!(rep.desktop_rebuilt);
    assert!(rep.image_rebuilt);
    assert_eq!(rep.image_dir.as_str(), "build/cache/image");
    for layer in ["debootstrap", "server", "desktop", "image"] {
        assert!(dir.has(layer));
        assert!(!dir.has(&format!("{}.partial", layer)));
    }
}

#[test]
fn pipeline_warm_build_reuses_all_layers() {
    let mut dir = DirModel::empty();
    build_pipeline(
        &mut dir,
        BuildOutcome::Success,
        BuildOutcome::Success,
        BuildOutcome::Success,
        BuildOutcome::Success,
    )
    .unwrap();
    let rep = build_pipeline(
        &mut dir,
        BuildOutcome::Success,
        BuildOutcome::Success,
        BuildOutcome::Success,
        BuildOutcome::Success,
    )
    .unwrap();
    assert!(!rep.debootstrap_rebuilt);
    assert!(!rep.server_rebuilt);
    assert!(!rep.desktop_rebuilt);
    assert!(!rep.image_rebuilt);
}

#[test]
fn pipeline_cascades_from_a_deleted_layer() {
    // Deleting one mid-pipeline layer forces it and every later layer to
    // rebuild, while earlier layers are reused.
    let mut dir = DirModel::empty();
    build_pipeline(
        &mut dir,
        BuildOutcome::Success,
        BuildOutcome::Success,
        BuildOutcome::Success,
        BuildOutcome::Success,
    )
    .unwrap();
    dir.remove("server");
    let rep = build_pipeline(
        &mut dir,
        BuildOutcome::Success,
        BuildOutcome::Success,
        BuildOutcome::Success,
        BuildOutcome::Success,
    )
    .unwrap();
    assert!(!rep.debootstrap_rebuilt);
    assert!(rep.server_rebuilt);
    assert!(rep.desktop_rebuilt);
    assert!(rep.image_rebuilt);
}

#[test]
fn pipeline_stops_at_a_failing_layer() {
    let mut dir = DirModel::empty();
    let err = build_pipeline(
        &mut dir,
        BuildOutcome::Success,
        BuildOutcome::Success,
        BuildOutcome::Failure,
        BuildOutcome::Success,
    )
    .unwrap_err();
    assert_eq!(err.kind(), ErrorKind::Other);
    assert!(dir.has("debootstrap"));
    assert!(dir.has("server"));
    assert!(dir.has("desktop.partial"));
    assert!(!dir.has("desktop"));
    assert!(!dir.has("image"));
}

#[test]
fn pipeline_constants() {
    assert_eq!(cache_root(), "build/cache");
    assert_eq!(layer_names(), strings(&["debootstrap", "desktop", "image", "server"]));
}
