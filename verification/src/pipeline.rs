//! The image-build pipeline: four cache layers in sequence.
//!
//! `debootstrap` stages the base distribution; `server` copies it and
//! installs the server package set in a container; `desktop` copies that
//! and installs the desktop set; `image` lays the result onto a
//! GPT-partitioned Btrfs volume with the snapshot subvolume layout.
//!
//! Each layer's work is materialized here as an exact list of
//! [`BuildStep`]s over plain paths; the caller interprets the steps
//! against the real filesystem (writing the embedded resources, spawning
//! the listed commands) and supplies the mounts and loop device between
//! the phases of the image layer.  The skip-or-rebuild chaining itself is
//! `build_pipeline`, runnable against the directory model.

use vstd::prelude::*;

use crate::cache::{
    build, ends_with_partial, partial_name_of, purge, spec_rebuilds, BuildOutcome, Cache, DirModel,
};
use crate::commands::{
    apt_container_args, cp_archive_args, fallocate_args, image_container_args, mkfs_btrfs_args,
    mkfs_fat_args, set_default_build_args, sgdisk_args, snapshot_ro_args, subvol_create_args,
};
use crate::error::Error;
use crate::text::path_join;

verus! {

/// The blobs bound into the executable, written at precise paths under a
/// staged root.
#[derive(Clone, Copy, Debug, PartialEq, Eq, Structural)]
pub enum Resource {
    /// `/etc/hostname`.
    Hostname,
    /// `/etc/apt/sources.list`.
    SourcesList,
    /// `/etc/apt/sources.list.d/system.sources`.
    SystemSources,
    /// `/etc/apt/sources.list.d/pop-os-release.sources`.
    PopOsReleaseSources,
    /// `/etc/apt/trusted.gpg.d/pop-keyring-2017-archive.gpg`.
    PopKeyring,
    /// `/etc/kernelstub/configuration`.
    KernelstubConfiguration,
    /// The in-container package-install script.
    AptScript,
    /// The in-container bootloader-configuration script.
    ImageScript,
}

/// One step of a layer's build, over plain paths.
#[derive(Debug)]
pub enum BuildStep {
    /// Create a directory; it must not exist.
    MakeDir { path: String },
    /// Create a directory if it does not exist yet.
    EnsureDir { path: String },
    /// Write the embedded resource at the path.
    WriteResource { path: String, resource: Resource },
    /// Remove the file.
    RemoveFile { path: String },
    /// Copy a file.
    CopyFile { from: String, to: String },
    /// Rename a path.
    RenamePath { from: String, to: String },
    /// Spawn the command and require exit status 0.
    Run { argv: Vec<String> },
}

/// The mathematical shape of a build step.
#[verifier::ext_equal]
pub enum StepView {
    MakeDir(Seq<char>),
    EnsureDir(Seq<char>),
    WriteResource(Seq<char>, Resource),
    RemoveFile(Seq<char>),
    CopyFile(Seq<char>, Seq<char>),
    RenamePath(Seq<char>, Seq<char>),
    Run(Seq<Seq<char>>),
}

impl DeepView for BuildStep {
    type V = StepView;

    open spec fn deep_view(&self) -> StepView {
        match self {
            BuildStep::MakeDir { path } => StepView::MakeDir(path@),
            BuildStep::EnsureDir { path } => StepView::EnsureDir(path@),
            BuildStep::WriteResource { path, resource } => StepView::WriteResource(
                path@,
                *resource,
            ),
            BuildStep::RemoveFile { path } => StepView::RemoveFile(path@),
            BuildStep::CopyFile { from, to } => StepView::CopyFile(from@, to@),
            BuildStep::RenamePath { from, to } => StepView::RenamePath(from@, to@),
            BuildStep::Run { argv } => StepView::Run(argv.deep_view()),
        }
    }
}

/// A path under a directory.
pub open spec fn joined(dir: Seq<char>, rest: Seq<char>) -> Seq<char> {
    dir + seq!['/'] + rest
}

/// The server package set.
pub open spec fn spec_server_packages() -> Seq<Seq<char>> {
    seq![
        "binutils"@,
        "btrfs-progs"@,
        "kernelstub"@,
        "linux-system76"@,
        "network-manager"@,
        "pop-default-settings"@,
        "shim-signed"@,
        "systemd-container"@,
    ]
}

/// The additional desktop package set.
pub open spec fn spec_desktop_packages() -> Seq<Seq<char>> {
    seq![
        "alacritty"@,
        "cosmic-session"@,
        "flatpak"@,
        "libegl1"@,
        "libgl1-mesa-dri"@,
        "libglib2.0-bin"@,
        "pop-gtk-theme"@,
        "pop-icon-theme"@,
        "pop-wallpapers"@,
        "wireplumber"@,
    ]
}

/// The server package set.
pub fn server_packages() -> (r: Vec<String>)
    ensures
        r.deep_view() == spec_server_packages(),
{
    let mut out: Vec<String> = Vec::new();
    out.push("binutils".to_owned());
    out.push("btrfs-progs".to_owned());
    out.push("kernelstub".to_owned());
    out.push("linux-system76".to_owned());
    out.push("network-manager".to_owned());
    out.push("pop-default-settings".to_owned());
    out.push("shim-signed".to_owned());
    out.push("systemd-container".to_owned());
    assert(out.deep_view() =~~= spec_server_packages());
    out
}

/// The server and desktop package sets together, as handed to the
/// desktop layer's container.
pub fn all_packages() -> (r: Vec<String>)
    ensures
        r.deep_view() == spec_server_packages() + spec_desktop_packages(),
{
    let mut out = server_packages();
    out.push("alacritty".to_owned());
    out.push("cosmic-session".to_owned());
    out.push("flatpak".to_owned());
    out.push("libegl1".to_owned());
    out.push("libgl1-mesa-dri".to_owned());
    out.push("libglib2.0-bin".to_owned());
    out.push("pop-gtk-theme".to_owned());
    out.push("pop-icon-theme".to_owned());
    out.push("pop-wallpapers".to_owned());
    out.push("wireplumber".to_owned());
    assert(out.deep_view() =~~= spec_server_packages() + spec_desktop_packages());
    out
}

/// The steps of the server layer: archive-copy the staged base, write the
/// root configuration, install the server packages in a container, and
/// remove the staged script.
pub fn server_steps(debootstrap_dir: &str, dir: &str) -> (r: Vec<BuildStep>)
    ensures
        r.deep_view() == seq![
            StepView::Run(
                seq!["cp"@, "--archive"@, "--no-target-directory"@, debootstrap_dir@, dir@],
            ),
            StepView::WriteResource(joined(dir@, "etc/hostname"@), Resource::Hostname),
            StepView::WriteResource(joined(dir@, "etc/apt/sources.list"@), Resource::SourcesList),
            StepView::WriteResource(
                joined(dir@, "etc/apt/sources.list.d/system.sources"@),
                Resource::SystemSources,
            ),
            StepView::WriteResource(
                joined(dir@, "etc/apt/sources.list.d/pop-os-release.sources"@),
                Resource::PopOsReleaseSources,
            ),
            StepView::WriteResource(
                joined(dir@, "etc/apt/trusted.gpg.d/pop-keyring-2017-archive.gpg"@),
                Resource::PopKeyring,
            ),
            StepView::EnsureDir(joined(dir@, "etc/kernelstub"@)),
            StepView::WriteResource(
                joined(dir@, "etc/kernelstub/configuration"@),
                Resource::KernelstubConfiguration,
            ),
            StepView::WriteResource(joined(dir@, "apt.sh"@), Resource::AptScript),
            StepView::Run(
                seq![
                    "systemd-nspawn"@,
                    "--machine=pop-core-install"@,
                    "--resolv-conf=replace-host"@,
                    "-D"@,
                    dir@,
                    "bash"@,
                    "/apt.sh"@,
                ] + spec_server_packages(),
            ),
            StepView::RemoveFile(joined(dir@, "apt.sh"@)),
        ],
{
    let mut out: Vec<BuildStep> = Vec::new();
    out.push(BuildStep::Run { argv: cp_archive_args(debootstrap_dir, dir) });
    out.push(
        BuildStep::WriteResource {
            path: path_join(dir, "etc/hostname"),
            resource: Resource::Hostname,
        },
    );
    out.push(
        BuildStep::WriteResource {
            path: path_join(dir, "etc/apt/sources.list"),
            resource: Resource::SourcesList,
        },
    );
    out.push(
        BuildStep::WriteResource {
            path: path_join(dir, "etc/apt/sources.list.d/system.sources"),
            resource: Resource::SystemSources,
        },
    );
    out.push(
        BuildStep::WriteResource {
            path: path_join(dir, "etc/apt/sources.list.d/pop-os-release.sources"),
            resource: Resource::PopOsReleaseSources,
        },
    );
    out.push(
        BuildStep::WriteResource {
            path: path_join(dir, "etc/apt/trusted.gpg.d/pop-keyring-2017-archive.gpg"),
            resource: Resource::PopKeyring,
        },
    );
    out.push(BuildStep::EnsureDir { path: path_join(dir, "etc/kernelstub") });
    out.push(
        BuildStep::WriteResource {
            path: path_join(dir, "etc/kernelstub/configuration"),
            resource: Resource::KernelstubConfiguration,
        },
    );
    out.push(
        BuildStep::WriteResource { path: path_join(dir, "apt.sh"), resource: Resource::AptScript },
    );
    out.push(BuildStep::Run { argv: apt_container_args(dir, &server_packages()) });
    out.push(BuildStep::RemoveFile { path: path_join(dir, "apt.sh") });
    assert(out.deep_view() =~~= seq![
        StepView::Run(
            seq!["cp"@, "--archive"@, "--no-target-directory"@, debootstrap_dir@, dir@],
        ),
        StepView::WriteResource(joined(dir@, "etc/hostname"@), Resource::Hostname),
        StepView::WriteResource(joined(dir@, "etc/apt/sources.list"@), Resource::SourcesList),
        StepView::WriteResource(
            joined(dir@, "etc/apt/sources.list.d/system.sources"@),
            Resource::SystemSources,
        ),
        StepView::WriteResource(
            joined(dir@, "etc/apt/sources.list.d/pop-os-release.sources"@),
            Resource::PopOsReleaseSources,
        ),
        StepView::WriteResource(
            joined(dir@, "etc/apt/trusted.gpg.d/pop-keyring-2017-archive.gpg"@),
            Resource::PopKeyring,
        ),
        StepView::EnsureDir(joined(dir@, "etc/kernelstub"@)),
        StepView::WriteResource(
            joined(dir@, "etc/kernelstub/configuration"@),
            Resource::KernelstubConfiguration,
        ),
        StepView::WriteResource(joined(dir@, "apt.sh"@), Resource::AptScript),
        StepView::Run(
            seq![
                "systemd-nspawn"@,
                "--machine=pop-core-install"@,
                "--resolv-conf=replace-host"@,
                "-D"@,
                dir@,
                "bash"@,
                "/apt.sh"@,
            ] + spec_server_packages(),
        ),
        StepView::RemoveFile(joined(dir@, "apt.sh"@)),
    ]);
    out
}

/// The steps of the desktop layer: archive-copy the server layer, install
/// the combined package set in a container, and remove the staged script.
pub fn desktop_steps(server_dir: &str, dir: &str) -> (r: Vec<BuildStep>)
    ensures
        r.deep_view() == seq![
            StepView::Run(seq!["cp"@, "--archive"@, "--no-target-directory"@, server_dir@, dir@]),
            StepView::WriteResource(joined(dir@, "apt.sh"@), Resource::AptScript),
            StepView::Run(
                seq![
                    "systemd-nspawn"@,
                    "--machine=pop-core-install"@,
                    "--resolv-conf=replace-host"@,
                    "-D"@,
                    dir@,
                    "bash"@,
                    "/apt.sh"@,
                ] + spec_server_packages() + spec_desktop_packages(),
            ),
            StepView::RemoveFile(joined(dir@, "apt.sh"@)),
        ],
{
    let mut out: Vec<BuildStep> = Vec::new();
    out.push(BuildStep::Run { argv: cp_archive_args(server_dir, dir) });
    out.push(
        BuildStep::WriteResource { path: path_join(dir, "apt.sh"), resource: Resource::AptScript },
    );
    out.push(BuildStep::Run { argv: apt_container_args(dir, &all_packages()) });
    out.push(BuildStep::RemoveFile { path: path_join(dir, "apt.sh") });
    assert(out.deep_view() =~~= seq![
        StepView::Run(seq!["cp"@, "--archive"@, "--no-target-directory"@, server_dir@, dir@]),
        StepView::WriteResource(joined(dir@, "apt.sh"@), Resource::AptScript),
        StepView::Run(
            seq![
                "systemd-nspawn"@,
                "--machine=pop-core-install"@,
                "--resolv-conf=replace-host"@,
                "-D"@,
                dir@,
                "bash"@,
                "/apt.sh"@,
            ] + spec_server_packages() + spec_desktop_packages(),
        ),
        StepView::RemoveFile(joined(dir@, "apt.sh"@)),
    ]);
    out
}

/// The opening steps of the image layer: create the layer directory,
/// allocate the sparse image file, and partition it.
pub fn image_start_steps(dir: &str) -> (r: Vec<BuildStep>)
    ensures
        r.deep_view() == seq![
            StepView::MakeDir(dir@),
            StepView::Run(
                seq![
                    "fallocate"@,
                    "--length"@,
                    "32GiB"@,
                    "--posix"@,
                    joined(dir@, "image.raw"@),
                ],
            ),
            StepView::Run(
                seq![
                    "sgdisk"@,
                    "--new=1:0:+512M"@,
                    "--typecode=1:0xef00"@,
                    "--new=2:0:0"@,
                    "--typecode=2:0x8304"@,
                    joined(dir@, "image.raw"@),
                ],
            ),
        ],
{
    let image_file = path_join(dir, "image.raw");
    let mut out: Vec<BuildStep> = Vec::new();
    out.push(BuildStep::MakeDir { path: dir.to_owned() });
    out.push(BuildStep::Run { argv: fallocate_args(image_file.as_str()) });
    out.push(BuildStep::Run { argv: sgdisk_args(image_file.as_str()) });
    assert(out.deep_view() =~~= seq![
        StepView::MakeDir(dir@),
        StepView::Run(
            seq!["fallocate"@, "--length"@, "32GiB"@, "--posix"@, joined(dir@, "image.raw"@)],
        ),
        StepView::Run(
            seq![
                "sgdisk"@,
                "--new=1:0:+512M"@,
                "--typecode=1:0xef00"@,
                "--new=2:0:0"@,
                "--typecode=2:0x8304"@,
                joined(dir@, "image.raw"@),
            ],
        ),
    ]);
    out
}

/// The formatting steps, once the loop device is attached: the EFI
/// partition as FAT 32, the root partition as Btrfs, and the mount point.
pub fn image_format_steps(part1: &str, part2: &str, mount_dir: &str) -> (r: Vec<BuildStep>)
    ensures
        r.deep_view() == seq![
            StepView::Run(seq!["mkfs.fat"@, "-F"@, "32"@, part1@]),
            StepView::Run(seq!["mkfs.btrfs"@, part2@]),
            StepView::MakeDir(mount_dir@),
        ],
{
    let mut out: Vec<BuildStep> = Vec::new();
    out.push(BuildStep::Run { argv: mkfs_fat_args(part1) });
    out.push(BuildStep::Run { argv: mkfs_btrfs_args(part2) });
    out.push(BuildStep::MakeDir { path: mount_dir.to_owned() });
    assert(out.deep_view() =~~= seq![
        StepView::Run(seq!["mkfs.fat"@, "-F"@, "32"@, part1@]),
        StepView::Run(seq!["mkfs.btrfs"@, part2@]),
        StepView::MakeDir(mount_dir@),
    ]);
    out
}

/// The subvolume steps, once the Btrfs partition is mounted at the top
/// level: create `@root` and its nested `home`, `tmp` and `var`
/// subvolumes in order, set `@root` as the default, archive-copy the
/// desktop layer into it, and ensure the EFI mount point.
pub fn image_subvol_steps(mount_dir: &str, desktop_dir: &str) -> (r: Vec<BuildStep>)
    ensures
        r.deep_view() == seq![
            StepView::Run(
                seq!["btrfs"@, "subvolume"@, "create"@, joined(mount_dir@, "@root"@)],
            ),
            StepView::Run(
                seq!["btrfs"@, "subvolume"@, "create"@, joined(mount_dir@, "@root/home"@)],
            ),
            StepView::Run(
                seq!["btrfs"@, "subvolume"@, "create"@, joined(mount_dir@, "@root/tmp"@)],
            ),
            StepView::Run(
                seq!["btrfs"@, "subvolume"@, "create"@, joined(mount_dir@, "@root/var"@)],
            ),
            StepView::Run(
                seq!["btrfs"@, "subvolume"@, "set-default"@, joined(mount_dir@, "@root"@)],
            ),
            StepView::Run(
                seq![
                    "cp"@,
                    "--archive"@,
                    "--no-target-directory"@,
                    desktop_dir@,
                    joined(mount_dir@, "@root"@),
                ],
            ),
            StepView::EnsureDir(joined(joined(mount_dir@, "@root"@), "boot/efi"@)),
        ],
{
    let root_dir = path_join(mount_dir, "@root");
    let mut out: Vec<BuildStep> = Vec::new();
    out.push(BuildStep::Run { argv: subvol_create_args(root_dir.as_str()) });
    out.push(
        BuildStep::Run { argv: subvol_create_args(path_join(mount_dir, "@root/home").as_str()) },
    );
    out.push(
        BuildStep::Run { argv: subvol_create_args(path_join(mount_dir, "@root/tmp").as_str()) },
    );
    out.push(
        BuildStep::Run { argv: subvol_create_args(path_join(mount_dir, "@root/var").as_str()) },
    );
    out.push(BuildStep::Run { argv: set_default_build_args(root_dir.as_str()) });
    out.push(BuildStep::Run { argv: cp_archive_args(desktop_dir, root_dir.as_str()) });
    out.push(BuildStep::EnsureDir { path: path_join(root_dir.as_str(), "boot/efi") });
    assert(out.deep_view() =~~= seq![
        StepView::Run(seq!["btrfs"@, "subvolume"@, "create"@, joined(mount_dir@, "@root"@)]),
        StepView::Run(
            seq!["btrfs"@, "subvolume"@, "create"@, joined(mount_dir@, "@root/home"@)],
        ),
        StepView::Run(seq!["btrfs"@, "subvolume"@, "create"@, joined(mount_dir@, "@root/tmp"@)]),
        StepView::Run(seq!["btrfs"@, "subvolume"@, "create"@, joined(mount_dir@, "@root/var"@)]),
        StepView::Run(
            seq!["btrfs"@, "subvolume"@, "set-default"@, joined(mount_dir@, "@root"@)],
        ),
        StepView::Run(
            seq![
                "cp"@,
                "--archive"@,
                "--no-target-directory"@,
                desktop_dir@,
                joined(mount_dir@, "@root"@),
            ],
        ),
        StepView::EnsureDir(joined(joined(mount_dir@, "@root"@), "boot/efi"@)),
    ]);
    out
}

/// The in-container steps, with both mounts active and the UUIDs in hand:
/// place the runtime binary, stage and run the bootloader script with the
/// root UUID and the EFI PARTUUID, and remove the script.
pub fn image_container_steps(root_dir: &str, root_uuid: &str, efi_partuuid: &str) -> (r: Vec<
    BuildStep,
>)
    ensures
        r.deep_view() == seq![
            StepView::CopyFile(
                "target/release/pop-core"@,
                joined(root_dir@, "usr/bin/pop-core"@),
            ),
            StepView::WriteResource(joined(root_dir@, "image.sh"@), Resource::ImageScript),
            StepView::Run(
                seq![
                    "systemd-nspawn"@,
                    "--machine=pop-core-install"@,
                    "-D"@,
                    root_dir@,
                    "bash"@,
                    "/image.sh"@,
                    root_uuid@,
                    efi_partuuid@,
                ],
            ),
            StepView::RemoveFile(joined(root_dir@, "image.sh"@)),
        ],
{
    let mut out: Vec<BuildStep> = Vec::new();
    out.push(
        BuildStep::CopyFile {
            from: "target/release/pop-core".to_owned(),
            to: path_join(root_dir, "usr/bin/pop-core"),
        },
    );
    out.push(
        BuildStep::WriteResource {
            path: path_join(root_dir, "image.sh"),
            resource: Resource::ImageScript,
        },
    );
    out.push(BuildStep::Run { argv: image_container_args(root_dir, root_uuid, efi_partuuid) });
    out.push(BuildStep::RemoveFile { path: path_join(root_dir, "image.sh") });
    assert(out.deep_view() =~~= seq![
        StepView::CopyFile("target/release/pop-core"@, joined(root_dir@, "usr/bin/pop-core"@)),
        StepView::WriteResource(joined(root_dir@, "image.sh"@), Resource::ImageScript),
        StepView::Run(
            seq![
                "systemd-nspawn"@,
                "--machine=pop-core-install"@,
                "-D"@,
                root_dir@,
                "bash"@,
                "/image.sh"@,
                root_uuid@,
                efi_partuuid@,
            ],
        ),
        StepView::RemoveFile(joined(root_dir@, "image.sh"@)),
    ]);
    out
}

/// The closing steps, still mounted but outside the container: promote
/// `home`, `tmp` and `var` to top-level subvolumes by rename, recreate
/// the now-missing mount points as empty directories, and take the two
/// read-only snapshots of `@root`.
pub fn image_promote_steps(mount_dir: &str) -> (r: Vec<BuildStep>)
    ensures
        r.deep_view() == seq![
            StepView::RenamePath(joined(mount_dir@, "@root/home"@), joined(mount_dir@, "@home"@)),
            StepView::MakeDir(joined(mount_dir@, "@root/home"@)),
            StepView::RenamePath(joined(mount_dir@, "@root/tmp"@), joined(mount_dir@, "@tmp"@)),
            StepView::MakeDir(joined(mount_dir@, "@root/tmp"@)),
            StepView::RenamePath(joined(mount_dir@, "@root/var"@), joined(mount_dir@, "@var"@)),
            StepView::MakeDir(joined(mount_dir@, "@root/var"@)),
            StepView::Run(
                seq![
                    "btrfs"@,
                    "subvolume"@,
                    "snapshot"@,
                    "-r"@,
                    joined(mount_dir@, "@root"@),
                    joined(mount_dir@, "@root.old"@),
                ],
            ),
            StepView::Run(
                seq![
                    "btrfs"@,
                    "subvolume"@,
                    "snapshot"@,
                    "-r"@,
                    joined(mount_dir@, "@root"@),
                    joined(mount_dir@, "@root.original"@),
                ],
            ),
        ],
{
    let root_dir = path_join(mount_dir, "@root");
    let mut out: Vec<BuildStep> = Vec::new();
    out.push(
        BuildStep::RenamePath {
            from: path_join(mount_dir, "@root/home"),
            to: path_join(mount_dir, "@home"),
        },
    );
    out.push(BuildStep::MakeDir { path: path_join(mount_dir, "@root/home") });
    out.push(
        BuildStep::RenamePath {
            from: path_join(mount_dir, "@root/tmp"),
            to: path_join(mount_dir, "@tmp"),
        },
    );
    out.push(BuildStep::MakeDir { path: path_join(mount_dir, "@root/tmp") });
    out.push(
        BuildStep::RenamePath {
            from: path_join(mount_dir, "@root/var"),
            to: path_join(mount_dir, "@var"),
        },
    );
    out.push(BuildStep::MakeDir { path: path_join(mount_dir, "@root/var") });
    out.push(
        BuildStep::Run {
            argv: snapshot_ro_args(root_dir.as_str(), path_join(mount_dir, "@root.old").as_str()),
        },
    );
    out.push(
        BuildStep::Run {
            argv: snapshot_ro_args(
                root_dir.as_str(),
                path_join(mount_dir, "@root.original").as_str(),
            ),
        },
    );
    assert(out.deep_view() =~~= seq![
        StepView::RenamePath(joined(mount_dir@, "@root/home"@), joined(mount_dir@, "@home"@)),
        StepView::MakeDir(joined(mount_dir@, "@root/home"@)),
        StepView::RenamePath(joined(mount_dir@, "@root/tmp"@), joined(mount_dir@, "@tmp"@)),
        StepView::MakeDir(joined(mount_dir@, "@root/tmp"@)),
        StepView::RenamePath(joined(mount_dir@, "@root/var"@), joined(mount_dir@, "@var"@)),
        StepView::MakeDir(joined(mount_dir@, "@root/var"@)),
        StepView::Run(
            seq![
                "btrfs"@,
                "subvolume"@,
                "snapshot"@,
                "-r"@,
                joined(mount_dir@, "@root"@),
                joined(mount_dir@, "@root.old"@),
            ],
        ),
        StepView::Run(
            seq![
                "btrfs"@,
                "subvolume"@,
                "snapshot"@,
                "-r"@,
                joined(mount_dir@, "@root"@),
                joined(mount_dir@, "@root.original"@),
            ],
        ),
    ]);
    out
}

/// The cache root of the build pipeline.
pub fn cache_root() -> (r: &'static str)
    ensures
        r@ == "build/cache"@,
{
    "build/cache"
}

/// The accepted layer names.
pub fn layer_names() -> (r: Vec<String>)
    ensures
        r.deep_view() == seq!["debootstrap"@, "desktop"@, "image"@, "server"@],
{
    let mut out: Vec<String> = Vec::new();
    out.push("debootstrap".to_owned());
    out.push("desktop".to_owned());
    out.push("image".to_owned());
    out.push("server".to_owned());
    assert(out.deep_view() =~~= seq!["debootstrap"@, "desktop"@, "image"@, "server"@]);
    out
}

/// What each layer's build produced.
#[derive(Debug)]
pub struct PipelineReport {
    pub debootstrap_dir: String,
    pub debootstrap_rebuilt: bool,
    pub server_dir: String,
    pub server_rebuilt: bool,
    pub desktop_dir: String,
    pub desktop_rebuilt: bool,
    pub image_dir: String,
    pub image_rebuilt: bool,
}

/// Whether the whole pipeline succeeds, given which layers were present
/// beforehand and each layer's builder outcome: it stops at the first
/// layer that must rebuild and whose builder fails.
pub open spec fn pipeline_ok(
    had_debootstrap: bool,
    had_server: bool,
    had_desktop: bool,
    had_image: bool,
    debootstrap_o: BuildOutcome,
    server_o: BuildOutcome,
    desktop_o: BuildOutcome,
    image_o: BuildOutcome,
) -> bool {
    let rb_debootstrap = !had_debootstrap;
    let rb_server = rb_debootstrap || !had_server;
    let rb_desktop = rb_server || !had_desktop;
    let rb_image = rb_desktop || !had_image;
    &&& (rb_debootstrap ==> debootstrap_o == BuildOutcome::Success)
    &&& (rb_server ==> server_o == BuildOutcome::Success)
    &&& (rb_desktop ==> desktop_o == BuildOutcome::Success)
    &&& (rb_image ==> image_o == BuildOutcome::Success)
}

/// The four-layer pipeline over the directory model: purge the cache
/// root, then build `debootstrap`, `server`, `desktop` and `image` in
/// order, chaining each layer's rebuilt flag into the next.
///
/// The rebuilt cascade is monotone: once a layer rebuilds, every later
/// layer's flag is true and it rebuilds unconditionally.  On success all
/// four layers are published and no partial directory of theirs remains.
pub fn build_pipeline(
    dir: &mut DirModel,
    debootstrap_o: BuildOutcome,
    server_o: BuildOutcome,
    desktop_o: BuildOutcome,
    image_o: BuildOutcome,
) -> (r: Result<PipelineReport, Error>)
    ensures
        r is Ok <==> pipeline_ok(
            old(dir).has_name("debootstrap"@),
            old(dir).has_name("server"@),
            old(dir).has_name("desktop"@),
            old(dir).has_name("image"@),
            debootstrap_o,
            server_o,
            desktop_o,
            image_o,
        ),
        r matches Ok(rep) ==> {
            &&& rep.debootstrap_rebuilt == !old(dir).has_name("debootstrap"@)
            &&& rep.server_rebuilt == (rep.debootstrap_rebuilt || !old(dir).has_name("server"@))
            &&& rep.desktop_rebuilt == (rep.server_rebuilt || !old(dir).has_name("desktop"@))
            &&& rep.image_rebuilt == (rep.desktop_rebuilt || !old(dir).has_name("image"@))
            &&& (rep.debootstrap_rebuilt ==> rep.server_rebuilt && rep.desktop_rebuilt
                && rep.image_rebuilt)
            &&& (rep.server_rebuilt ==> rep.desktop_rebuilt && rep.image_rebuilt)
            &&& (rep.desktop_rebuilt ==> rep.image_rebuilt)
            &&& rep.debootstrap_dir@ == joined("build/cache"@, "debootstrap"@)
            &&& rep.server_dir@ == joined("build/cache"@, "server"@)
            &&& rep.desktop_dir@ == joined("build/cache"@, "desktop"@)
            &&& rep.image_dir@ == joined("build/cache"@, "image"@)
            &&& final(dir).has_name("debootstrap"@)
            &&& final(dir).has_name("server"@)
            &&& final(dir).has_name("desktop"@)
            &&& final(dir).has_name("image"@)
            &&& !final(dir).has_name(partial_name_of("debootstrap"@))
            &&& !final(dir).has_name(partial_name_of("server"@))
            &&& !final(dir).has_name(partial_name_of("desktop"@))
            &&& !final(dir).has_name(partial_name_of("image"@))
        },
{
    proof {
        reveal_strlit("debootstrap");
        reveal_strlit("desktop");
        reveal_strlit("image");
        reveal_strlit("server");
        reveal_strlit(".partial");
        assert(!ends_with_partial("debootstrap"@)) by {
            assert("debootstrap"@.len() == 11);
            assert(".partial"@[0] == '.');
            assert("debootstrap"@[3] == 'o');
        }
        assert(!ends_with_partial("server"@));
        assert(!ends_with_partial("desktop"@));
        assert(!ends_with_partial("image"@));
        assert(ends_with_partial(partial_name_of("debootstrap"@))) by {
            let p = partial_name_of("debootstrap"@);
            assert(p.subrange(p.len() - 8, p.len() as int) =~= ".partial"@);
        }
        assert(ends_with_partial(partial_name_of("server"@))) by {
            let p = partial_name_of("server"@);
            assert(p.subrange(p.len() - 8, p.len() as int) =~= ".partial"@);
        }
        assert(ends_with_partial(partial_name_of("desktop"@))) by {
            let p = partial_name_of("desktop"@);
            assert(p.subrange(p.len() - 8, p.len() as int) =~= ".partial"@);
        }
        assert(ends_with_partial(partial_name_of("image"@))) by {
            let p = partial_name_of("image"@);
            assert(p.subrange(p.len() - 8, p.len() as int) =~= ".partial"@);
        }
    }
    let cache = Cache::new(cache_root(), layer_names());
    proof {
        assert(cache.accepts("debootstrap"@));
        assert(cache.accepts("server"@)) by {
            assert(cache.valid.deep_view()[3] == "server"@);
        }
        assert(cache.accepts("desktop"@)) by {
            assert(cache.valid.deep_view()[1] == "desktop"@);
        }
        assert(cache.accepts("image"@)) by {
            assert(cache.valid.deep_view()[2] == "image"@);
        }
    }
    let _removed = purge(&cache, dir);
    let (debootstrap_dir, debootstrap_rebuilt) = match build(
        &cache,
        dir,
        "debootstrap",
        false,
        debootstrap_o,
    ) {
        Ok(p) => p,
        Err(e) => {
            return Err(e);
        },
    };
    let (server_dir, server_rebuilt) = match build(
        &cache,
        dir,
        "server",
        debootstrap_rebuilt,
        server_o,
    ) {
        Ok(p) => p,
        Err(e) => {
            return Err(e);
        },
    };
    let (desktop_dir, desktop_rebuilt) = match build(
        &cache,
        dir,
        "desktop",
        server_rebuilt,
        desktop_o,
    ) {
        Ok(p) => p,
        Err(e) => {
            return Err(e);
        },
    };
    let (image_dir, image_rebuilt) = match build(&cache, dir, "image", desktop_rebuilt, image_o) {
        Ok(p) => p,
        Err(e) => {
            return Err(e);
        },
    };
    Ok(
        PipelineReport {
            debootstrap_dir,
            debootstrap_rebuilt,
            server_dir,
            server_rebuilt,
            desktop_dir,
            desktop_rebuilt,
            image_dir,
            image_rebuilt,
        },
    )
}

} // verus!
