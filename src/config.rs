//! The choices that vary between installations: where the target is mounted,
//! how the device is laid out, which distribution is bootstrapped from where,
//! and which packages are installed.

use vstd::prelude::*;
use crate::action::views;

verus! {

pub struct ProvisionConfig {
    /// Where the root partition is mounted while it is provisioned.
    pub mount_point: String,
    /// The partition table label given to parted.
    pub partition_table: String,
    /// The root file system type.
    pub filesystem: String,
    /// The Debian architecture bootstrapped.
    pub architecture: String,
    /// The Debian suite bootstrapped.
    pub suite: String,
    /// The mirror the base system is bootstrapped from.
    pub bootstrap_mirror: String,
    /// The host of the mirror written into the target's apt sources.
    pub apt_mirror: String,
    /// The packages the host needs for provisioning.
    pub host_packages: Vec<String>,
    /// The packages installed into the target after bootstrapping.
    pub target_packages: Vec<String>,
}

fn owned(s: &str) -> (r: String)
    ensures
        r@ == s@,
{
    String::from_str(s)
}

impl ProvisionConfig {
    /// A Debian bookworm armhf system on one ext4 partition of an MBR table.
    pub fn standard() -> (r: ProvisionConfig)
        ensures
            r.mount_point@ == "/mnt/rootfs"@,
            r.partition_table@ == "msdos"@,
            r.filesystem@ == "ext4"@,
            r.architecture@ == "armhf"@,
            r.suite@ == "bookworm"@,
            r.bootstrap_mirror@ == "http://deb.debian.org/debian"@,
            r.apt_mirror@ == "http://debian.c3sl.ufpr.br"@,
            views(r.host_packages@) == seq![
                "parted"@,
                "e2fsprogs"@,
                "debootstrap"@,
                "openssl"@,
                "build-essential"@,
            ],
            views(r.target_packages@) == seq![
                "udev"@,
                "wget"@,
                "curl"@,
                "git"@,
                "ntpdate"@,
                "build-essential"@,
                "sudo"@,
                "iputils-ping"@,
                "network-manager"@,
                "openssh-server"@,
                "binutils"@,
                "dosfstools"@,
                "tar"@,
                "zip"@,
                "unzip"@,
                "wayland-utils"@,
                "xwayland"@,
                "mesa-utils"@,
                "pipewire"@,
                "pipewire-alsa"@,
                "pipewire-jack"@,
                "pipewire-pulse"@,
                "pipewire-media-session"@,
                "ffmpeg"@,
                "python3"@,
            ],
    {
        let host_packages = vec![
            owned("parted"),
            owned("e2fsprogs"),
            owned("debootstrap"),
            owned("openssl"),
            owned("build-essential"),
        ];
        let target_packages = vec![
            owned("udev"),
            owned("wget"),
            owned("curl"),
            owned("git"),
            owned("ntpdate"),
            owned("build-essential"),
            owned("sudo"),
            owned("iputils-ping"),
            owned("network-manager"),
            owned("openssh-server"),
            owned("binutils"),
            owned("dosfstools"),
            owned("tar"),
            owned("zip"),
            owned("unzip"),
            owned("wayland-utils"),
            owned("xwayland"),
            owned("mesa-utils"),
            owned("pipewire"),
            owned("pipewire-alsa"),
            owned("pipewire-jack"),
            owned("pipewire-pulse"),
            owned("pipewire-media-session"),
            owned("ffmpeg"),
            owned("python3"),
        ];
        assert(views(host_packages@) =~= seq![
            "parted"@,
            "e2fsprogs"@,
            "debootstrap"@,
            "openssl"@,
            "build-essential"@,
        ]);
        assert(views(target_packages@) =~= seq![
            "udev"@,
            "wget"@,
            "curl"@,
            "git"@,
            "ntpdate"@,
            "build-essential"@,
            "sudo"@,
            "iputils-ping"@,
            "network-manager"@,
            "openssh-server"@,
            "binutils"@,
            "dosfstools"@,
            "tar"@,
            "zip"@,
            "unzip"@,
            "wayland-utils"@,
            "xwayland"@,
            "mesa-utils"@,
            "pipewire"@,
            "pipewire-alsa"@,
            "pipewire-jack"@,
            "pipewire-pulse"@,
            "pipewire-media-session"@,
            "ffmpeg"@,
            "python3"@,
        ]);
        ProvisionConfig {
            mount_point: owned("/mnt/rootfs"),
            partition_table: owned("msdos"),
            filesystem: owned("ext4"),
            architecture: owned("armhf"),
            suite: owned("bookworm"),
            bootstrap_mirror: owned("http://deb.debian.org/debian"),
            apt_mirror: owned("http://debian.c3sl.ufpr.br"),
            host_packages,
            target_packages,
        }
    }
}

} // verus!
