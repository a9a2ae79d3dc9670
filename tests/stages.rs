use emmc_provisioner::action::{Action, Planned, Step};
use emmc_provisioner::boot::{
    copy_boot_files, create_boot_symbolic_links, dtb_file_names, generate_boot_images, prepare_dtb_copy,
    umount_root_partition,
};
use emmc_provisioner::config::ProvisionConfig;
use emmc_provisioner::rootfs::{
    create_root_filesystem, get_kernel_release, install_extra_packages, install_kernel_modules,
    kernel_release_query, prepare_root_filesystem,
};
use emmc_provisioner::storage::{configure_storage, install_dependencies, root_partition_path};
use emmc_provisioner::system::{
    create_extlinux_configuration_file, hash_root_password, hosts_file_contents, set_fstab, set_hostname,
    set_hosts, set_root_password, set_sources_list, sources_list_contents,
};
use emmc_provisioner::text::strip_newlines;

fn run_of(p: &Planned) -> (String, Vec<String>) {
    match &p.action {
        Action::Run { program, args } => (program.clone(), args.clone()),
        other => panic!("not a run: {:?}", other),
    }
}

fn strings(v: &[&str]) -> Vec<String> {
    v.iter().map(|s| s.to_string()).collect()
}

#[test]
fn root_partition_of_mmcblk0() {
    assert_eq!(root_partition_path("/dev/mmcblk0"), "/dev/mmcblk0p1");
}

#[test]
fn hosts_file_for_board1() {
    assert_eq!(
        hosts_file_contents("board1"),
        "127.0.0.1 localhost.localdomain localhost\n::1 localhost.localdomain localhost\n127.0.1.1 board1.localdomain board1"
    );
}

#[test]
fn set_hosts_writes_etc_hosts() {
    let cfg = ProvisionConfig::standard();
    match set_hosts(&cfg, "board1").action {
        Action::WriteFile { path, contents } => {
            assert_eq!(path, "/mnt/rootfs/etc/hosts");
            assert_eq!(contents, hosts_file_contents("board1"));
        }
        other => panic!("{:?}", other),
    }
}

#[test]
fn set_hostname_writes_name_only() {
    let cfg = ProvisionConfig::standard();
    let p = set_hostname(&cfg, "board1");
    assert_eq!(p.step, Step::WriteHostname);
    match p.action {
        Action::WriteFile { path, contents } => {
            assert_eq!(path, "/mnt/rootfs/etc/hostname");
            assert_eq!(contents, "board1");
        }
        other => panic!("{:?}", other),
    }
}

#[test]
fn fstab_names_root_partition() {
    let cfg = ProvisionConfig::standard();
    match set_fstab(&cfg, "/dev/mmcblk0p1").action {
        Action::WriteFile { path, contents } => {
            assert_eq!(path, "/mnt/rootfs/etc/fstab");
            assert_eq!(contents, "/dev/mmcblk0p1\text4\tdefaults\t0\t0");
        }
        other => panic!("{:?}", other),
    }
}

#[test]
fn sources_list_lists_three_repositories() {
    let cfg = ProvisionConfig::standard();
    let expected = "deb http://debian.c3sl.ufpr.br/debian bookworm main non-free non-free-firmware\n\
deb-src http://debian.c3sl.ufpr.br/debian bookworm main non-free non-free-firmware\n\
\n\
deb http://debian.c3sl.ufpr.br/debian-security/ bookworm-security main non-free non-free-firmware\n\
deb-src http://debian.c3sl.ufpr.br/debian-security/ bookworm-security main non-free non-free-firmware\n\
\n\
deb http://debian.c3sl.ufpr.br/debian bookworm-updates main non-free non-free-firmware\n\
deb-src http://debian.c3sl.ufpr.br/debian bookworm-updates main non-free non-free-firmware\n";
    assert_eq!(sources_list_contents(&cfg), expected);
    match set_sources_list(&cfg).action {
        Action::WriteFile { path, contents } => {
            assert_eq!(path, "/mnt/rootfs/etc/apt/sources.list");
            assert_eq!(contents, expected);
        }
        other => panic!("{:?}", other),
    }
}

#[test]
fn extlinux_configuration() {
    let cfg = ProvisionConfig::standard();
    let plan = create_extlinux_configuration_file(&cfg, "/dev/mmcblk0p1");
    assert_eq!(plan.len(), 2);
    assert_eq!(run_of(&plan[0]), ("mkdir".to_string(), strings(&["-p", "/mnt/rootfs/boot/extlinux"])));
    match &plan[1].action {
        Action::WriteFile { path, contents } => {
            assert_eq!(path, "/mnt/rootfs/boot/extlinux/extlinux.conf");
            assert_eq!(
                contents,
                "LABEL Linux\n  LINUX ../zImage\n  INITRD ../initrd.img\n  FDT ../device_tree_binary.dtb\n  APPEND earlyprintk root=/dev/mmcblk0p1 rootwait rootfstype=ext4 init=/sbin/init loglevel=0\n"
            );
        }
        other => panic!("{:?}", other),
    }
}

#[test]
fn storage_commands_in_order() {
    let cfg = ProvisionConfig::standard();
    let plan = configure_storage(&cfg, "/dev/mmcblk0", "/dev/mmcblk0p1");
    let runs: Vec<(String, Vec<String>)> = plan.iter().map(run_of).collect();
    assert_eq!(
        runs,
        vec![
            ("parted".to_string(), strings(&["--script", "/dev/mmcblk0", "mklabel", "msdos"])),
            (
                "parted".to_string(),
                strings(&["--script", "/dev/mmcblk0", "mkpart", "primary", "ext4", "0%", "100%"])
            ),
            ("parted".to_string(), strings(&["--script", "/dev/mmcblk0", "set", "1", "boot", "on"])),
            ("mkfs.ext4".to_string(), strings(&["/dev/mmcblk0p1"])),
            ("mkdir".to_string(), strings(&["-p", "/mnt/rootfs"])),
            ("mount".to_string(), strings(&["/dev/mmcblk0p1", "/mnt/rootfs"])),
        ]
    );
    let steps: Vec<Step> = plan.iter().map(|p| p.step).collect();
    assert_eq!(
        steps,
        vec![
            Step::CreatePartitionTable,
            Step::CreatePartition,
            Step::SetBootFlag,
            Step::FormatPartition,
            Step::CreateMountPoint,
            Step::MountPartition
        ]
    );
}

#[test]
fn host_dependencies() {
    let cfg = ProvisionConfig::standard();
    let plan = install_dependencies(&cfg);
    assert_eq!(run_of(&plan[0]), ("apt".to_string(), strings(&["update"])));
    assert_eq!(
        run_of(&plan[1]),
        (
            "apt".to_string(),
            strings(&["install", "parted", "e2fsprogs", "debootstrap", "openssl", "build-essential", "-y"])
        )
    );
}

#[test]
fn bootstrap_and_modules() {
    let cfg = ProvisionConfig::standard();
    assert_eq!(
        run_of(&create_root_filesystem(&cfg)),
        (
            "debootstrap".to_string(),
            strings(&["--arch=armhf", "--foreign", "bookworm", "/mnt/rootfs", "http://deb.debian.org/debian"])
        )
    );
    assert_eq!(
        run_of(&prepare_root_filesystem(&cfg)),
        ("chroot".to_string(), strings(&["/mnt/rootfs", "/debootstrap/debootstrap", "--second-stage"]))
    );
    assert_eq!(
        run_of(&install_kernel_modules(&cfg, "/src/linux")),
        (
            "make".to_string(),
            strings(&["-C", "/src/linux", "INSTALL_MOD_PATH=/mnt/rootfs", "modules_install"])
        )
    );
}

#[test]
fn extra_packages_inside_new_system() {
    let cfg = ProvisionConfig::standard();
    let plan = install_extra_packages(&cfg);
    assert_eq!(plan.len(), 2);
    assert_eq!(run_of(&plan[0]), ("chroot".to_string(), strings(&["/mnt/rootfs", "/bin/apt", "update"])));
    let (program, args) = run_of(&plan[1]);
    assert_eq!(program, "chroot");
    assert_eq!(&args[..3], &strings(&["/mnt/rootfs", "/bin/apt", "install"])[..]);
    assert_eq!(args.last().unwrap(), "-y");
    assert_eq!(args.len(), 3 + cfg.target_packages.len() + 1);
    assert!(args.contains(&"openssh-server".to_string()));
}

#[test]
fn kernel_release_query_and_parse() {
    assert_eq!(
        run_of(&kernel_release_query("/src/linux")),
        ("make".to_string(), strings(&["-s", "-C", "/src/linux", "kernelrelease"]))
    );
    assert_eq!(get_kernel_release("6.1.57\n"), "6.1.57");
    assert_eq!(get_kernel_release("6.1.57"), "6.1.57");
    assert_eq!(get_kernel_release(""), "");
}

#[test]
fn strip_newlines_removes_every_line_feed() {
    assert_eq!(strip_newlines("a\nb\n\nc\n"), "abc");
    assert_eq!(strip_newlines("\n"), "");
    assert_eq!(strip_newlines("$1$xy$z\r\n"), "$1$xy$z\r");
}

#[test]
fn root_password_hash_then_usermod() {
    let cfg = ProvisionConfig::standard();
    assert_eq!(
        run_of(&hash_root_password("secret")),
        ("openssl".to_string(), strings(&["passwd", "-1", "secret"]))
    );
    assert_eq!(
        run_of(&set_root_password(&cfg, "$1$salt$hash")),
        (
            "chroot".to_string(),
            strings(&["/mnt/rootfs", "/usr/sbin/usermod", "-p", "$1$salt$hash", "root"])
        )
    );
}

#[test]
fn dtb_names_are_filtered_by_extension() {
    let entries = strings(&["rk322x-box.dtb", ".dtb", "Makefile", "rk322x.dtsi", "x.dtbo", "a.dtb", "dtb"]);
    assert_eq!(dtb_file_names(&entries), strings(&["rk322x-box.dtb", "a.dtb"]));
    assert_eq!(dtb_file_names(&Vec::new()), Vec::<String>::new());
}

#[test]
fn dtb_copy_preparation() {
    let cfg = ProvisionConfig::standard();
    let plan = prepare_dtb_copy(&cfg, "/src/linux", "6.1.57");
    match &plan[0].action {
        Action::CreateDirAll { path } => assert_eq!(path, "/mnt/rootfs/boot/dtb-6.1.57"),
        other => panic!("{:?}", other),
    }
    match &plan[1].action {
        Action::ListDir { path } => assert_eq!(path, "/src/linux/arch/arm/boot/dts"),
        other => panic!("{:?}", other),
    }
}

#[test]
fn boot_files_copied_under_release_names() {
    let cfg = ProvisionConfig::standard();
    let plan = copy_boot_files(&cfg, "/src/linux", "6.1.57", &strings(&["a.dtb", "b.dtb"]));
    let copies: Vec<(String, String)> = plan
        .iter()
        .map(|p| match &p.action {
            Action::CopyFile { from, to } => (from.clone(), to.clone()),
            other => panic!("{:?}", other),
        })
        .collect();
    let pair = |a: &str, b: &str| (a.to_string(), b.to_string());
    assert_eq!(
        copies,
        vec![
            pair("/src/linux/arch/arm/boot/dts/a.dtb", "/mnt/rootfs/boot/dtb-6.1.57/a.dtb"),
            pair("/src/linux/arch/arm/boot/dts/b.dtb", "/mnt/rootfs/boot/dtb-6.1.57/b.dtb"),
            pair("/src/linux/arch/arm/boot/zImage", "/mnt/rootfs/boot/zImage-6.1.57"),
            pair("/src/linux/.config", "/mnt/rootfs/boot/config-6.1.57"),
            pair("/src/linux/System.map", "/mnt/rootfs/boot/System.map-6.1.57"),
        ]
    );
}

#[test]
fn boot_images_for_release() {
    let cfg = ProvisionConfig::standard();
    let plan = generate_boot_images(&cfg, "6.1.57");
    assert_eq!(
        run_of(&plan[0]),
        (
            "mkimage".to_string(),
            strings(&[
                "-A", "arm", "-O", "linux", "-T", "kernel", "-C", "none", "-a", "0x600f0000", "-e",
                "0x600f0000", "-n", "6.1.57", "-d", "/mnt/rootfs/boot/zImage-6.1.57",
                "/mnt/rootfs/boot/uImage-6.1.57"
            ])
        )
    );
    assert_eq!(
        run_of(&plan[1]),
        (
            "chroot".to_string(),
            strings(&["/mnt/rootfs", "/sbin/update-initramfs", "-c", "-k", "6.1.57"])
        )
    );
    assert_eq!(
        run_of(&plan[2]),
        (
            "mkimage".to_string(),
            strings(&[
                "-A", "arm", "-O", "linux", "-T", "ramdisk", "-a", "0x0", "-e", "0x0", "-n",
                "initrd.img-6.1.57", "-d", "/mnt/rootfs/boot/initrd.img-6.1.57",
                "/mnt/rootfs/boot/uInitrd-6.1.57"
            ])
        )
    );
}

#[test]
fn boot_links_point_at_release_files() {
    let cfg = ProvisionConfig::standard();
    let plan = create_boot_symbolic_links(&cfg, "6.1.57", "rk322x-box.dtb");
    let link = |t: &str, l: &str| ("chroot".to_string(), strings(&["/mnt/rootfs", "/bin/ln", "-s", t, l]));
    let runs: Vec<(String, Vec<String>)> = plan.iter().map(run_of).collect();
    assert_eq!(
        runs,
        vec![
            link("/boot/zImage-6.1.57", "/boot/zImage"),
            link("/boot/initrd.img-6.1.57", "/boot/initrd.img"),
            link("/boot/dtb-6.1.57", "/boot/dtb"),
            link("/boot/dtb/rk322x-box.dtb", "/boot/device_tree_binary.dtb"),
        ]
    );
}

#[test]
fn unmount_root() {
    let cfg = ProvisionConfig::standard();
    assert_eq!(run_of(&umount_root_partition(&cfg)), ("umount".to_string(), strings(&["/mnt/rootfs"])));
}
