//! The boot artifact stage: device tree blobs, kernel image, configuration
//! and symbol map under release-qualified names, the U-Boot images, and the
//! generic links the boot loader follows.

use vstd::prelude::*;
use crate::action::{run_step, 
    add_arg, add_planned, empty_plan, no_args, plan_views, run, views, Action, ActionView, Planned,
    PlannedView, Step,
};
use crate::config::ProvisionConfig;
use crate::text::cat;

verus! {

/// The file `<stem>-<release>` in the new system's `/boot`, seen from the host.
pub open spec fn release_file(cfg: ProvisionConfig, stem: Seq<char>, release: Seq<char>) -> Seq<char> {
    cfg.mount_point@ + "/boot/"@ + stem + "-"@ + release
}

pub fn release_file_path(cfg: &ProvisionConfig, stem: &str, release: &str) -> (r: String)
    ensures
        r@ == release_file(*cfg, stem@, release@),
{
    let mut path = cat(cfg.mount_point.as_str(), "/boot/");
    path.append(stem);
    path.append("-");
    path.append(release);
    path
}

/// The directory of the kernel tree at `kernel` that holds the built device
/// tree blobs.
pub open spec fn dtb_source_dir(kernel: Seq<char>) -> Seq<char> {
    kernel + "/arch/arm/boot/dts"@
}

/// The directory the device tree blobs of `release` are copied to.
pub open spec fn dtb_dir(cfg: ProvisionConfig, release: Seq<char>) -> Seq<char> {
    release_file(cfg, "dtb"@, release)
}

/// A file name with the extension `dtb`: it ends in `.dtb`, with at least
/// one character before the dot.
pub open spec fn is_dtb_name(name: Seq<char>) -> bool {
    let n = name.len();
    n > 4 && name[n - 4] == '.' && name[n - 3] == 'd' && name[n - 2] == 't' && name[n - 1] == 'b'
}

/// The names among `entries` that are device tree blobs, in order.
pub open spec fn dtb_names(entries: Seq<Seq<char>>) -> Seq<Seq<char>>
    decreases entries.len(),
{
    if entries.len() == 0 {
        entries
    } else {
        let rest = dtb_names(entries.drop_last());
        if is_dtb_name(entries.last()) {
            rest.push(entries.last())
        } else {
            rest
        }
    }
}

fn is_dtb_file_name(name: &str) -> (r: bool)
    ensures
        r == is_dtb_name(name@),
{
    let n = name.unicode_len();
    n > 4 && name.get_char(n - 4) == '.' && name.get_char(n - 3) == 'd' && name.get_char(n - 2)
        == 't' && name.get_char(n - 1) == 'b'
}

/// Keeps the entries of a directory listing that are device tree blobs.
pub fn dtb_file_names(entries: &Vec<String>) -> (r: Vec<String>)
    ensures
        views(r@) == dtb_names(views(entries@)),
{
    let mut names: Vec<String> = Vec::new();
    let mut i: usize = 0;
    while i < entries.len()
        invariant
            i <= entries@.len(),
            views(names@) == dtb_names(views(entries@.subrange(0, i as int))),
        decreases entries@.len() - i,
    {
        let ghost before = names@;
        assert(views(entries@.subrange(0, i + 1)).drop_last() =~= views(
            entries@.subrange(0, i as int),
        ));
        assert(views(entries@.subrange(0, i + 1)).last() == entries@[i as int]@);
        if is_dtb_file_name(entries[i].as_str()) {
            names.push(entries[i].clone());
            assert(views(names@) =~= views(before).push(entries@[i as int]@));
        }
        i = i + 1;
    }
    assert(entries@.subrange(0, entries@.len() as int) =~= entries@);
    names
}

/// Creating the release's device tree directory, then listing the kernel's
/// built device tree blobs.
pub open spec fn dtb_prepare_steps(cfg: ProvisionConfig, kernel: Seq<char>, release: Seq<char>) -> Seq<
    PlannedView,
> {
    seq![
        PlannedView { step: Step::CreateDtbDir, action: ActionView::CreateDirAll { path: dtb_dir(cfg, release) } },
        PlannedView { step: Step::ListDtbSources, action: ActionView::ListDir { path: dtb_source_dir(kernel) } },
    ]
}

pub fn prepare_dtb_copy(cfg: &ProvisionConfig, kernel_path: &str, release: &str) -> (r: Vec<Planned>)
    ensures
        plan_views(r@) == dtb_prepare_steps(*cfg, kernel_path@, release@),
{
    let mut plan = empty_plan();
    add_planned(
        &mut plan,
        Step::CreateDtbDir,
        Action::CreateDirAll { path: release_file_path(cfg, "dtb", release) },
    );
    add_planned(
        &mut plan,
        Step::ListDtbSources,
        Action::ListDir { path: cat(kernel_path, "/arch/arm/boot/dts") },
    );
    assert(plan_views(plan@) =~= dtb_prepare_steps(*cfg, kernel_path@, release@));
    plan
}

/// Copying `from` to `to`, as planned for `step`.
pub open spec fn copy_step(step: Step, from: Seq<char>, to: Seq<char>) -> PlannedView {
    PlannedView { step, action: ActionView::CopyFile { from, to } }
}

/// Copying the device tree blob `name` into the release's directory.
pub open spec fn dtb_copy_step(cfg: ProvisionConfig, kernel: Seq<char>, release: Seq<char>, name: Seq<char>) -> PlannedView {
    copy_step(Step::CopyDtb, dtb_source_dir(kernel) + "/"@ + name, dtb_dir(cfg, release) + "/"@ + name)
}

/// Copying each of the device tree blobs `names`, then the kernel image,
/// its configuration and its symbol map under release-qualified names.
pub open spec fn boot_file_steps(
    cfg: ProvisionConfig,
    kernel: Seq<char>,
    release: Seq<char>,
    names: Seq<Seq<char>>,
) -> Seq<PlannedView> {
    names.map_values(|n: Seq<char>| dtb_copy_step(cfg, kernel, release, n)) + seq![
        copy_step(Step::CopyKernelImage, kernel + "/arch/arm/boot/zImage"@, release_file(cfg, "zImage"@, release)),
        copy_step(Step::CopyKernelConfig, kernel + "/.config"@, release_file(cfg, "config"@, release)),
        copy_step(Step::CopySystemMap, kernel + "/System.map"@, release_file(cfg, "System.map"@, release)),
    ]
}

pub fn copy_boot_files(cfg: &ProvisionConfig, kernel_path: &str, release: &str, dtb_names: &Vec<String>) -> (r: Vec<
    Planned,
>)
    ensures
        plan_views(r@) == boot_file_steps(*cfg, kernel_path@, release@, views(dtb_names@)),
{
    let ghost names = views(dtb_names@);
    let ghost copies = names.map_values(|n: Seq<char>| dtb_copy_step(*cfg, kernel_path@, release@, n));
    let source_dir = cat(kernel_path, "/arch/arm/boot/dts/");
    let target_dir = release_file_path(cfg, "dtb", release);
    let target_dir = cat(target_dir.as_str(), "/");
    let mut plan = empty_plan();
    let mut i: usize = 0;
    while i < dtb_names.len()
        invariant
            i <= dtb_names@.len(),
            names == views(dtb_names@),
            copies == names.map_values(|n: Seq<char>| dtb_copy_step(*cfg, kernel_path@, release@, n)),
            source_dir@ == kernel_path@ + "/arch/arm/boot/dts/"@,
            target_dir@ == dtb_dir(*cfg, release@) + "/"@,
            plan_views(plan@) == copies.take(i as int),
        decreases dtb_names@.len() - i,
    {
        let name = dtb_names[i].as_str();
        let from = cat(source_dir.as_str(), name);
        let to = cat(target_dir.as_str(), name);
        proof {
            reveal_strlit("/arch/arm/boot/dts/");
            reveal_strlit("/arch/arm/boot/dts");
            reveal_strlit("/");
            assert(from@ =~= dtb_source_dir(kernel_path@) + "/"@ + names[i as int]);
            assert(to@ =~= dtb_dir(*cfg, release@) + "/"@ + names[i as int]);
        }
        add_planned(&mut plan, Step::CopyDtb, Action::CopyFile { from, to });
        assert(copies.take(i + 1) =~= copies.take(i as int).push(copies[i as int]));
        i = i + 1;
    }
    assert(copies.take(dtb_names@.len() as int) =~= copies);

    add_planned(
        &mut plan,
        Step::CopyKernelImage,
        Action::CopyFile {
            from: cat(kernel_path, "/arch/arm/boot/zImage"),
            to: release_file_path(cfg, "zImage", release),
        },
    );
    add_planned(
        &mut plan,
        Step::CopyKernelConfig,
        Action::CopyFile {
            from: cat(kernel_path, "/.config"),
            to: release_file_path(cfg, "config", release),
        },
    );
    add_planned(
        &mut plan,
        Step::CopySystemMap,
        Action::CopyFile {
            from: cat(kernel_path, "/System.map"),
            to: release_file_path(cfg, "System.map", release),
        },
    );
    assert(plan_views(plan@) =~= boot_file_steps(*cfg, kernel_path@, release@, names));
    plan
}

/// The load and entry address of the kernel image.
pub const KERNEL_LOAD_ADDRESS: &'static str = "0x600f0000";

/// Wrapping the kernel image for U-Boot, generating the initramfs inside the
/// new system, and wrapping that for U-Boot, all for `release`.
pub open spec fn boot_image_steps(cfg: ProvisionConfig, release: Seq<char>) -> Seq<PlannedView> {
    seq![
        run_step(
            Step::MakeKernelImage,
            "mkimage"@,
            seq![
                "-A"@, "arm"@, "-O"@, "linux"@, "-T"@, "kernel"@, "-C"@, "none"@,
                "-a"@, KERNEL_LOAD_ADDRESS@, "-e"@, KERNEL_LOAD_ADDRESS@,
                "-n"@, release,
                "-d"@, release_file(cfg, "zImage"@, release), release_file(cfg, "uImage"@, release),
            ],
        ),
        run_step(
            Step::MakeInitramfs,
            "chroot"@,
            seq![cfg.mount_point@, "/sbin/update-initramfs"@, "-c"@, "-k"@, release],
        ),
        run_step(
            Step::MakeRamdiskImage,
            "mkimage"@,
            seq![
                "-A"@, "arm"@, "-O"@, "linux"@, "-T"@, "ramdisk"@,
                "-a"@, "0x0"@, "-e"@, "0x0"@,
                "-n"@, "initrd.img-"@ + release,
                "-d"@, release_file(cfg, "initrd.img"@, release), release_file(cfg, "uInitrd"@, release),
            ],
        ),
    ]
}

pub fn generate_boot_images(cfg: &ProvisionConfig, release: &str) -> (r: Vec<Planned>)
    ensures
        plan_views(r@) == boot_image_steps(*cfg, release@),
{
    let ghost st = boot_image_steps(*cfg, release@);
    let mut plan = empty_plan();

    let mut a = no_args();
    add_arg(&mut a, "-A");
    add_arg(&mut a, "arm");
    add_arg(&mut a, "-O");
    add_arg(&mut a, "linux");
    add_arg(&mut a, "-T");
    add_arg(&mut a, "kernel");
    add_arg(&mut a, "-C");
    add_arg(&mut a, "none");
    add_arg(&mut a, "-a");
    add_arg(&mut a, KERNEL_LOAD_ADDRESS);
    add_arg(&mut a, "-e");
    add_arg(&mut a, KERNEL_LOAD_ADDRESS);
    add_arg(&mut a, "-n");
    add_arg(&mut a, release);
    add_arg(&mut a, "-d");
    let image = release_file_path(cfg, "zImage", release);
    add_arg(&mut a, image.as_str());
    let uimage = release_file_path(cfg, "uImage", release);
    add_arg(&mut a, uimage.as_str());
    assert(views(a@) == seq![
        "-A"@, "arm"@, "-O"@, "linux"@, "-T"@, "kernel"@, "-C"@, "none"@,
        "-a"@, KERNEL_LOAD_ADDRESS@, "-e"@, KERNEL_LOAD_ADDRESS@,
        "-n"@, release@,
        "-d"@, release_file(*cfg, "zImage"@, release@), release_file(*cfg, "uImage"@, release@),
    ]);
    add_planned(&mut plan, Step::MakeKernelImage, run("mkimage", a));

    let mut a = no_args();
    add_arg(&mut a, cfg.mount_point.as_str());
    add_arg(&mut a, "/sbin/update-initramfs");
    add_arg(&mut a, "-c");
    add_arg(&mut a, "-k");
    add_arg(&mut a, release);
    assert(views(a@) == seq![cfg.mount_point@, "/sbin/update-initramfs"@, "-c"@, "-k"@, release@]);
    add_planned(&mut plan, Step::MakeInitramfs, run("chroot", a));

    let mut a = no_args();
    add_arg(&mut a, "-A");
    add_arg(&mut a, "arm");
    add_arg(&mut a, "-O");
    add_arg(&mut a, "linux");
    add_arg(&mut a, "-T");
    add_arg(&mut a, "ramdisk");
    add_arg(&mut a, "-a");
    add_arg(&mut a, "0x0");
    add_arg(&mut a, "-e");
    add_arg(&mut a, "0x0");
    add_arg(&mut a, "-n");
    let label = cat("initrd.img-", release);
    add_arg(&mut a, label.as_str());
    add_arg(&mut a, "-d");
    let initrd = release_file_path(cfg, "initrd.img", release);
    add_arg(&mut a, initrd.as_str());
    let uinitrd = release_file_path(cfg, "uInitrd", release);
    add_arg(&mut a, uinitrd.as_str());
    assert(views(a@) == seq![
        "-A"@, "arm"@, "-O"@, "linux"@, "-T"@, "ramdisk"@,
        "-a"@, "0x0"@, "-e"@, "0x0"@,
        "-n"@, "initrd.img-"@ + release@,
        "-d"@, release_file(*cfg, "initrd.img"@, release@), release_file(*cfg, "uInitrd"@, release@),
    ]);
    add_planned(&mut plan, Step::MakeRamdiskImage, run("mkimage", a));
    assert(plan_views(plan@) =~= st);
    plan
}

/// The path, inside the new system, of `<stem>-<release>` in `/boot`.
pub open spec fn boot_target(stem: Seq<char>, release: Seq<char>) -> Seq<char> {
    "/boot/"@ + stem + "-"@ + release
}

/// A symbolic link `link` to `target`, made inside the new system.
pub open spec fn link_step(cfg: ProvisionConfig, step: Step, target: Seq<char>, link: Seq<char>) -> PlannedView {
    run_step(step, "chroot"@, seq![cfg.mount_point@, "/bin/ln"@, "-s"@, target, link])
}

fn make_link(cfg: &ProvisionConfig, step: Step, target: &str, link: &str) -> (r: Planned)
    ensures
        r@ == link_step(*cfg, step, target@, link@),
{
    let mut a = no_args();
    add_arg(&mut a, cfg.mount_point.as_str());
    add_arg(&mut a, "/bin/ln");
    add_arg(&mut a, "-s");
    add_arg(&mut a, target);
    add_arg(&mut a, link);
    assert(views(a@) == seq![cfg.mount_point@, "/bin/ln"@, "-s"@, target@, link@]);
    Planned { step, action: run("chroot", a) }
}

fn boot_target_path(stem: &str, release: &str) -> (r: String)
    ensures
        r@ == boot_target(stem@, release@),
{
    let mut path = cat("/boot/", stem);
    path.append("-");
    path.append(release);
    path
}

/// The generic names the boot loader follows: the kernel image, the
/// initramfs and the device tree directory of `release`, and the blob
/// `dtb_file` in that directory.
pub open spec fn boot_link_steps(cfg: ProvisionConfig, release: Seq<char>, dtb_file: Seq<char>) -> Seq<PlannedView> {
    seq![
        link_step(cfg, Step::LinkKernelImage, boot_target("zImage"@, release), "/boot/zImage"@),
        link_step(cfg, Step::LinkInitramfs, boot_target("initrd.img"@, release), "/boot/initrd.img"@),
        link_step(cfg, Step::LinkDtbDir, boot_target("dtb"@, release), "/boot/dtb"@),
        link_step(cfg, Step::LinkDeviceTree, "/boot/dtb/"@ + dtb_file, "/boot/device_tree_binary.dtb"@),
    ]
}

pub fn create_boot_symbolic_links(cfg: &ProvisionConfig, release: &str, dtb_file: &str) -> (r: Vec<Planned>)
    ensures
        plan_views(r@) == boot_link_steps(*cfg, release@, dtb_file@),
{
    let mut plan = empty_plan();
    let p = make_link(cfg, Step::LinkKernelImage, boot_target_path("zImage", release).as_str(), "/boot/zImage");
    add_planned(&mut plan, p.step, p.action);
    let p = make_link(
        cfg,
        Step::LinkInitramfs,
        boot_target_path("initrd.img", release).as_str(),
        "/boot/initrd.img",
    );
    add_planned(&mut plan, p.step, p.action);
    let p = make_link(cfg, Step::LinkDtbDir, boot_target_path("dtb", release).as_str(), "/boot/dtb");
    add_planned(&mut plan, p.step, p.action);
    let p = make_link(
        cfg,
        Step::LinkDeviceTree,
        cat("/boot/dtb/", dtb_file).as_str(),
        "/boot/device_tree_binary.dtb",
    );
    add_planned(&mut plan, p.step, p.action);
    assert(plan_views(plan@) =~= boot_link_steps(*cfg, release@, dtb_file@));
    plan
}

/// Unmounting the root partition.
pub open spec fn unmount_step(cfg: ProvisionConfig) -> PlannedView {
    run_step(Step::Unmount, "umount"@, seq![cfg.mount_point@])
}

pub fn umount_root_partition(cfg: &ProvisionConfig) -> (r: Planned)
    ensures
        r@ == unmount_step(*cfg),
{
    let mut a = no_args();
    add_arg(&mut a, cfg.mount_point.as_str());
    assert(views(a@) == seq![cfg.mount_point@]);
    Planned { step: Step::Unmount, action: run("umount", a) }
}

} // verus!
