//! The system identity stage: the boot loader configuration, the host name,
//! the hosts table, the file system table, the apt sources and the root
//! password of the new system.

use vstd::prelude::*;
use crate::action::{run_step, add_arg, add_planned, empty_plan, no_args, plan_views, run, views, Action, ActionView, Planned, PlannedView, Step};
use crate::config::ProvisionConfig;
use crate::text::cat;

verus! {

/// Writing `contents` to `path`, as planned for `step`.
pub open spec fn write_step(step: Step, path: Seq<char>, contents: Seq<char>) -> PlannedView {
    PlannedView { step, action: ActionView::WriteFile { path, contents } }
}

fn write_file(step: Step, path: String, contents: String) -> (r: Planned)
    ensures
        r@ == write_step(step, path@, contents@),
{
    Planned { step, action: Action::WriteFile { path, contents } }
}

/// The boot loader entry up to the kernel's root device.
pub const EXTLINUX_ENTRY: &'static str = "LABEL Linux\n  LINUX ../zImage\n  INITRD ../initrd.img\n  FDT ../device_tree_binary.dtb\n  APPEND earlyprintk root=";

/// The extlinux configuration: one entry that boots the generic kernel,
/// initramfs and device tree links with `partition` as the root.
pub open spec fn extlinux_text(cfg: ProvisionConfig, partition: Seq<char>) -> Seq<char> {
    EXTLINUX_ENTRY@ + partition + " rootwait rootfstype="@ + cfg.filesystem@
        + " init=/sbin/init loglevel=0\n"@
}

/// Creating `/boot/extlinux` in the new system, then writing its
/// configuration there.
pub open spec fn extlinux_steps(cfg: ProvisionConfig, partition: Seq<char>) -> Seq<PlannedView> {
    seq![
        run_step(Step::CreateExtlinuxDir, "mkdir"@, seq!["-p"@, cfg.mount_point@ + "/boot/extlinux"@]),
        write_step(
            Step::WriteExtlinuxConfig,
            cfg.mount_point@ + "/boot/extlinux/extlinux.conf"@,
            extlinux_text(cfg, partition),
        ),
    ]
}

pub fn create_extlinux_configuration_file(cfg: &ProvisionConfig, root_partition_path: &str) -> (r: Vec<Planned>)
    ensures
        plan_views(r@) == extlinux_steps(*cfg, root_partition_path@),
{
    let mut plan = empty_plan();
    let mut a = no_args();
    add_arg(&mut a, "-p");
    let dir = cat(cfg.mount_point.as_str(), "/boot/extlinux");
    add_arg(&mut a, dir.as_str());
    assert(views(a@) == seq!["-p"@, cfg.mount_point@ + "/boot/extlinux"@]);
    add_planned(&mut plan, Step::CreateExtlinuxDir, run("mkdir", a));

    let mut text = cat(EXTLINUX_ENTRY, root_partition_path);
    text.append(" rootwait rootfstype=");
    text.append(cfg.filesystem.as_str());
    text.append(" init=/sbin/init loglevel=0\n");
    let path = cat(cfg.mount_point.as_str(), "/boot/extlinux/extlinux.conf");
    let step = write_file(Step::WriteExtlinuxConfig, path, text);
    add_planned(&mut plan, step.step, step.action);
    assert(plan_views(plan@) =~= extlinux_steps(*cfg, root_partition_path@));
    plan
}

/// Writing the host name to `/etc/hostname`.
pub open spec fn hostname_step(cfg: ProvisionConfig, hostname: Seq<char>) -> PlannedView {
    write_step(Step::WriteHostname, cfg.mount_point@ + "/etc/hostname"@, hostname)
}

pub fn set_hostname(cfg: &ProvisionConfig, hostname: &str) -> (r: Planned)
    ensures
        r@ == hostname_step(*cfg, hostname@),
{
    write_file(
        Step::WriteHostname,
        cat(cfg.mount_point.as_str(), "/etc/hostname"),
        String::from_str(hostname),
    )
}

/// The loopback lines that open every hosts table.
pub const HOSTS_LOOPBACK: &'static str = "127.0.0.1 localhost.localdomain localhost\n::1 localhost.localdomain localhost\n";

/// The hosts table: the IPv4 and IPv6 loopback names, then the machine's own
/// name at 127.0.1.1.
pub open spec fn hosts_text(hostname: Seq<char>) -> Seq<char> {
    HOSTS_LOOPBACK@ + "127.0.1.1 "@ + hostname + ".localdomain "@ + hostname
}

pub fn hosts_file_contents(hostname: &str) -> (r: String)
    ensures
        r@ == hosts_text(hostname@),
{
    let mut text = cat(HOSTS_LOOPBACK, "127.0.1.1 ");
    text.append(hostname);
    text.append(".localdomain ");
    text.append(hostname);
    text
}

/// Writing the hosts table to `/etc/hosts`.
pub open spec fn hosts_step(cfg: ProvisionConfig, hostname: Seq<char>) -> PlannedView {
    write_step(Step::WriteHosts, cfg.mount_point@ + "/etc/hosts"@, hosts_text(hostname))
}

pub fn set_hosts(cfg: &ProvisionConfig, hostname: &str) -> (r: Planned)
    ensures
        r@ == hosts_step(*cfg, hostname@),
{
    write_file(Step::WriteHosts, cat(cfg.mount_point.as_str(), "/etc/hosts"), hosts_file_contents(hostname))
}

/// The file system table: the root partition mounted with default options.
pub open spec fn fstab_text(cfg: ProvisionConfig, partition: Seq<char>) -> Seq<char> {
    partition + "\t"@ + cfg.filesystem@ + "\tdefaults\t0\t0"@
}

/// Writing the file system table to `/etc/fstab`.
pub open spec fn fstab_step(cfg: ProvisionConfig, partition: Seq<char>) -> PlannedView {
    write_step(Step::WriteFstab, cfg.mount_point@ + "/etc/fstab"@, fstab_text(cfg, partition))
}

pub fn set_fstab(cfg: &ProvisionConfig, root_partition_path: &str) -> (r: Planned)
    ensures
        r@ == fstab_step(*cfg, root_partition_path@),
{
    let mut text = cat(root_partition_path, "\t");
    text.append(cfg.filesystem.as_str());
    text.append("\tdefaults\t0\t0");
    write_file(Step::WriteFstab, cat(cfg.mount_point.as_str(), "/etc/fstab"), text)
}

/// The components taken from every repository.
pub const APT_COMPONENTS: &'static str = " main non-free non-free-firmware\n";

/// One line of an apt sources list.
pub open spec fn apt_line(kind: Seq<char>, url: Seq<char>, dist: Seq<char>) -> Seq<char> {
    kind + " "@ + url + " "@ + dist + APT_COMPONENTS@
}

fn apt_source_line(kind: &str, url: &str, dist: &str) -> (r: String)
    ensures
        r@ == apt_line(kind@, url@, dist@),
{
    let mut line = cat(kind, " ");
    line.append(url);
    line.append(" ");
    line.append(dist);
    line.append(APT_COMPONENTS);
    line
}

/// The sources list: binaries and sources of the main, security and updates
/// repositories of the configured suite, each pair followed by a blank line
/// but the last.
pub open spec fn sources_list_text(cfg: ProvisionConfig) -> Seq<char> {
    let main = cfg.apt_mirror@ + "/debian"@;
    let security = cfg.apt_mirror@ + "/debian-security/"@;
    apt_line("deb"@, main, cfg.suite@) + apt_line("deb-src"@, main, cfg.suite@) + "\n"@
        + apt_line("deb"@, security, cfg.suite@ + "-security"@)
        + apt_line("deb-src"@, security, cfg.suite@ + "-security"@) + "\n"@
        + apt_line("deb"@, main, cfg.suite@ + "-updates"@)
        + apt_line("deb-src"@, main, cfg.suite@ + "-updates"@)
}

pub fn sources_list_contents(cfg: &ProvisionConfig) -> (r: String)
    ensures
        r@ == sources_list_text(*cfg),
{
    let main = cat(cfg.apt_mirror.as_str(), "/debian");
    let security = cat(cfg.apt_mirror.as_str(), "/debian-security/");
    let security_dist = cat(cfg.suite.as_str(), "-security");
    let updates_dist = cat(cfg.suite.as_str(), "-updates");
    let mut text = apt_source_line("deb", main.as_str(), cfg.suite.as_str());
    text.append(apt_source_line("deb-src", main.as_str(), cfg.suite.as_str()).as_str());
    text.append("\n");
    text.append(apt_source_line("deb", security.as_str(), security_dist.as_str()).as_str());
    text.append(apt_source_line("deb-src", security.as_str(), security_dist.as_str()).as_str());
    text.append("\n");
    text.append(apt_source_line("deb", main.as_str(), updates_dist.as_str()).as_str());
    text.append(apt_source_line("deb-src", main.as_str(), updates_dist.as_str()).as_str());
    text
}

/// Writing the sources list to `/etc/apt/sources.list`.
pub open spec fn sources_list_step(cfg: ProvisionConfig) -> PlannedView {
    write_step(Step::WriteSourcesList, cfg.mount_point@ + "/etc/apt/sources.list"@, sources_list_text(cfg))
}

pub fn set_sources_list(cfg: &ProvisionConfig) -> (r: Planned)
    ensures
        r@ == sources_list_step(*cfg),
{
    write_file(
        Step::WriteSourcesList,
        cat(cfg.mount_point.as_str(), "/etc/apt/sources.list"),
        sources_list_contents(cfg),
    )
}

/// Asking openssl for an MD5-crypt hash of `password`, with a fresh salt.
pub open spec fn password_hash_step(password: Seq<char>) -> PlannedView {
    run_step(Step::HashRootPassword, "openssl"@, seq!["passwd"@, "-1"@, password])
}

pub fn hash_root_password(password: &str) -> (r: Planned)
    ensures
        r@ == password_hash_step(password@),
{
    let mut a = no_args();
    add_arg(&mut a, "passwd");
    add_arg(&mut a, "-1");
    add_arg(&mut a, password);
    assert(views(a@) == seq!["passwd"@, "-1"@, password@]);
    Planned { step: Step::HashRootPassword, action: run("openssl", a) }
}

/// Giving the root account of the new system the password hash `hash`.
pub open spec fn root_password_step(cfg: ProvisionConfig, hash: Seq<char>) -> PlannedView {
    run_step(
        Step::SetRootPassword,
        "chroot"@,
        seq![cfg.mount_point@, "/usr/sbin/usermod"@, "-p"@, hash, "root"@],
    )
}

pub fn set_root_password(cfg: &ProvisionConfig, hash: &str) -> (r: Planned)
    ensures
        r@ == root_password_step(*cfg, hash@),
{
    let mut a = no_args();
    add_arg(&mut a, cfg.mount_point.as_str());
    add_arg(&mut a, "/usr/sbin/usermod");
    add_arg(&mut a, "-p");
    add_arg(&mut a, hash);
    add_arg(&mut a, "root");
    assert(views(a@) == seq![cfg.mount_point@, "/usr/sbin/usermod"@, "-p"@, hash@, "root"@]);
    Planned { step: Step::SetRootPassword, action: run("chroot", a) }
}

} // verus!
