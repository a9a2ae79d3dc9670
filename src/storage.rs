//! Host preparation and the storage stage: the device gets one bootable
//! partition, formatted and mounted at the configured mount point.

use vstd::prelude::*;
use crate::action::{
    add_arg, add_args, add_planned, empty_plan, no_args, plan_views, run, run_step, views, Planned,
    PlannedView, Step,
};
use crate::config::ProvisionConfig;
use crate::text::cat;

verus! {

/// The path of the first partition of `device`.
pub open spec fn root_partition_of(device: Seq<char>) -> Seq<char> {
    device + "p1"@
}

/// Derives the root partition's path from the device's.
pub fn root_partition_path(device: &str) -> (r: String)
    ensures
        r@ == root_partition_of(device@),
{
    cat(device, "p1")
}

/// Refreshing the host's package index, then installing what provisioning
/// needs on the host.
pub open spec fn dependency_steps(cfg: ProvisionConfig) -> Seq<PlannedView> {
    seq![
        run_step(Step::UpdateHostPackages, "apt"@, seq!["update"@]),
        run_step(
            Step::InstallHostPackages,
            "apt"@,
            seq!["install"@] + views(cfg.host_packages@) + seq!["-y"@],
        ),
    ]
}

pub fn install_dependencies(cfg: &ProvisionConfig) -> (r: Vec<Planned>)
    ensures
        plan_views(r@) == dependency_steps(*cfg),
{
    let mut plan = empty_plan();
    let mut a = no_args();
    add_arg(&mut a, "update");
    add_planned(&mut plan, Step::UpdateHostPackages, run("apt", a));
    let mut a = no_args();
    add_arg(&mut a, "install");
    add_args(&mut a, &cfg.host_packages);
    add_arg(&mut a, "-y");
    assert(views(a@) =~= seq!["install"@] + views(cfg.host_packages@) + seq!["-y"@]);
    add_planned(&mut plan, Step::InstallHostPackages, run("apt", a));
    assert(plan_views(plan@) =~~= dependency_steps(*cfg));
    plan
}

/// The partition table, the partition, its boot flag, its file system, the
/// mount point and the mount, in that order.
pub open spec fn storage_steps(cfg: ProvisionConfig, device: Seq<char>, partition: Seq<char>) -> Seq<
    PlannedView,
> {
    seq![
        run_step(
            Step::CreatePartitionTable,
            "parted"@,
            seq!["--script"@, device, "mklabel"@, cfg.partition_table@],
        ),
        run_step(
            Step::CreatePartition,
            "parted"@,
            seq!["--script"@, device, "mkpart"@, "primary"@, cfg.filesystem@, "0%"@, "100%"@],
        ),
        run_step(
            Step::SetBootFlag,
            "parted"@,
            seq!["--script"@, device, "set"@, "1"@, "boot"@, "on"@],
        ),
        run_step(Step::FormatPartition, "mkfs."@ + cfg.filesystem@, seq![partition]),
        run_step(Step::CreateMountPoint, "mkdir"@, seq!["-p"@, cfg.mount_point@]),
        run_step(Step::MountPartition, "mount"@, seq![partition, cfg.mount_point@]),
    ]
}

pub fn configure_storage(cfg: &ProvisionConfig, device: &str, partition: &str) -> (r: Vec<Planned>)
    ensures
        plan_views(r@) == storage_steps(*cfg, device@, partition@),
{
    let ghost st = storage_steps(*cfg, device@, partition@);
    let mut plan = empty_plan();

    let mut a = no_args();
    add_arg(&mut a, "--script");
    add_arg(&mut a, device);
    add_arg(&mut a, "mklabel");
    add_arg(&mut a, cfg.partition_table.as_str());
    assert(views(a@) == seq!["--script"@, device@, "mklabel"@, cfg.partition_table@]);
    add_planned(&mut plan, Step::CreatePartitionTable, run("parted", a));

    let mut a = no_args();
    add_arg(&mut a, "--script");
    add_arg(&mut a, device);
    add_arg(&mut a, "mkpart");
    add_arg(&mut a, "primary");
    add_arg(&mut a, cfg.filesystem.as_str());
    add_arg(&mut a, "0%");
    add_arg(&mut a, "100%");
    assert(views(a@) == seq!["--script"@, device@, "mkpart"@, "primary"@, cfg.filesystem@, "0%"@, "100%"@]);
    add_planned(&mut plan, Step::CreatePartition, run("parted", a));

    let mut a = no_args();
    add_arg(&mut a, "--script");
    add_arg(&mut a, device);
    add_arg(&mut a, "set");
    add_arg(&mut a, "1");
    add_arg(&mut a, "boot");
    add_arg(&mut a, "on");
    assert(views(a@) == seq!["--script"@, device@, "set"@, "1"@, "boot"@, "on"@]);
    add_planned(&mut plan, Step::SetBootFlag, run("parted", a));

    let mut a = no_args();
    add_arg(&mut a, partition);
    assert(views(a@) == seq![partition@]);
    let mkfs = cat("mkfs.", cfg.filesystem.as_str());
    add_planned(&mut plan, Step::FormatPartition, run(mkfs.as_str(), a));

    let mut a = no_args();
    add_arg(&mut a, "-p");
    add_arg(&mut a, cfg.mount_point.as_str());
    assert(views(a@) == seq!["-p"@, cfg.mount_point@]);
    add_planned(&mut plan, Step::CreateMountPoint, run("mkdir", a));

    let mut a = no_args();
    add_arg(&mut a, partition);
    add_arg(&mut a, cfg.mount_point.as_str());
    assert(views(a@) == seq![partition@, cfg.mount_point@]);
    add_planned(&mut plan, Step::MountPartition, run("mount", a));

    assert(plan_views(plan@) =~= st);
    plan
}

} // verus!
