//! The root file system stage: the kernel release query, the two-phase
//! bootstrap, the kernel modules and the extra packages of the new system.

use vstd::prelude::*;
use crate::action::{run_step, add_arg, add_args, add_planned, empty_plan, no_args, plan_views, run, views, Planned, PlannedView, Step};
use crate::config::ProvisionConfig;
use crate::text::{cat, strip_newlines, without_newlines};

verus! {

/// Asking the kernel build tree at `kernel` for its release.
pub open spec fn release_query_step(kernel: Seq<char>) -> PlannedView {
    run_step(Step::QueryKernelRelease, "make"@, seq!["-s"@, "-C"@, kernel, "kernelrelease"@])
}

pub fn kernel_release_query(kernel_path: &str) -> (r: Planned)
    ensures
        r@ == release_query_step(kernel_path@),
{
    let mut a = no_args();
    add_arg(&mut a, "-s");
    add_arg(&mut a, "-C");
    add_arg(&mut a, kernel_path);
    add_arg(&mut a, "kernelrelease");
    assert(views(a@) == seq!["-s"@, "-C"@, kernel_path@, "kernelrelease"@]);
    Planned { step: Step::QueryKernelRelease, action: run("make", a) }
}

/// The kernel release that the release query printed as `output`.
pub fn get_kernel_release(output: &str) -> (r: String)
    ensures
        r@ == without_newlines(output@),
{
    strip_newlines(output)
}

/// The first bootstrap phase: fetching and unpacking the base system into
/// the mount point, run on the host.
pub open spec fn bootstrap_step(cfg: ProvisionConfig) -> PlannedView {
    run_step(
        Step::BootstrapFirstStage,
        "debootstrap"@,
        seq![
            "--arch="@ + cfg.architecture@,
            "--foreign"@,
            cfg.suite@,
            cfg.mount_point@,
            cfg.bootstrap_mirror@,
        ],
    )
}

pub fn create_root_filesystem(cfg: &ProvisionConfig) -> (r: Planned)
    ensures
        r@ == bootstrap_step(*cfg),
{
    let mut a = no_args();
    let arch = cat("--arch=", cfg.architecture.as_str());
    add_arg(&mut a, arch.as_str());
    add_arg(&mut a, "--foreign");
    add_arg(&mut a, cfg.suite.as_str());
    add_arg(&mut a, cfg.mount_point.as_str());
    add_arg(&mut a, cfg.bootstrap_mirror.as_str());
    assert(views(a@) == seq![
        "--arch="@ + cfg.architecture@,
        "--foreign"@,
        cfg.suite@,
        cfg.mount_point@,
        cfg.bootstrap_mirror@,
    ]);
    Planned { step: Step::BootstrapFirstStage, action: run("debootstrap", a) }
}

/// The second bootstrap phase, run inside the new system.
pub open spec fn second_stage_step(cfg: ProvisionConfig) -> PlannedView {
    run_step(
        Step::BootstrapSecondStage,
        "chroot"@,
        seq![cfg.mount_point@, "/debootstrap/debootstrap"@, "--second-stage"@],
    )
}

pub fn prepare_root_filesystem(cfg: &ProvisionConfig) -> (r: Planned)
    ensures
        r@ == second_stage_step(*cfg),
{
    let mut a = no_args();
    add_arg(&mut a, cfg.mount_point.as_str());
    add_arg(&mut a, "/debootstrap/debootstrap");
    add_arg(&mut a, "--second-stage");
    assert(views(a@) == seq![cfg.mount_point@, "/debootstrap/debootstrap"@, "--second-stage"@]);
    Planned { step: Step::BootstrapSecondStage, action: run("chroot", a) }
}

/// Installing the modules of the kernel tree at `kernel` under the mount
/// point.
pub open spec fn kernel_modules_step(cfg: ProvisionConfig, kernel: Seq<char>) -> PlannedView {
    run_step(
        Step::InstallKernelModules,
        "make"@,
        seq!["-C"@, kernel, "INSTALL_MOD_PATH="@ + cfg.mount_point@, "modules_install"@],
    )
}

pub fn install_kernel_modules(cfg: &ProvisionConfig, kernel_path: &str) -> (r: Planned)
    ensures
        r@ == kernel_modules_step(*cfg, kernel_path@),
{
    let mut a = no_args();
    add_arg(&mut a, "-C");
    add_arg(&mut a, kernel_path);
    let dest = cat("INSTALL_MOD_PATH=", cfg.mount_point.as_str());
    add_arg(&mut a, dest.as_str());
    add_arg(&mut a, "modules_install");
    assert(views(a@) == seq![
        "-C"@,
        kernel_path@,
        "INSTALL_MOD_PATH="@ + cfg.mount_point@,
        "modules_install"@,
    ]);
    Planned { step: Step::InstallKernelModules, action: run("make", a) }
}

/// Refreshing the new system's package index, then installing the extra
/// packages, both inside the new system.
pub open spec fn extra_package_steps(cfg: ProvisionConfig) -> Seq<PlannedView> {
    seq![
        run_step(Step::UpdateTargetPackages, "chroot"@, seq![cfg.mount_point@, "/bin/apt"@, "update"@]),
        run_step(
            Step::InstallTargetPackages,
            "chroot"@,
            seq![cfg.mount_point@, "/bin/apt"@, "install"@] + views(cfg.target_packages@) + seq!["-y"@],
        ),
    ]
}

pub fn install_extra_packages(cfg: &ProvisionConfig) -> (r: Vec<Planned>)
    ensures
        plan_views(r@) == extra_package_steps(*cfg),
{
    let mut plan = empty_plan();
    let mut a = no_args();
    add_arg(&mut a, cfg.mount_point.as_str());
    add_arg(&mut a, "/bin/apt");
    add_arg(&mut a, "update");
    assert(views(a@) == seq![cfg.mount_point@, "/bin/apt"@, "update"@]);
    add_planned(&mut plan, Step::UpdateTargetPackages, run("chroot", a));

    let mut a = no_args();
    add_arg(&mut a, cfg.mount_point.as_str());
    add_arg(&mut a, "/bin/apt");
    add_arg(&mut a, "install");
    add_args(&mut a, &cfg.target_packages);
    add_arg(&mut a, "-y");
    assert(views(a@) =~= seq![cfg.mount_point@, "/bin/apt"@, "install"@] + views(cfg.target_packages@)
        + seq!["-y"@]);
    add_planned(&mut plan, Step::InstallTargetPackages, run("chroot", a));
    assert(plan_views(plan@) =~= extra_package_steps(*cfg));
    plan
}

} // verus!
