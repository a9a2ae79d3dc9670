//! The provisioning run as a state machine. A [`Provisioner`] hands out one
//! action at a time, in the fixed order of the stages, and learns from each
//! reported outcome: the kernel release, the root password's hash and the
//! device tree blobs to copy come from the outputs of earlier actions. The
//! first failure ends the run; nothing done before it is undone.

use vstd::prelude::*;
use crate::action::{add_plan, add_planned, empty_plan, plan_views, Action, ActionView, Outcome, OutcomeView, Planned, PlannedView, Step};
use crate::boot::{
    boot_file_steps, boot_image_steps, boot_link_steps, copy_boot_files, create_boot_symbolic_links,
    dtb_file_names, dtb_names, dtb_prepare_steps, generate_boot_images, prepare_dtb_copy,
    umount_root_partition, unmount_step,
};
use crate::job::ProvisionJob;
use crate::rootfs::{
    bootstrap_step, create_root_filesystem, extra_package_steps, get_kernel_release,
    install_extra_packages, install_kernel_modules, kernel_modules_step, kernel_release_query,
    prepare_root_filesystem, release_query_step, second_stage_step,
};
use crate::storage::{configure_storage, dependency_steps, install_dependencies, storage_steps};
use crate::system::{
    create_extlinux_configuration_file, extlinux_steps, fstab_step, hash_root_password, hostname_step,
    hosts_step, password_hash_step, root_password_step, set_fstab, set_hostname, set_hosts,
    set_root_password, set_sources_list, sources_list_step,
};
use crate::text::{strip_newlines, without_newlines};

verus! {

/// Which category of failure ended a run.
#[derive(Debug, Clone, Copy, PartialEq, Eq, Structural)]
pub enum FailureKind {
    /// A tool exited with a non-zero status or could not be started.
    ExternalTool,
    /// A file or directory operation failed.
    Io,
}

/// The failure of one operation.
#[derive(Debug)]
pub struct Failure {
    pub step: Step,
    pub kind: FailureKind,
    /// What the tool or the file system reported.
    pub detail: String,
}

#[derive(Debug)]
pub enum Status {
    Running,
    Failed(Failure),
    Finished,
}

pub enum StatusView {
    Running,
    Failed { step: Step, kind: FailureKind, detail: Seq<char> },
    Finished,
}

impl View for Status {
    type V = StatusView;

    open spec fn view(&self) -> StatusView {
        match self {
            Status::Running => StatusView::Running,
            Status::Failed(f) => StatusView::Failed { step: f.step, kind: f.kind, detail: f.detail@ },
            Status::Finished => StatusView::Finished,
        }
    }
}

/// The failure category of an action: tools fail as tools, the rest as I/O.
pub open spec fn kind_of(a: ActionView) -> FailureKind {
    match a {
        ActionView::Run { .. } => FailureKind::ExternalTool,
        _ => FailureKind::Io,
    }
}

fn failure_kind(a: &Action) -> (r: FailureKind)
    ensures
        r == kind_of(a@),
{
    match a {
        Action::Run { .. } => FailureKind::ExternalTool,
        _ => FailureKind::Io,
    }
}

/// The run's first segment: finding the kernel release, before anything
/// touches the device.
pub open spec fn release_steps(job: ProvisionJob) -> Seq<PlannedView> {
    seq![release_query_step(job.kernel_path@)]
}

/// The second segment: host dependencies, storage, bootstrap, kernel modules,
/// the identity files, and hashing the root password.
pub open spec fn preparation_steps(job: ProvisionJob) -> Seq<PlannedView> {
    let cfg = job.config;
    dependency_steps(cfg) + storage_steps(cfg, job.device_path@, job.root_partition_path@) + seq![
        bootstrap_step(cfg),
        second_stage_step(cfg),
        kernel_modules_step(cfg, job.kernel_path@),
    ] + extlinux_steps(cfg, job.root_partition_path@) + seq![
        hostname_step(cfg, job.hostname@),
        hosts_step(cfg, job.hostname@),
        fstab_step(cfg, job.root_partition_path@),
        sources_list_step(cfg),
        password_hash_step(job.root_password@),
    ]
}

/// The third segment: setting the root password to `hash`, the extra
/// packages, and finding the device tree blobs to copy.
pub open spec fn package_steps(job: ProvisionJob, release: Seq<char>, hash: Seq<char>) -> Seq<PlannedView> {
    seq![root_password_step(job.config, hash)] + extra_package_steps(job.config)
        + dtb_prepare_steps(job.config, job.kernel_path@, release)
}

/// The last segment: the boot artifacts of `release` and the unmount.
pub open spec fn boot_steps(job: ProvisionJob, release: Seq<char>, dtbs: Seq<Seq<char>>) -> Seq<PlannedView> {
    boot_file_steps(job.config, job.kernel_path@, release, dtbs) + boot_image_steps(job.config, release)
        + boot_link_steps(job.config, release, job.dtb_file@) + seq![unmount_step(job.config)]
}

pub struct ProvisionerView {
    pub job: ProvisionJob,
    /// The segment of the run in progress, 0 to 3.
    pub segment: nat,
    /// The position of the pending action in its segment.
    pub index: nat,
    pub release: Seq<char>,
    pub password_hash: Seq<char>,
    pub dtbs: Seq<Seq<char>>,
    pub status: StatusView,
}

/// The actions of segment `k` of a run in state `s`.
pub open spec fn segment_steps(s: ProvisionerView, k: nat) -> Seq<PlannedView> {
    if k == 0 {
        release_steps(s.job)
    } else if k == 1 {
        preparation_steps(s.job)
    } else if k == 2 {
        package_steps(s.job, s.release, s.password_hash)
    } else {
        boot_steps(s.job, s.release, s.dtbs)
    }
}

/// The action a run in state `s` waits on, if any.
pub open spec fn pending(s: ProvisionerView) -> Option<PlannedView> {
    if s.status is Running && s.segment < 4 && s.index < segment_steps(s, s.segment).len() {
        Some(segment_steps(s, s.segment)[s.index as int])
    } else {
        None
    }
}

/// The state after the pending action of `s` had the outcome `o`.
pub open spec fn advance(s: ProvisionerView, o: OutcomeView) -> ProvisionerView {
    match pending(s) {
        None => s,
        Some(p) => match o {
            OutcomeView::Failed { detail } => ProvisionerView {
                status: StatusView::Failed { step: p.step, kind: kind_of(p.action), detail },
                ..s
            },
            _ => if s.index + 1 < segment_steps(s, s.segment).len() {
                ProvisionerView { index: s.index + 1, ..s }
            } else if s.segment == 0 {
                ProvisionerView { segment: 1, index: 0, release: without_newlines(o.output()), ..s }
            } else if s.segment == 1 {
                ProvisionerView { segment: 2, index: 0, password_hash: without_newlines(o.output()), ..s }
            } else if s.segment == 2 {
                ProvisionerView { segment: 3, index: 0, dtbs: dtb_names(o.entries()), ..s }
            } else {
                ProvisionerView { status: StatusView::Finished, ..s }
            },
        },
    }
}

/// The state a run of `job` starts in.
pub open spec fn initial(job: ProvisionJob) -> ProvisionerView {
    ProvisionerView {
        job,
        segment: 0,
        index: 0,
        release: Seq::empty(),
        password_hash: Seq::empty(),
        dtbs: Seq::empty(),
        status: StatusView::Running,
    }
}

/// Drives one provisioning run.
pub struct Provisioner {
    job: ProvisionJob,
    segment: usize,
    index: usize,
    release: String,
    password_hash: String,
    dtbs: Vec<String>,
    status: Status,
}

impl View for Provisioner {
    type V = ProvisionerView;

    closed spec fn view(&self) -> ProvisionerView {
        ProvisionerView {
            job: self.job,
            segment: self.segment as nat,
            index: self.index as nat,
            release: self.release@,
            password_hash: self.password_hash@,
            dtbs: crate::action::views(self.dtbs@),
            status: self.status@,
        }
    }
}

impl Provisioner {
    pub fn new(job: ProvisionJob) -> (r: Provisioner)
        ensures
            r@ == initial(job),
    {
        let r = Provisioner {
            job,
            segment: 0,
            index: 0,
            release: String::new(),
            password_hash: String::new(),
            dtbs: Vec::new(),
            status: Status::Running,
        };
        assert(crate::action::views(r.dtbs@) =~= Seq::<Seq<char>>::empty());
        r
    }

    /// The job this run provisions.
    pub fn job(&self) -> (r: &ProvisionJob)
        ensures
            *r == self@.job,
    {
        &self.job
    }

    /// Whether the run goes on, failed, or is done.
    pub fn status(&self) -> (r: &Status)
        ensures
            r@ == self@.status,
    {
        &self.status
    }

    /// The kernel release learned from the release query; empty before it.
    pub fn kernel_release(&self) -> (r: &str)
        ensures
            r@ == self@.release,
    {
        self.release.as_str()
    }

    fn segment_plan(&self) -> (r: Vec<Planned>)
        ensures
            plan_views(r@) == segment_steps(self@, self@.segment),
    {
        let job = &self.job;
        let cfg = &job.config;
        let mut plan = empty_plan();
        if self.segment == 0 {
            let p = kernel_release_query(job.kernel_path.as_str());
            add_planned(&mut plan, p.step, p.action);
            assert(plan_views(plan@) =~= release_steps(self@.job));
        } else if self.segment == 1 {
            add_plan(&mut plan, install_dependencies(cfg));
            add_plan(
                &mut plan,
                configure_storage(cfg, job.device_path.as_str(), job.root_partition_path.as_str()),
            );
            let p = create_root_filesystem(cfg);
            add_planned(&mut plan, p.step, p.action);
            let p = prepare_root_filesystem(cfg);
            add_planned(&mut plan, p.step, p.action);
            let p = install_kernel_modules(cfg, job.kernel_path.as_str());
            add_planned(&mut plan, p.step, p.action);
            add_plan(&mut plan, create_extlinux_configuration_file(cfg, job.root_partition_path.as_str()));
            let p = set_hostname(cfg, job.hostname.as_str());
            add_planned(&mut plan, p.step, p.action);
            let p = set_hosts(cfg, job.hostname.as_str());
            add_planned(&mut plan, p.step, p.action);
            let p = set_fstab(cfg, job.root_partition_path.as_str());
            add_planned(&mut plan, p.step, p.action);
            let p = set_sources_list(cfg);
            add_planned(&mut plan, p.step, p.action);
            let p = hash_root_password(job.root_password.as_str());
            add_planned(&mut plan, p.step, p.action);
            assert(plan_views(plan@) =~= preparation_steps(self@.job));
        } else if self.segment == 2 {
            let p = set_root_password(cfg, self.password_hash.as_str());
            add_planned(&mut plan, p.step, p.action);
            add_plan(&mut plan, install_extra_packages(cfg));
            add_plan(&mut plan, prepare_dtb_copy(cfg, job.kernel_path.as_str(), self.release.as_str()));
            assert(plan_views(plan@) =~= package_steps(self@.job, self@.release, self@.password_hash));
        } else {
            add_plan(
                &mut plan,
                copy_boot_files(cfg, job.kernel_path.as_str(), self.release.as_str(), &self.dtbs),
            );
            add_plan(&mut plan, generate_boot_images(cfg, self.release.as_str()));
            add_plan(
                &mut plan,
                create_boot_symbolic_links(cfg, self.release.as_str(), job.dtb_file.as_str()),
            );
            let p = umount_root_partition(cfg);
            add_planned(&mut plan, p.step, p.action);
            assert(plan_views(plan@) =~= boot_steps(self@.job, self@.release, self@.dtbs));
        }
        plan
    }

    /// The action to perform next; `None` once the run has failed or finished.
    pub fn next_action(&self) -> (r: Option<Planned>)
        ensures
            match r {
                Some(p) => pending(self@) == Some(p@),
                None => pending(self@) is None,
            },
    {
        match self.status {
            Status::Running => {},
            _ => {
                return None;
            },
        }
        if self.segment >= 4 {
            return None;
        }
        let mut plan = self.segment_plan();
        if self.index >= plan.len() {
            return None;
        }
        let p = plan.remove(self.index);
        Some(p)
    }

    /// Takes in the outcome of the pending action.
    pub fn record(&mut self, outcome: Outcome)
        ensures
            final(self)@ == advance(old(self)@, outcome@),
    {
        match self.status {
            Status::Running => {},
            _ => {
                return;
            },
        }
        if self.segment >= 4 {
            return;
        }
        let plan = self.segment_plan();
        if self.index >= plan.len() {
            return;
        }
        let step = plan[self.index].step;
        let kind = failure_kind(&plan[self.index].action);
        let ghost o = outcome@;
        let (output, entries) = match outcome {
            Outcome::Failed { detail } => {
                self.status = Status::Failed(Failure { step, kind, detail });
                return;
            },
            Outcome::Succeeded { output } => (output, Vec::new()),
            Outcome::Listed { entries } => (String::new(), entries),
        };
        assert(output@ == o.output());
        assert(crate::action::views(entries@) =~= o.entries());
        if self.index + 1 < plan.len() {
            self.index = self.index + 1;
        } else if self.segment == 0 {
            self.release = get_kernel_release(output.as_str());
            self.segment = 1;
            self.index = 0;
        } else if self.segment == 1 {
            self.password_hash = strip_newlines(output.as_str());
            self.segment = 2;
            self.index = 0;
        } else if self.segment == 2 {
            self.dtbs = dtb_file_names(&entries);
            self.segment = 3;
            self.index = 0;
        } else {
            self.status = Status::Finished;
        }
    }
}

} // verus!
