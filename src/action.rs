//! The external operations that provisioning is made of, and what is reported
//! back about each of them.

use vstd::prelude::*;

verus! {

/// The character sequences of a list of strings.
pub open spec fn views(v: Seq<String>) -> Seq<Seq<char>> {
    v.map_values(|s: String| s@)
}

/// One external operation. Paths are absolute paths on the host.
#[derive(Debug)]
pub enum Action {
    /// Run `program` with `args` to completion; success is a zero exit status.
    Run { program: String, args: Vec<String> },
    /// Write `contents` to the file at `path`, replacing it.
    WriteFile { path: String, contents: String },
    /// Create the directory `path` and any missing parent.
    CreateDirAll { path: String },
    /// List the names of the entries of the directory `path`.
    ListDir { path: String },
    /// Copy the file `from` to `to`.
    CopyFile { from: String, to: String },
}

pub enum ActionView {
    Run { program: Seq<char>, args: Seq<Seq<char>> },
    WriteFile { path: Seq<char>, contents: Seq<char> },
    CreateDirAll { path: Seq<char> },
    ListDir { path: Seq<char> },
    CopyFile { from: Seq<char>, to: Seq<char> },
}

impl View for Action {
    type V = ActionView;

    open spec fn view(&self) -> ActionView {
        match self {
            Action::Run { program, args } => ActionView::Run { program: program@, args: views(args@) },
            Action::WriteFile { path, contents } => ActionView::WriteFile {
                path: path@,
                contents: contents@,
            },
            Action::CreateDirAll { path } => ActionView::CreateDirAll { path: path@ },
            Action::ListDir { path } => ActionView::ListDir { path: path@ },
            Action::CopyFile { from, to } => ActionView::CopyFile { from: from@, to: to@ },
        }
    }
}

/// What running an [`Action`] gave.
#[derive(Debug)]
pub enum Outcome {
    /// It succeeded; `output` is what a run tool printed (empty for file work).
    Succeeded { output: String },
    /// A directory listing succeeded with these entry names.
    Listed { entries: Vec<String> },
    /// A non-zero exit status, a tool that could not be started, or an I/O error.
    Failed { detail: String },
}

pub enum OutcomeView {
    Succeeded { output: Seq<char> },
    Listed { entries: Seq<Seq<char>> },
    Failed { detail: Seq<char> },
}

impl View for Outcome {
    type V = OutcomeView;

    open spec fn view(&self) -> OutcomeView {
        match self {
            Outcome::Succeeded { output } => OutcomeView::Succeeded { output: output@ },
            Outcome::Listed { entries } => OutcomeView::Listed { entries: views(entries@) },
            Outcome::Failed { detail } => OutcomeView::Failed { detail: detail@ },
        }
    }
}

impl OutcomeView {
    /// The printed output of a success; empty for any other outcome.
    pub open spec fn output(self) -> Seq<char> {
        match self {
            OutcomeView::Succeeded { output } => output,
            _ => Seq::empty(),
        }
    }

    /// The entries of a listing; empty for any other outcome.
    pub open spec fn entries(self) -> Seq<Seq<char>> {
        match self {
            OutcomeView::Listed { entries } => entries,
            _ => Seq::empty(),
        }
    }
}

/// An empty argument list.
pub fn no_args() -> (r: Vec<String>)
    ensures
        views(r@) == Seq::<Seq<char>>::empty(),
{
    let r: Vec<String> = Vec::new();
    assert(views(r@) =~= Seq::<Seq<char>>::empty());
    r
}

/// Appends `a` to an argument list.
pub fn add_arg(args: &mut Vec<String>, a: &str)
    ensures
        views(final(args)@) == views(old(args)@).push(a@),
{
    args.push(String::from_str(a));
    assert(views(final(args)@) =~= views(old(args)@).push(a@));
}

/// Appends each of `more` to an argument list, in order.
pub fn add_args(args: &mut Vec<String>, more: &Vec<String>)
    ensures
        views(final(args)@) == views(old(args)@) + views(more@),
{
    let ghost start = views(args@);
    let mut i: usize = 0;
    while i < more.len()
        invariant
            i <= more@.len(),
            views(args@) == start + views(more@.subrange(0, i as int)),
        decreases more@.len() - i,
    {
        let a = more[i].clone();
        let ghost before = args@;
        args.push(a);
        assert(views(args@) =~= views(before).push(more@[i as int]@));
        assert(views(more@.subrange(0, i + 1)) =~= views(more@.subrange(0, i as int)).push(
            more@[i as int]@,
        ));
        i = i + 1;
    }
    assert(more@.subrange(0, more@.len() as int) =~= more@);
}

/// A run of `program` with the arguments given.
pub fn run(program: &str, args: Vec<String>) -> (r: Action)
    ensures
        r@ == (ActionView::Run { program: program@, args: views(args@) }),
{
    Action::Run { program: String::from_str(program), args }
}

/// Which operation of the provisioning run an action is.
#[derive(Debug, Clone, Copy, PartialEq, Eq, Structural)]
pub enum Step {
    QueryKernelRelease,
    UpdateHostPackages,
    InstallHostPackages,
    CreatePartitionTable,
    CreatePartition,
    SetBootFlag,
    FormatPartition,
    CreateMountPoint,
    MountPartition,
    BootstrapFirstStage,
    BootstrapSecondStage,
    InstallKernelModules,
    CreateExtlinuxDir,
    WriteExtlinuxConfig,
    WriteHostname,
    WriteHosts,
    WriteFstab,
    WriteSourcesList,
    HashRootPassword,
    SetRootPassword,
    UpdateTargetPackages,
    InstallTargetPackages,
    CreateDtbDir,
    ListDtbSources,
    CopyDtb,
    CopyKernelImage,
    CopyKernelConfig,
    CopySystemMap,
    MakeKernelImage,
    MakeInitramfs,
    MakeRamdiskImage,
    LinkKernelImage,
    LinkInitramfs,
    LinkDtbDir,
    LinkDeviceTree,
    Unmount,
}

impl Step {
    /// What the operation does, in words for the operator.
    pub fn description(&self) -> &'static str {
        match self {
            Step::QueryKernelRelease => "query the kernel release",
            Step::UpdateHostPackages => "update the host's package index",
            Step::InstallHostPackages => "install the installer's dependencies",
            Step::CreatePartitionTable => "create the MBR partition table",
            Step::CreatePartition => "create the root partition",
            Step::SetBootFlag => "make the root partition bootable",
            Step::FormatPartition => "format the root partition",
            Step::CreateMountPoint => "create the mount point of the root partition",
            Step::MountPartition => "mount the root partition",
            Step::BootstrapFirstStage => "create the root file system",
            Step::BootstrapSecondStage => "prepare the root file system",
            Step::InstallKernelModules => "install the kernel modules",
            Step::CreateExtlinuxDir => "create /boot/extlinux",
            Step::WriteExtlinuxConfig => "write /boot/extlinux/extlinux.conf",
            Step::WriteHostname => "write /etc/hostname",
            Step::WriteHosts => "write /etc/hosts",
            Step::WriteFstab => "write /etc/fstab",
            Step::WriteSourcesList => "write /etc/apt/sources.list",
            Step::HashRootPassword => "encrypt the root password",
            Step::SetRootPassword => "set the root password",
            Step::UpdateTargetPackages => "update the new system's package index",
            Step::InstallTargetPackages => "install the extra packages in the new system",
            Step::CreateDtbDir => "create the device tree directory in /boot",
            Step::ListDtbSources => "read the kernel's device tree directory",
            Step::CopyDtb => "copy a device tree blob",
            Step::CopyKernelImage => "copy zImage",
            Step::CopyKernelConfig => "copy the kernel's .config",
            Step::CopySystemMap => "copy System.map",
            Step::MakeKernelImage => "generate the uImage image",
            Step::MakeInitramfs => "generate the initrd.img image",
            Step::MakeRamdiskImage => "generate the uInitrd image",
            Step::LinkKernelImage => "link /boot/zImage",
            Step::LinkInitramfs => "link /boot/initrd.img",
            Step::LinkDtbDir => "link /boot/dtb",
            Step::LinkDeviceTree => "link /boot/device_tree_binary.dtb",
            Step::Unmount => "unmount the root partition",
        }
    }
}

/// An action together with the operation it performs.
#[derive(Debug)]
pub struct Planned {
    pub step: Step,
    pub action: Action,
}

pub struct PlannedView {
    pub step: Step,
    pub action: ActionView,
}

impl View for Planned {
    type V = PlannedView;

    open spec fn view(&self) -> PlannedView {
        PlannedView { step: self.step, action: self.action@ }
    }
}

/// A run of `program` with `args`, as planned for `step`.
pub open spec fn run_step(step: Step, program: Seq<char>, args: Seq<Seq<char>>) -> PlannedView {
    PlannedView { step, action: ActionView::Run { program, args } }
}

/// The views of a list of planned actions.
pub open spec fn plan_views(v: Seq<Planned>) -> Seq<PlannedView> {
    v.map_values(|p: Planned| p@)
}

/// A plan with nothing in it yet.
pub fn empty_plan() -> (r: Vec<Planned>)
    ensures
        plan_views(r@) == Seq::<PlannedView>::empty(),
{
    let r: Vec<Planned> = Vec::new();
    assert(plan_views(r@) =~= Seq::<PlannedView>::empty());
    r
}

/// Appends the action `action` for `step` to a plan.
pub fn add_planned(plan: &mut Vec<Planned>, step: Step, action: Action)
    ensures
        plan_views(final(plan)@) == plan_views(old(plan)@).push(PlannedView { step, action: action@ }),
{
    let ghost a = action@;
    plan.push(Planned { step, action });
    assert(plan_views(final(plan)@) =~= plan_views(old(plan)@).push(PlannedView { step, action: a }));
}

/// Appends the plan `more` to `plan`.
pub fn add_plan(plan: &mut Vec<Planned>, more: Vec<Planned>)
    ensures
        plan_views(final(plan)@) == plan_views(old(plan)@) + plan_views(more@),
{
    let mut more = more;
    let ghost m = more@;
    plan.append(&mut more);
    assert(plan_views(final(plan)@) =~= plan_views(old(plan)@) + plan_views(m));
}

} // verus!
