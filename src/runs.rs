//! What whole runs of a [`crate::pipeline::Provisioner`] do: the actions
//! issued while outcomes are fed back one by one.

use vstd::prelude::*;
use crate::action::{OutcomeView, PlannedView, Step};
use crate::job::ProvisionJob;
use crate::pipeline::{
    advance, boot_steps, initial, kind_of, package_steps, pending, preparation_steps, release_steps,
    segment_steps, ProvisionerView, StatusView,
};
use crate::boot::{
    boot_file_steps, boot_image_steps, boot_link_steps, dtb_copy_step, dtb_dir, dtb_names,
    dtb_prepare_steps, release_file,
};
use crate::config::ProvisionConfig;
use crate::text::has_substring;
use crate::action::ActionView;
use crate::text::without_newlines;

verus! {

/// The actions issued by a run from state `s` that is fed `outcomes` in
/// turn, and the state it ends in. A run that issues nothing more ignores
/// the outcomes left.
pub open spec fn run(s: ProvisionerView, outcomes: Seq<OutcomeView>) -> (Seq<PlannedView>, ProvisionerView)
    decreases outcomes.len(),
{
    if outcomes.len() == 0 {
        (Seq::empty(), s)
    } else {
        match pending(s) {
            None => (Seq::empty(), s),
            Some(p) => {
                let rest = run(advance(s, outcomes[0]), outcomes.drop_first());
                (seq![p] + rest.0, rest.1)
            },
        }
    }
}

/// Whether an outcome reports success.
pub open spec fn succeeded(o: OutcomeView) -> bool {
    !(o is Failed)
}

/// Every action of a run of `job`, in order, where the kernel release is
/// `release`, the root password's hash is `hash` and the kernel's device tree
/// blobs are `dtbs`.
pub open spec fn full_plan(job: ProvisionJob, release: Seq<char>, hash: Seq<char>, dtbs: Seq<Seq<char>>) -> Seq<PlannedView> {
    release_steps(job) + preparation_steps(job) + package_steps(job, release, hash) + boot_steps(job, release, dtbs)
}

/// The plan of a run of `job` in which every action succeeds with the
/// outcomes `outcomes`: the release, the hash and the blobs are read from the
/// outcomes of the actions that produce them.
pub open spec fn successful_plan(job: ProvisionJob, outcomes: Seq<OutcomeView>) -> Seq<PlannedView> {
    let n1 = preparation_steps(job).len();
    let release = without_newlines(outcomes[0].output());
    let hash = without_newlines(outcomes[n1 as int].output());
    let n2 = n1 + package_steps(job, release, hash).len();
    let dtbs = dtb_names(outcomes[n2 as int].entries());
    full_plan(job, release, hash, dtbs)
}

/// A failed action ends the run: the failure names that action's step and
/// category and carries what was reported, and no outcome fed afterwards makes
/// the run issue another action.
pub proof fn lemma_failure_ends_run(s: ProvisionerView, o: OutcomeView, later: Seq<OutcomeView>)
    requires
        pending(s) is Some,
        o is Failed,
    ensures
        advance(s, o).status == (StatusView::Failed {
            step: pending(s)->Some_0.step,
            kind: kind_of(pending(s)->Some_0.action),
            detail: o->Failed_detail,
        }),
        pending(advance(s, o)) is None,
        run(s, seq![o] + later) == (seq![pending(s)->Some_0], advance(s, o)),
{
    let outs = seq![o] + later;
    assert(outs[0] == o);
    assert(outs.drop_first() =~= later);
    let r = run(advance(s, o), later);
    if later.len() > 0 {
        assert(r == (Seq::<PlannedView>::empty(), advance(s, o)));
    }
    assert(seq![pending(s)->Some_0] + Seq::<PlannedView>::empty() =~= seq![pending(s)->Some_0]);
}

/// A run that stands in segment `s.segment` and gets only successes issues
/// the rest of that segment, then goes on from the state that the segment's
/// last outcome leads to.
proof fn lemma_segment_run(s: ProvisionerView, outcomes: Seq<OutcomeView>)
    requires
        s.status is Running,
        s.segment < 4,
        s.index < segment_steps(s, s.segment).len(),
        outcomes.len() >= segment_steps(s, s.segment).len() - s.index,
        forall|j: int| 0 <= j < segment_steps(s, s.segment).len() - s.index ==> succeeded(#[trigger] outcomes[j]),
    ensures
        ({
            let len = segment_steps(s, s.segment).len();
            let m = len - s.index;
            let last = ProvisionerView { index: (len - 1) as nat, ..s };
            let next = advance(last, outcomes[m - 1]);
            let r = run(next, outcomes.skip(m));
            run(s, outcomes) == (segment_steps(s, s.segment).subrange(s.index as int, len as int) + r.0, r.1)
        }),
    decreases segment_steps(s, s.segment).len() - s.index,
{
    let seg = segment_steps(s, s.segment);
    let len = seg.len();
    let m = len - s.index;
    let last = ProvisionerView { index: (len - 1) as nat, ..s };
    assert(succeeded(outcomes[0]));
    if s.index + 1 < len {
        let s1 = ProvisionerView { index: s.index + 1, ..s };
        assert(advance(s, outcomes[0]) == s1);
        let outs1 = outcomes.drop_first();
        assert forall|j: int| 0 <= j < segment_steps(s1, s1.segment).len() - s1.index implies succeeded(
            #[trigger] outs1[j],
        ) by {
            assert(outs1[j] == outcomes[j + 1]);
        }
        lemma_segment_run(s1, outs1);
        let last1 = ProvisionerView { index: (len - 1) as nat, ..s1 };
        assert(last1 == last);
        assert(outs1[m - 2] == outcomes[m - 1]);
        assert(outs1.skip(m - 1) =~= outcomes.skip(m));
        let r = run(advance(last, outcomes[m - 1]), outcomes.skip(m));
        assert(seq![seg[s.index as int]] + (seg.subrange((s.index + 1) as int, len as int) + r.0) =~= seg.subrange(
            s.index as int,
            len as int,
        ) + r.0);
    } else {
        assert(last == s);
        assert(outcomes.skip(1) =~= outcomes.drop_first());
        assert(seg.subrange(s.index as int, len as int) =~= seq![seg[s.index as int]]);
    }
}

/// A run in which every action succeeds issues exactly the plan, in its
/// order, and finishes. The kernel release in every boot artifact's name is
/// the one printed by the release query, and the password set is the hash
/// that openssl printed.
pub proof fn lemma_successful_run(job: ProvisionJob, outcomes: Seq<OutcomeView>)
    requires
        outcomes.len() == successful_plan(job, outcomes).len(),
        forall|i: int| 0 <= i < outcomes.len() ==> succeeded(#[trigger] outcomes[i]),
    ensures
        run(initial(job), outcomes).0 == successful_plan(job, outcomes),
        run(initial(job), outcomes).1.status == StatusView::Finished,
{
    let n1 = preparation_steps(job).len();
    let release = without_newlines(outcomes[0].output());
    let hash = without_newlines(outcomes[n1 as int].output());
    let n2 = n1 + package_steps(job, release, hash).len();
    let dtbs = dtb_names(outcomes[n2 as int].entries());
    let a = release_steps(job);
    let b = preparation_steps(job);
    let c = package_steps(job, release, hash);
    let d = boot_steps(job, release, dtbs);
    let total = a.len() + b.len() + c.len() + d.len();
    assert(successful_plan(job, outcomes) == a + b + c + d);

    let s0 = initial(job);
    assert(segment_steps(s0, 0) == a);
    lemma_segment_run(s0, outcomes);
    let s1 = ProvisionerView { segment: 1, index: 0, release, ..s0 };
    assert(ProvisionerView { index: 0, ..s0 } == s0);
    assert(advance(s0, outcomes[0]) == s1);
    assert(a.subrange(0, 1) =~= a);

    let o1 = outcomes.skip(1);
    assert(segment_steps(s1, 1) == b);
    assert forall|j: int| 0 <= j < b.len() implies succeeded(#[trigger] o1[j]) by {
        assert(o1[j] == outcomes[j + 1]);
    }
    lemma_segment_run(s1, o1);
    let last1 = ProvisionerView { index: (b.len() - 1) as nat, ..s1 };
    assert(o1[b.len() - 1] == outcomes[n1 as int]);
    let s2 = ProvisionerView { segment: 2, index: 0, password_hash: hash, ..s1 };
    assert(advance(last1, outcomes[n1 as int]) == s2);
    assert(b.subrange(0, b.len() as int) =~= b);

    let o2 = o1.skip(b.len() as int);
    assert(o2 =~= outcomes.skip((1 + n1) as int));
    assert(segment_steps(s2, 2) == c);
    assert forall|j: int| 0 <= j < c.len() implies succeeded(#[trigger] o2[j]) by {
        assert(o2[j] == outcomes[j + 1 + n1]);
    }
    lemma_segment_run(s2, o2);
    let last2 = ProvisionerView { index: (c.len() - 1) as nat, ..s2 };
    assert(o2[c.len() - 1] == outcomes[n2 as int]);
    let s3 = ProvisionerView { segment: 3, index: 0, dtbs, ..s2 };
    assert(advance(last2, outcomes[n2 as int]) == s3);
    assert(c.subrange(0, c.len() as int) =~= c);

    let o3 = o2.skip(c.len() as int);
    assert(o3 =~= outcomes.skip((1 + n2) as int));
    assert(segment_steps(s3, 3) == d);
    assert forall|j: int| 0 <= j < d.len() implies succeeded(#[trigger] o3[j]) by {
        assert(o3[j] == outcomes[j + 1 + n2]);
    }
    lemma_segment_run(s3, o3);
    let last3 = ProvisionerView { index: (d.len() - 1) as nat, ..s3 };
    let s4 = ProvisionerView { status: StatusView::Finished, ..last3 };
    assert(advance(last3, o3[d.len() - 1]) == s4);
    assert(d.subrange(0, d.len() as int) =~= d);
    let o4 = o3.skip(d.len() as int);
    assert(o4.len() == 0);
    assert(run(s4, o4) == (Seq::<PlannedView>::empty(), s4));
    assert(a + (b + (c + (d + Seq::<PlannedView>::empty()))) =~= a + b + c + d);
}

/// The steps of a list of planned actions.
pub open spec fn steps_of(p: Seq<PlannedView>) -> Seq<Step> {
    p.map_values(|x: PlannedView| x.step)
}

/// The order of the operations of a run that copies `dtb_count` device tree
/// blobs.
pub open spec fn step_order(dtb_count: nat) -> Seq<Step> {
    seq![
        Step::QueryKernelRelease,
        Step::UpdateHostPackages,
        Step::InstallHostPackages,
        Step::CreatePartitionTable,
        Step::CreatePartition,
        Step::SetBootFlag,
        Step::FormatPartition,
        Step::CreateMountPoint,
        Step::MountPartition,
        Step::BootstrapFirstStage,
        Step::BootstrapSecondStage,
        Step::InstallKernelModules,
        Step::CreateExtlinuxDir,
        Step::WriteExtlinuxConfig,
        Step::WriteHostname,
        Step::WriteHosts,
        Step::WriteFstab,
        Step::WriteSourcesList,
        Step::HashRootPassword,
        Step::SetRootPassword,
        Step::UpdateTargetPackages,
        Step::InstallTargetPackages,
        Step::CreateDtbDir,
        Step::ListDtbSources,
    ] + Seq::new(dtb_count, |i: int| Step::CopyDtb) + seq![
        Step::CopyKernelImage,
        Step::CopyKernelConfig,
        Step::CopySystemMap,
        Step::MakeKernelImage,
        Step::MakeInitramfs,
        Step::MakeRamdiskImage,
        Step::LinkKernelImage,
        Step::LinkInitramfs,
        Step::LinkDtbDir,
        Step::LinkDeviceTree,
        Step::Unmount,
    ]
}

/// A run's plan performs each operation once, in the fixed order of the
/// stages (only the device tree blob copies repeat, one per blob), and
/// unmounts the root partition exactly once, as its last action.
pub proof fn lemma_plan_step_order(job: ProvisionJob, release: Seq<char>, hash: Seq<char>, dtbs: Seq<Seq<char>>)
    ensures
        steps_of(full_plan(job, release, hash, dtbs)) == step_order(dtbs.len()),
        full_plan(job, release, hash, dtbs).last().step == Step::Unmount,
        forall|i: int|
            0 <= i < full_plan(job, release, hash, dtbs).len() - 1 ==> (#[trigger] full_plan(
                job,
                release,
                hash,
                dtbs,
            )[i]).step != Step::Unmount,
{
    let cfg = job.config;
    let kernel = job.kernel_path@;
    let a = release_steps(job);
    let b = preparation_steps(job);
    let c = package_steps(job, release, hash);
    let d = boot_steps(job, release, dtbs);
    let copies = dtbs.map_values(|n: Seq<char>| dtb_copy_step(cfg, kernel, release, n));
    let p = full_plan(job, release, hash, dtbs);
    let order = step_order(dtbs.len());
    assert(d == copies + boot_file_steps(cfg, kernel, release, dtbs).subrange(copies.len() as int, boot_file_steps(cfg, kernel, release, dtbs).len() as int)
        + boot_image_steps(cfg, release) + boot_link_steps(cfg, release, job.dtb_file@) + d.subrange(d.len() - 1, d.len() as int)) by {
        assert(boot_file_steps(cfg, kernel, release, dtbs) =~= copies + boot_file_steps(cfg, kernel, release, dtbs).subrange(copies.len() as int, boot_file_steps(cfg, kernel, release, dtbs).len() as int));
        assert(d.subrange(d.len() - 1, d.len() as int) =~= seq![d.last()]);
    }
    let head = a.len() + b.len() + c.len();
    assert(head == 24);
    assert(p.len() == 24 + dtbs.len() + 11);
    assert forall|i: int| 0 <= i < p.len() implies #[trigger] p[i].step == order[i] by {
        if i < 1 {
            assert(p[i] == a[i]);
        } else if i < 1 + b.len() {
            assert(p[i] == b[i - 1]);
        } else if i < head {
            assert(p[i] == c[i - 1 - b.len()]);
        } else if i < head + dtbs.len() {
            assert(p[i] == d[i - head]);
            assert(d[i - head] == copies[i - head]);
        } else {
            assert(p[i] == d[i - head]);
        }
    }
    assert(steps_of(p) =~= order);
    assert forall|i: int| 0 <= i < p.len() - 1 implies (#[trigger] p[i]).step != Step::Unmount by {
        assert(p[i].step == order[i]);
    }
    assert(p.last().step == order[p.len() - 1]);
}

/// If creating the partition table fails after the release query and the
/// host packages succeeded, nothing after it is run: the run has issued those
/// four actions and no other, and it ends failed on that step with what the
/// tool reported.
pub proof fn lemma_partition_table_failure(job: ProvisionJob, outcomes: Seq<OutcomeView>)
    requires
        outcomes.len() >= 4,
        succeeded(outcomes[0]),
        succeeded(outcomes[1]),
        succeeded(outcomes[2]),
        outcomes[3] is Failed,
    ensures
        run(initial(job), outcomes).0 == release_steps(job) + preparation_steps(job).take(3),
        run(initial(job), outcomes).0.last().step == Step::CreatePartitionTable,
        run(initial(job), outcomes).1.status == (StatusView::Failed {
            step: Step::CreatePartitionTable,
            kind: crate::pipeline::FailureKind::ExternalTool,
            detail: outcomes[3]->Failed_detail,
        }),
{
    let s0 = initial(job);
    let release = without_newlines(outcomes[0].output());
    let s1 = ProvisionerView { segment: 1, index: 0, release, ..s0 };
    assert(advance(s0, outcomes[0]) == s1);
    let s2 = ProvisionerView { index: 1, ..s1 };
    assert(advance(s1, outcomes[1]) == s2);
    let s3 = ProvisionerView { index: 2, ..s2 };
    assert(advance(s2, outcomes[2]) == s3);
    let b = preparation_steps(job);
    assert(pending(s3) == Some(b[2]));
    assert(b[2].step == Step::CreatePartitionTable);
    let o1 = outcomes.drop_first();
    let o2 = o1.drop_first();
    let o3 = o2.drop_first();
    assert(o1[0] == outcomes[1]);
    assert(o2[0] == outcomes[2]);
    assert(o3[0] == outcomes[3]);
    let later = o3.drop_first();
    assert(o3 =~= seq![outcomes[3]] + later);
    lemma_failure_ends_run(s3, outcomes[3], later);
    assert(run(s2, o2) == (seq![b[1]] + seq![b[2]], advance(s3, outcomes[3])));
    assert(run(s1, o1) == (seq![b[0]] + (seq![b[1]] + seq![b[2]]), advance(s3, outcomes[3])));
    assert(release_steps(job) + b.take(3) =~= seq![release_steps(job)[0]] + (seq![b[0]] + (seq![b[1]] + seq![b[2]])));
}

/// The path an action creates or fills, where it names one.
pub open spec fn produced_path(a: ActionView) -> Option<Seq<char>> {
    match a {
        ActionView::WriteFile { path, .. } => Some(path),
        ActionView::CreateDirAll { path } => Some(path),
        ActionView::CopyFile { to, .. } => Some(to),
        ActionView::Run { program, args } => if program == "mkimage"@ && args.len() > 0 {
            Some(args.last())
        } else {
            None
        },
        ActionView::ListDir { .. } => None,
    }
}

proof fn lemma_release_file_holds_release(cfg: ProvisionConfig, stem: Seq<char>, release: Seq<char>, tail: Seq<char>)
    ensures
        has_substring(release_file(cfg, stem, release) + tail, release),
{
    let head = cfg.mount_point@ + "/boot/"@ + stem + "-"@;
    let k = head.len() as int;
    let path = release_file(cfg, stem, release) + tail;
    assert(path =~= head + release + tail);
    assert(path.subrange(k, k + release.len()) =~= release);
}

/// Every path that the boot artifact stage creates or fills for the kernel
/// release `release` holds `release`: the device tree directory and its
/// blobs, the kernel image, configuration and symbol map, and the two U-Boot
/// images. No other release is named, so one run's artifacts agree.
pub proof fn lemma_boot_paths_hold_release(job: ProvisionJob, release: Seq<char>, dtbs: Seq<Seq<char>>)
    ensures
        ({
            let stage = dtb_prepare_steps(job.config, job.kernel_path@, release) + boot_steps(job, release, dtbs);
            forall|i: int| 0 <= i < stage.len() ==> (#[trigger] produced_path(stage[i].action) matches Some(path)
                ==> has_substring(path, release))
        }),
{
    let cfg = job.config;
    let kernel = job.kernel_path@;
    let pre = dtb_prepare_steps(cfg, kernel, release);
    let d = boot_steps(job, release, dtbs);
    let stage = pre + d;
    let files = boot_file_steps(cfg, kernel, release, dtbs);
    let images = boot_image_steps(cfg, release);
    let links = boot_link_steps(cfg, release, job.dtb_file@);
    let n = dtbs.len() as int;
    assert forall|i: int| 0 <= i < stage.len() implies (#[trigger] produced_path(stage[i].action) matches Some(path)
        ==> has_substring(path, release)) by {
        if i == 0 {
            lemma_release_file_holds_release(cfg, "dtb"@, release, Seq::empty());
            assert(dtb_dir(cfg, release) + Seq::<char>::empty() =~= dtb_dir(cfg, release));
        } else if i == 1 {
        } else if i < 2 + n {
            let name = dtbs[i - 2];
            assert(stage[i] == files[i - 2]);
            assert(files[i - 2] == dtb_copy_step(cfg, kernel, release, name));
            lemma_release_file_holds_release(cfg, "dtb"@, release, "/"@ + name);
            assert(dtb_dir(cfg, release) + "/"@ + name =~= release_file(cfg, "dtb"@, release) + ("/"@ + name));
        } else if i < 2 + n + 3 {
            assert(stage[i] == files[i - 2]);
            let j = i - 2 - n;
            let stem = if j == 0 { "zImage"@ } else if j == 1 { "config"@ } else { "System.map"@ };
            lemma_release_file_holds_release(cfg, stem, release, Seq::empty());
            assert(release_file(cfg, stem, release) + Seq::<char>::empty() =~= release_file(cfg, stem, release));
        } else if i < 2 + n + 6 {
            let j = i - 2 - n - 3;
            assert(stage[i] == images[j]);
            if j == 0 {
                lemma_release_file_holds_release(cfg, "uImage"@, release, Seq::empty());
                assert(release_file(cfg, "uImage"@, release) + Seq::<char>::empty() =~= release_file(cfg, "uImage"@, release));
            } else if j == 2 {
                lemma_release_file_holds_release(cfg, "uInitrd"@, release, Seq::empty());
                assert(release_file(cfg, "uInitrd"@, release) + Seq::<char>::empty() =~= release_file(cfg, "uInitrd"@, release));
            } else {
                reveal_strlit("chroot");
                reveal_strlit("mkimage");
                assert("chroot"@ != "mkimage"@) by { assert("chroot"@[0] != "mkimage"@[0]); }
            }
        } else {
            reveal_strlit("chroot");
            reveal_strlit("umount");
            reveal_strlit("mkimage");
            assert("chroot"@ != "mkimage"@) by { assert("chroot"@[0] != "mkimage"@[0]); }
            assert("umount"@ != "mkimage"@) by { assert("umount"@[0] != "mkimage"@[0]); }
            if i < 2 + n + 10 {
                assert(stage[i] == links[i - 2 - n - 6]);
            }
        }
    }
}

/// The kernel release is learned once: after the release query succeeded, no
/// outcome changes it, so every artifact of a run is named after the same
/// release.
pub proof fn lemma_release_fixed_once_learned(s: ProvisionerView, o: OutcomeView)
    requires
        s.segment >= 1,
    ensures
        advance(s, o).segment >= 1,
        advance(s, o).release == s.release,
{
}

} // verus!
