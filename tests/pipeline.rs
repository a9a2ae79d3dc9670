use emmc_provisioner::action::{Action, Outcome, Planned, Step};
use emmc_provisioner::config::ProvisionConfig;
use emmc_provisioner::job::ProvisionJob;
use emmc_provisioner::pipeline::{FailureKind, Provisioner, Status};

fn job() -> ProvisionJob {
    ProvisionJob::new(
        ProvisionConfig::standard(),
        "/dev/mmcblk0",
        "/src/linux-6.1.57",
        "rk322x-box.dtb",
        "board1",
        "secret",
    )
    .unwrap()
}

/// Feeds the provisioner what a gateway standing in for the real tools
/// reports, failing the first action of `fail_at`.
fn mocked_run(p: &mut Provisioner, fail_at: Option<Step>) -> Vec<Planned> {
    let mut issued = Vec::new();
    while let Some(planned) = p.next_action() {
        let outcome = if Some(planned.step) == fail_at {
            Outcome::Failed { detail: "exit status: 1".to_string() }
        } else {
            match planned.step {
                Step::QueryKernelRelease => Outcome::Succeeded { output: "6.1.57\n".to_string() },
                Step::HashRootPassword => Outcome::Succeeded { output: "$1$salt$hash\n".to_string() },
                Step::ListDtbSources => Outcome::Listed {
                    entries: vec![
                        "rk322x-box.dtb".to_string(),
                        "Makefile".to_string(),
                        "rk3288-evb.dtb".to_string(),
                        "rk322x.dtsi".to_string(),
                    ],
                },
                _ => Outcome::Succeeded { output: String::new() },
            }
        };
        p.record(outcome);
        issued.push(planned);
        assert!(issued.len() < 1000);
    }
    issued
}

fn program(p: &Planned) -> Option<&str> {
    match &p.action {
        Action::Run { program, .. } => Some(program.as_str()),
        _ => None,
    }
}

#[test]
fn successful_run_follows_fixed_order() {
    let mut p = Provisioner::new(job());
    let issued = mocked_run(&mut p, None);
    let steps: Vec<Step> = issued.iter().map(|x| x.step).collect();
    assert_eq!(
        steps,
        vec![
            Step::QueryKernelRelease,
            Step::UpdateHostPackages,
            Step::InstallHostPackages,
            Step::CreatePartitionTable,
            Step::CreatePartition,
            Step::SetBootFlag,
            Step::FormatPartition,
            Step::CreateMountPoint,
            Step::MountPartition,
            Step::BootstrapFirstStage,
            Step::BootstrapSecondStage,
            Step::InstallKernelModules,
            Step::CreateExtlinuxDir,
            Step::WriteExtlinuxConfig,
            Step::WriteHostname,
            Step::WriteHosts,
            Step::WriteFstab,
            Step::WriteSourcesList,
            Step::HashRootPassword,
            Step::SetRootPassword,
            Step::UpdateTargetPackages,
            Step::InstallTargetPackages,
            Step::CreateDtbDir,
            Step::ListDtbSources,
            Step::CopyDtb,
            Step::CopyDtb,
            Step::CopyKernelImage,
            Step::CopyKernelConfig,
            Step::CopySystemMap,
            Step::MakeKernelImage,
            Step::MakeInitramfs,
            Step::MakeRamdiskImage,
            Step::LinkKernelImage,
            Step::LinkInitramfs,
            Step::LinkDtbDir,
            Step::LinkDeviceTree,
            Step::Unmount,
        ]
    );
    assert!(matches!(p.status(), Status::Finished));
    assert!(p.next_action().is_none());
    assert_eq!(p.kernel_release(), "6.1.57");
}

#[test]
fn successful_run_unmounts_once_at_the_end() {
    let mut p = Provisioner::new(job());
    let issued = mocked_run(&mut p, None);
    let unmounts: Vec<usize> =
        (0..issued.len()).filter(|&i| program(&issued[i]) == Some("umount")).collect();
    assert_eq!(unmounts, vec![issued.len() - 1]);
    for tool in ["parted", "mkfs.ext4", "mount", "debootstrap", "openssl", "mkimage", "umount"] {
        let n = issued.iter().filter(|x| program(x) == Some(tool)).count();
        let expected = match tool {
            "parted" => 3,
            "mkimage" => 2,
            _ => 1,
        };
        assert_eq!(n, expected, "{}", tool);
    }
}

#[test]
fn successful_run_uses_the_queried_release() {
    let mut p = Provisioner::new(job());
    let issued = mocked_run(&mut p, None);
    let boot: Vec<&Planned> = issued
        .iter()
        .skip_while(|x| x.step != Step::CreateDtbDir)
        .collect();
    let mut produced = Vec::new();
    for x in &boot {
        match &x.action {
            Action::CreateDirAll { path } => produced.push(path.clone()),
            Action::CopyFile { to, .. } => produced.push(to.clone()),
            Action::Run { program, args } if program == "mkimage" => produced.push(args.last().unwrap().clone()),
            _ => {}
        }
    }
    assert_eq!(produced.len(), 1 + 2 + 3 + 2);
    for path in &produced {
        assert!(path.contains("6.1.57"), "{}", path);
        assert!(!path.contains("6.1.57\n"));
    }
    assert!(produced.contains(&"/mnt/rootfs/boot/dtb-6.1.57/rk3288-evb.dtb".to_string()));
    let set_password = issued.iter().find(|x| x.step == Step::SetRootPassword).unwrap();
    match &set_password.action {
        Action::Run { args, .. } => assert_eq!(args[3], "$1$salt$hash"),
        other => panic!("{:?}", other),
    }
}

#[test]
fn partition_table_failure_stops_the_run() {
    let mut p = Provisioner::new(job());
    let issued = mocked_run(&mut p, Some(Step::CreatePartitionTable));
    let steps: Vec<Step> = issued.iter().map(|x| x.step).collect();
    assert_eq!(
        steps,
        vec![
            Step::QueryKernelRelease,
            Step::UpdateHostPackages,
            Step::InstallHostPackages,
            Step::CreatePartitionTable
        ]
    );
    match p.status() {
        Status::Failed(f) => {
            assert_eq!(f.step, Step::CreatePartitionTable);
            assert_eq!(f.kind, FailureKind::ExternalTool);
            assert_eq!(f.detail, "exit status: 1");
        }
        other => panic!("{:?}", other),
    }
    assert!(p.next_action().is_none());
    p.record(Outcome::Succeeded { output: String::new() });
    assert!(p.next_action().is_none());
}

#[test]
fn file_failure_is_an_io_failure() {
    let mut p = Provisioner::new(job());
    let issued = mocked_run(&mut p, Some(Step::WriteHosts));
    assert_eq!(issued.last().unwrap().step, Step::WriteHosts);
    assert!(issued.iter().all(|x| program(x) != Some("umount")));
    match p.status() {
        Status::Failed(f) => {
            assert_eq!(f.step, Step::WriteHosts);
            assert_eq!(f.kind, FailureKind::Io);
        }
        other => panic!("{:?}", other),
    }
}

#[test]
fn release_query_failure_happens_before_the_device_is_touched() {
    let mut p = Provisioner::new(job());
    let issued = mocked_run(&mut p, Some(Step::QueryKernelRelease));
    assert_eq!(issued.len(), 1);
    assert_eq!(p.kernel_release(), "");
}

#[test]
fn step_descriptions() {
    assert_eq!(Step::CreatePartitionTable.description(), "create the MBR partition table");
    assert_eq!(Step::Unmount.description(), "unmount the root partition");
}
