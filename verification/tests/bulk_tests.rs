use oemount::actions::{
    Answer, FileKind, ForkOutcome, FstabRead, MountAction, MountsRead, Notice, Outcome, Step,
    WaitOutcome,
};
use oemount::errors::MountError;
use oemount::handler::ConfigHandler;
use oemount::request::{Config, MountOptions, Operation};

fn bulk_config() -> Config {
    Config {
        all: true,
        fake: false,
        fork: false,
        internal_only: false,
        show_labels: false,
        no_mtab: false,
        fstab: None,
        options: MountOptions {
            mode: None,
            source: None,
            source_force: false,
            options: None,
            test_opts: None,
            read_only: false,
            read_write: false,
            types: None,
        },
        source: None,
        target: None,
        target_prefix: None,
        namespace: None,
        operation: Operation::Normal,
    }
}

fn drive(h: &mut ConfigHandler, answers: Vec<Answer>) -> (Vec<MountAction>, Vec<Notice>, Option<Outcome>) {
    let mut actions = Vec::new();
    let mut notices = Vec::new();
    let mut reply = h.start();
    let mut rest = answers.into_iter();
    loop {
        notices.extend(reply.notices);
        match reply.step {
            Step::Done(o) => return (actions, notices, Some(o)),
            Step::Ask(a) => {
                actions.push(a);
                match rest.next() {
                    Some(ans) => reply = h.next(ans),
                    None => return (actions, notices, None),
                }
            },
        }
    }
}

#[test]
fn the_bulk_run_reads_the_standard_table() {
    let mut h = ConfigHandler::new(bulk_config());
    let (actions, _notices, _outcome) = drive(&mut h, vec![]);
    assert_eq!(actions, vec![MountAction::ReadFstab { path: "/etc/fstab".into() }]);
}

#[test]
fn one_entry_is_prepared_gated_and_mounted_with_the_safety_flags() {
    let mut h = ConfigHandler::new(bulk_config());
    let (actions, notices, outcome) = drive(
        &mut h,
        vec![
            Answer::Fstab(FstabRead::Content("/dev/sdb1 /mnt ext4 defaults 0 0".into())),
            Answer::Flag(true),
            Answer::Kind(FileKind::BlockDevice),
            Answer::Mounts(MountsRead::Content(String::new())),
            Answer::Mounted(Ok(())),
        ],
    );
    assert_eq!(actions.len(), 5);
    assert!(matches!(actions[1], MountAction::CheckIsRoot));
    assert_eq!(actions[2], MountAction::QueryFileKind { path: "/dev/sdb1".into() });
    assert!(matches!(actions[3], MountAction::ReadMounts));
    match &actions[4] {
        MountAction::KernelMount { call } => {
            assert_eq!(call.source, Some(String::from("/dev/sdb1")));
            assert_eq!(call.target, "/mnt");
            assert_eq!(call.fstype, Some(String::from("ext4")));
            assert!(call.flags.no_exec);
            assert!(call.flags.no_suid);
            assert!(!call.flags.read_only);
            assert!(!call.flags.bind);
            assert_eq!(call.data, None);
        },
        other => panic!("expected a kernel mount, got {:?}", other),
    }
    assert!(notices.iter().any(|n| matches!(n, Notice::MtabUpdated { .. })));
    assert_eq!(outcome, Some(Outcome::Completed(Ok(()))));
}

#[test]
fn test_opts_skip_an_entry_whose_options_lack_a_token() {
    let mut cfg = bulk_config();
    cfg.options.test_opts = Some("ro".into());
    let mut h = ConfigHandler::new(cfg);
    let (actions, notices, outcome) = drive(
        &mut h,
        vec![
            Answer::Fstab(FstabRead::Content("/dev/sdb1 /mnt ext4 defaults 0 0".into())),
            Answer::Flag(true),
            Answer::Kind(FileKind::BlockDevice),
        ],
    );
    assert!(!actions.iter().any(|a| matches!(a, MountAction::KernelMount { .. })));
    assert!(!actions.iter().any(|a| matches!(a, MountAction::ReadMounts)));
    assert!(notices.contains(&Notice::SkippedTestOpts { target: "/mnt".into() }));
    assert_eq!(outcome, Some(Outcome::Completed(Ok(()))));
}

#[test]
fn test_opts_keep_an_entry_whose_options_cover_them() {
    let mut cfg = bulk_config();
    cfg.options.test_opts = Some("ro".into());
    let mut h = ConfigHandler::new(cfg);
    let (actions, _notices, _outcome) = drive(
        &mut h,
        vec![
            Answer::Fstab(FstabRead::Content("/dev/sdb1 /mnt ext4 ro,noauto 0 0".into())),
            Answer::Flag(true),
            Answer::Kind(FileKind::BlockDevice),
            Answer::Mounts(MountsRead::Content(String::new())),
        ],
    );
    assert!(actions.iter().any(|a| matches!(a, MountAction::KernelMount { .. })));
}

#[test]
fn an_already_mounted_entry_is_skipped_with_a_report() {
    let mut h = ConfigHandler::new(bulk_config());
    let table = "/dev/sdb1 /mnt ext4 rw 0 0\n";
    let (actions, notices, outcome) = drive(
        &mut h,
        vec![
            Answer::Fstab(FstabRead::Content("/dev/sdb1 /mnt ext4 defaults 0 0".into())),
            Answer::Flag(true),
            Answer::Kind(FileKind::BlockDevice),
            Answer::Mounts(MountsRead::Content(table.into())),
        ],
    );
    assert!(!actions.iter().any(|a| matches!(a, MountAction::KernelMount { .. })));
    assert!(notices.contains(&Notice::AlreadyMounted { target: "/mnt".into() }));
    assert_eq!(outcome, Some(Outcome::Completed(Ok(()))));
}

#[test]
fn a_swap_entry_is_left_to_the_swap_tool() {
    let mut h = ConfigHandler::new(bulk_config());
    let (actions, notices, outcome) = drive(
        &mut h,
        vec![
            Answer::Fstab(FstabRead::Content("/dev/sdc1 none swap sw 0 0".into())),
            Answer::Flag(true),
            Answer::Kind(FileKind::BlockDevice),
            Answer::Mounts(MountsRead::Content(String::new())),
        ],
    );
    assert!(!actions.iter().any(|a| matches!(a, MountAction::KernelMount { .. })));
    assert!(notices.contains(&Notice::SkippedSwap { source: "/dev/sdc1".into() }));
    assert_eq!(outcome, Some(Outcome::Completed(Ok(()))));
}

#[test]
fn malformed_lines_are_warned_and_the_rest_mounted() {
    let mut h = ConfigHandler::new(bulk_config());
    let table = "# header\njunk\n/dev/sdb1 /mnt ext4 defaults 0 0\n";
    let (_actions, notices, _outcome) = drive(
        &mut h,
        vec![Answer::Fstab(FstabRead::Content(table.into())), Answer::Flag(true)],
    );
    assert!(notices.contains(&Notice::MalformedFstabLine { line: 2 }));
}

#[test]
fn a_table_without_entries_aborts_the_run() {
    let mut h = ConfigHandler::new(bulk_config());
    let (_actions, _notices, outcome) = drive(
        &mut h,
        vec![Answer::Fstab(FstabRead::Content("# only comments\n".into()))],
    );
    assert_eq!(outcome, Some(Outcome::Completed(Err(MountError::FstabEmpty))));
}

#[test]
fn a_directory_as_table_is_an_error() {
    let mut cfg = bulk_config();
    cfg.all = false;
    cfg.fstab = Some("/etc".into());
    let mut h = ConfigHandler::new(cfg);
    let (actions, _notices, outcome) = drive(&mut h, vec![Answer::Fstab(FstabRead::IsDirectory)]);
    assert_eq!(actions, vec![MountAction::ReadFstab { path: "/etc".into() }]);
    assert_eq!(
        outcome,
        Some(Outcome::Completed(Err(MountError::FstabIsDirectory { path: "/etc".into() }))),
    );
}

#[test]
fn an_unreadable_table_is_an_error() {
    let mut cfg = bulk_config();
    cfg.all = false;
    cfg.fstab = Some("/tab".into());
    let mut h = ConfigHandler::new(cfg);
    let (_actions, _notices, outcome) = drive(
        &mut h,
        vec![Answer::Fstab(FstabRead::OpenError("permission denied".into()))],
    );
    assert_eq!(
        outcome,
        Some(Outcome::Completed(Err(MountError::FstabOpenFailed {
            path: "/tab".into(),
            detail: "permission denied".into(),
        }))),
    );
}

#[test]
fn a_failed_entry_is_reported_and_the_run_continues() {
    let mut cfg = bulk_config();
    cfg.internal_only = true;
    let mut h = ConfigHandler::new(cfg);
    let table = "/dev/sdb1 /mnt ext4 defaults 0 0\n/dev/sdc1 /data ext4 defaults 0 0\n";
    let (actions, notices, outcome) = drive(
        &mut h,
        vec![
            Answer::Fstab(FstabRead::Content(table.into())),
            // first entry: prepared, gated, mount fails
            Answer::Flag(true),
            Answer::Kind(FileKind::BlockDevice),
            Answer::Mounts(MountsRead::Content(String::new())),
            Answer::Mounted(Err(13)),
            // second entry still runs
            Answer::Flag(true),
            Answer::Kind(FileKind::BlockDevice),
            Answer::Mounts(MountsRead::Content(String::new())),
            Answer::Mounted(Ok(())),
        ],
    );
    let mounts: Vec<&MountAction> = actions
        .iter()
        .filter(|a| matches!(a, MountAction::KernelMount { .. }))
        .collect();
    assert_eq!(mounts.len(), 2);
    assert!(notices.iter().any(|n| matches!(
        n,
        Notice::EntryFailed { error: MountError::KernelMountFailed { errno: 13 }, .. },
    )));
    assert_eq!(outcome, Some(Outcome::Completed(Ok(()))));
}

#[test]
fn a_failed_preparation_only_costs_that_entry() {
    let mut h = ConfigHandler::new(bulk_config());
    let table = "/img/a.img /a ext4 defaults 0 0\n/dev/sdc1 /data ext4 defaults 0 0\n";
    let (_actions, notices, outcome) = drive(
        &mut h,
        vec![
            Answer::Fstab(FstabRead::Content(table.into())),
            Answer::Flag(true),
            Answer::Kind(FileKind::NotBlock),
            Answer::Cmd(oemount::actions::CmdOutput {
                success: false,
                stdout: String::new(),
                stderr: "no free loop device".into(),
            }),
            Answer::Flag(true),
            Answer::Kind(FileKind::BlockDevice),
            Answer::Mounts(MountsRead::Content(String::new())),
            Answer::Mounted(Ok(())),
        ],
    );
    assert!(notices.iter().any(|n| matches!(
        n,
        Notice::EntryFailed { error: MountError::LoopSetupFailed { .. }, .. },
    )));
    assert_eq!(outcome, Some(Outcome::Completed(Ok(()))));
}

#[test]
fn forked_runs_spawn_a_worker_per_entry_and_reap_them_all() {
    let mut cfg = bulk_config();
    cfg.fork = true;
    let mut h = ConfigHandler::new(cfg);
    let table = "/dev/sdb1 /mnt ext4 defaults 0 0\n/dev/sdc1 /data ext4 defaults 0 0\n";
    let (actions, notices, outcome) = drive(
        &mut h,
        vec![
            Answer::Fstab(FstabRead::Content(table.into())),
            Answer::Flag(true),
            Answer::Kind(FileKind::BlockDevice),
            Answer::Mounts(MountsRead::Content(String::new())),
            Answer::Forked(ForkOutcome::Parent(101)),
            Answer::Flag(true),
            Answer::Kind(FileKind::BlockDevice),
            Answer::Mounts(MountsRead::Content(String::new())),
            Answer::Forked(ForkOutcome::Parent(102)),
            Answer::Waited(WaitOutcome::ChildExited),
            Answer::Waited(WaitOutcome::ChildSignaled),
            Answer::Waited(WaitOutcome::NoChildren),
        ],
    );
    let forks = actions.iter().filter(|a| matches!(a, MountAction::Fork)).count();
    let waits = actions.iter().filter(|a| matches!(a, MountAction::WaitChild)).count();
    assert_eq!(forks, 2);
    assert_eq!(waits, 3);
    assert!(notices.contains(&Notice::ForkedChild { pid: 101 }));
    assert!(notices.contains(&Notice::ForkedChild { pid: 102 }));
    assert!(!actions.iter().any(|a| matches!(a, MountAction::KernelMount { .. })));
    assert_eq!(outcome, Some(Outcome::Completed(Ok(()))));
}

#[test]
fn the_forked_child_mounts_its_entry_and_exits() {
    let mut cfg = bulk_config();
    cfg.fork = true;
    let mut h = ConfigHandler::new(cfg);
    let (actions, _notices, outcome) = drive(
        &mut h,
        vec![
            Answer::Fstab(FstabRead::Content("/dev/sdb1 /mnt ext4 defaults 0 0".into())),
            Answer::Flag(true),
            Answer::Kind(FileKind::BlockDevice),
            Answer::Mounts(MountsRead::Content(String::new())),
            Answer::Forked(ForkOutcome::Child),
            Answer::Mounted(Ok(())),
        ],
    );
    assert!(actions.iter().any(|a| matches!(a, MountAction::KernelMount { .. })));
    assert_eq!(outcome, Some(Outcome::ChildExit(0)));
}

#[test]
fn a_failing_child_exits_non_zero() {
    let mut cfg = bulk_config();
    cfg.fork = true;
    cfg.internal_only = true;
    let mut h = ConfigHandler::new(cfg);
    let (_actions, notices, outcome) = drive(
        &mut h,
        vec![
            Answer::Fstab(FstabRead::Content("/dev/sdb1 /mnt ext4 defaults 0 0".into())),
            Answer::Flag(true),
            Answer::Kind(FileKind::BlockDevice),
            Answer::Mounts(MountsRead::Content(String::new())),
            Answer::Forked(ForkOutcome::Child),
            Answer::Mounted(Err(13)),
        ],
    );
    assert!(notices.iter().any(|n| matches!(n, Notice::EntryFailed { .. })));
    assert_eq!(outcome, Some(Outcome::ChildExit(1)));
}

#[test]
fn a_fork_failure_aborts_the_run() {
    let mut cfg = bulk_config();
    cfg.fork = true;
    let mut h = ConfigHandler::new(cfg);
    let (_actions, _notices, outcome) = drive(
        &mut h,
        vec![
            Answer::Fstab(FstabRead::Content("/dev/sdb1 /mnt ext4 defaults 0 0".into())),
            Answer::Flag(true),
            Answer::Kind(FileKind::BlockDevice),
            Answer::Mounts(MountsRead::Content(String::new())),
            Answer::Forked(ForkOutcome::Failed(11)),
        ],
    );
    assert_eq!(outcome, Some(Outcome::Completed(Err(MountError::ForkFailed { errno: 11 }))));
}

#[test]
fn a_wait_failure_aborts_the_reaping() {
    let mut cfg = bulk_config();
    cfg.fork = true;
    let mut h = ConfigHandler::new(cfg);
    let (_actions, _notices, outcome) = drive(
        &mut h,
        vec![
            Answer::Fstab(FstabRead::Content("/dev/sdb1 /mnt ext4 defaults 0 0".into())),
            Answer::Flag(true),
            Answer::Kind(FileKind::BlockDevice),
            Answer::Mounts(MountsRead::Content(String::new())),
            Answer::Forked(ForkOutcome::Parent(101)),
            Answer::Waited(WaitOutcome::Failed(4)),
        ],
    );
    assert_eq!(outcome, Some(Outcome::Completed(Err(MountError::WaitFailed { errno: 4 }))));
}

#[test]
fn an_alternative_table_runs_after_the_standard_one() {
    let mut cfg = bulk_config();
    cfg.fstab = Some("/tab".into());
    let mut h = ConfigHandler::new(cfg);
    let (actions, _notices, outcome) = drive(
        &mut h,
        vec![
            Answer::Fstab(FstabRead::Content("/dev/sdb1 /mnt ext4 defaults 0 0".into())),
            Answer::Flag(true),
            Answer::Kind(FileKind::BlockDevice),
            Answer::Mounts(MountsRead::Content(String::new())),
            Answer::Mounted(Ok(())),
            Answer::Fstab(FstabRead::Content("/dev/sdd1 /alt ext4 defaults 0 0".into())),
            Answer::Flag(true),
            Answer::Kind(FileKind::BlockDevice),
            Answer::Mounts(MountsRead::Content(String::new())),
            Answer::Mounted(Ok(())),
        ],
    );
    assert_eq!(actions[0], MountAction::ReadFstab { path: "/etc/fstab".into() });
    assert_eq!(actions[5], MountAction::ReadFstab { path: "/tab".into() });
    assert_eq!(outcome, Some(Outcome::Completed(Ok(()))));
}

#[test]
fn fake_bulk_entries_are_reported_but_not_mounted() {
    let mut cfg = bulk_config();
    cfg.fake = true;
    let mut h = ConfigHandler::new(cfg);
    let (actions, notices, outcome) = drive(
        &mut h,
        vec![
            Answer::Fstab(FstabRead::Content("/dev/sdb1 /mnt ext4 defaults 0 0".into())),
            Answer::Flag(true),
            Answer::Kind(FileKind::BlockDevice),
            Answer::Mounts(MountsRead::Content(String::new())),
        ],
    );
    assert!(!actions.iter().any(|a| matches!(a, MountAction::KernelMount { .. })));
    assert!(notices.iter().any(|n| matches!(n, Notice::FakeMount { .. })));
    assert_eq!(outcome, Some(Outcome::Completed(Ok(()))));
}
