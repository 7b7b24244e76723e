use oemount::actions::{Answer, MountAction, Notice, Outcome, Step};
use oemount::errors::MountError;
use oemount::handler::ConfigHandler;
use oemount::request::{Config, MountOptions, Operation, Source};

fn base_config() -> Config {
    Config {
        all: false,
        fake: false,
        fork: false,
        internal_only: false,
        show_labels: false,
        no_mtab: false,
        fstab: None,
        options: MountOptions {
            mode: None,
            source: None,
            source_force: false,
            options: None,
            test_opts: None,
            read_only: false,
            read_write: false,
            types: None,
        },
        source: None,
        target: None,
        target_prefix: None,
        namespace: None,
        operation: Operation::Normal,
    }
}

fn drive(h: &mut ConfigHandler, answers: Vec<Answer>) -> (Vec<MountAction>, Vec<Notice>, Option<Outcome>) {
    let mut actions = Vec::new();
    let mut notices = Vec::new();
    let mut reply = h.start();
    let mut rest = answers.into_iter();
    loop {
        notices.extend(reply.notices);
        match reply.step {
            Step::Done(o) => return (actions, notices, Some(o)),
            Step::Ask(a) => {
                actions.push(a);
                match rest.next() {
                    Some(ans) => reply = h.next(ans),
                    None => return (actions, notices, None),
                }
            },
        }
    }
}

#[test]
fn a_bind_mount_checks_both_paths_and_carries_the_bind_flag() {
    let mut cfg = base_config();
    cfg.operation = Operation::Bind;
    cfg.source = Some(Source::Device("/a".into()));
    cfg.target = Some("/b".into());
    let mut h = ConfigHandler::new(cfg);
    let (actions, _notices, _outcome) = drive(
        &mut h,
        vec![Answer::Flag(true), Answer::Flag(true)],
    );
    assert_eq!(actions.len(), 3);
    assert_eq!(actions[0], MountAction::CheckPathExists { path: "/a".into() });
    assert_eq!(actions[1], MountAction::CheckPathExists { path: "/b".into() });
    match &actions[2] {
        MountAction::KernelMount { call } => {
            assert_eq!(call.source, Some(String::from("/a")));
            assert_eq!(call.target, "/b");
            assert_eq!(call.fstype, None);
            assert!(call.flags.bind);
            assert!(!call.flags.recursive);
            assert_eq!(call.data, None);
        },
        other => panic!("expected a kernel mount, got {:?}", other),
    }
}

#[test]
fn a_recursive_bind_adds_the_recursion_flag() {
    let mut cfg = base_config();
    cfg.operation = Operation::RBind;
    cfg.source = Some(Source::Device("/a".into()));
    cfg.target = Some("/b".into());
    let mut h = ConfigHandler::new(cfg);
    let (actions, _notices, _outcome) = drive(
        &mut h,
        vec![Answer::Flag(true), Answer::Flag(true)],
    );
    match &actions[2] {
        MountAction::KernelMount { call } => {
            assert!(call.flags.bind);
            assert!(call.flags.recursive);
        },
        other => panic!("expected a kernel mount, got {:?}", other),
    }
}

#[test]
fn a_bind_mount_with_a_label_source_is_a_validation_error() {
    let mut cfg = base_config();
    cfg.operation = Operation::Bind;
    cfg.source = Some(Source::Label("x".into()));
    cfg.target = Some("/b".into());
    let mut h = ConfigHandler::new(cfg);
    let (actions, _notices, outcome) = drive(&mut h, vec![]);
    assert!(actions.is_empty());
    assert_eq!(outcome, Some(Outcome::Completed(Err(MountError::SourceNotDevicePath))));
}

#[test]
fn a_bind_mount_needs_existing_paths() {
    let mut cfg = base_config();
    cfg.operation = Operation::Bind;
    cfg.source = Some(Source::Device("/a".into()));
    cfg.target = Some("/b".into());
    let mut h = ConfigHandler::new(cfg);
    let (_actions, _notices, outcome) = drive(&mut h, vec![Answer::Flag(false)]);
    assert_eq!(
        outcome,
        Some(Outcome::Completed(Err(MountError::PathNotFound { path: "/a".into() }))),
    );

    let mut cfg = base_config();
    cfg.operation = Operation::Bind;
    cfg.source = Some(Source::Device("/a".into()));
    cfg.target = Some("/b".into());
    let mut h = ConfigHandler::new(cfg);
    let (_actions, _notices, outcome) = drive(
        &mut h,
        vec![Answer::Flag(true), Answer::Flag(false)],
    );
    assert_eq!(
        outcome,
        Some(Outcome::Completed(Err(MountError::PathNotFound { path: "/b".into() }))),
    );
}

#[test]
fn a_failed_bind_mount_is_not_retried_externally() {
    let mut cfg = base_config();
    cfg.operation = Operation::Bind;
    cfg.source = Some(Source::Device("/a".into()));
    cfg.target = Some("/b".into());
    let mut h = ConfigHandler::new(cfg);
    let (actions, _notices, outcome) = drive(
        &mut h,
        vec![Answer::Flag(true), Answer::Flag(true), Answer::Mounted(Err(22))],
    );
    assert!(!actions.iter().any(|a| matches!(a, MountAction::RunFallbackMount { .. })));
    assert_eq!(outcome, Some(Outcome::Completed(Err(MountError::KernelMountFailed { errno: 22 }))));
}

#[test]
fn a_move_mount_with_a_label_source_fails_before_any_resolution() {
    let mut cfg = base_config();
    cfg.operation = Operation::Move;
    cfg.source = Some(Source::Label("x".into()));
    cfg.target = Some("/b".into());
    let mut h = ConfigHandler::new(cfg);
    let (actions, _notices, outcome) = drive(&mut h, vec![]);
    assert!(actions.is_empty());
    assert_eq!(outcome, Some(Outcome::Completed(Err(MountError::MoveNeedsDevicePath))));
}

#[test]
fn a_move_mount_requires_the_source_to_be_a_mount_point() {
    let mut cfg = base_config();
    cfg.operation = Operation::Move;
    cfg.source = Some(Source::Device("/a".into()));
    cfg.target = Some("/b".into());
    let mut h = ConfigHandler::new(cfg);
    let (actions, _notices, outcome) = drive(
        &mut h,
        vec![Answer::Flag(true), Answer::Flag(true), Answer::Flag(false)],
    );
    assert_eq!(actions[2], MountAction::CheckIsMountPoint { path: "/a".into() });
    assert_eq!(
        outcome,
        Some(Outcome::Completed(Err(MountError::NotAMountPoint { path: "/a".into() }))),
    );
}

#[test]
fn a_move_mount_carries_the_move_flag() {
    let mut cfg = base_config();
    cfg.operation = Operation::Move;
    cfg.source = Some(Source::Device("/a".into()));
    cfg.target = Some("/b".into());
    let mut h = ConfigHandler::new(cfg);
    let (actions, _notices, outcome) = drive(
        &mut h,
        vec![
            Answer::Flag(true),
            Answer::Flag(true),
            Answer::Flag(true),
            Answer::Mounted(Ok(())),
        ],
    );
    match &actions[3] {
        MountAction::KernelMount { call } => {
            assert_eq!(call.source, Some(String::from("/a")));
            assert_eq!(call.target, "/b");
            assert!(call.flags.move_mount);
            assert_eq!(call.fstype, None);
        },
        other => panic!("expected a kernel mount, got {:?}", other),
    }
    assert_eq!(outcome, Some(Outcome::Completed(Ok(()))));
}

#[test]
fn propagation_operations_need_only_an_existing_target() {
    let cases = [
        (Operation::MakeShared, true, false, false, false, false),
        (Operation::MakeSlave, false, true, false, false, false),
        (Operation::MakePrivate, false, false, true, false, false),
        (Operation::MakeUnbindable, false, false, false, true, false),
        (Operation::MakeRShared, true, false, false, false, true),
        (Operation::MakeRSlave, false, true, false, false, true),
        (Operation::MakeRPrivate, false, false, true, false, true),
        (Operation::MakeRUnbindable, false, false, false, true, true),
    ];
    for (op, shared, slave, private, unbindable, recursive) in cases {
        let mut cfg = base_config();
        cfg.operation = op;
        cfg.target = Some("/t".into());
        let mut h = ConfigHandler::new(cfg);
        let (actions, _notices, outcome) = drive(
            &mut h,
            vec![Answer::Flag(true), Answer::Mounted(Ok(()))],
        );
        assert_eq!(actions[0], MountAction::CheckPathExists { path: "/t".into() });
        match &actions[1] {
            MountAction::KernelMount { call } => {
                assert_eq!(call.source, None);
                assert_eq!(call.target, "/t");
                assert_eq!(call.fstype, None);
                assert_eq!(call.flags.shared, shared);
                assert_eq!(call.flags.slave, slave);
                assert_eq!(call.flags.private, private);
                assert_eq!(call.flags.unbindable, unbindable);
                assert_eq!(call.flags.recursive, recursive);
            },
            other => panic!("expected a kernel mount, got {:?}", other),
        }
        assert_eq!(outcome, Some(Outcome::Completed(Ok(()))));
    }
}

#[test]
fn a_propagation_run_never_reads_the_source_field() {
    let sources = [
        None,
        Some(Source::Device("/dev/whatever".into())),
        Some(Source::Label("IGNORED".into())),
        Some(Source::UUID("0000".into())),
    ];
    let mut traces: Vec<(Vec<MountAction>, Option<Outcome>)> = Vec::new();
    for source in sources {
        let mut cfg = base_config();
        cfg.operation = Operation::MakeRSlave;
        cfg.target = Some("/t".into());
        cfg.source = source;
        let mut h = ConfigHandler::new(cfg);
        let (actions, _notices, outcome) = drive(
            &mut h,
            vec![Answer::Flag(true), Answer::Mounted(Ok(()))],
        );
        traces.push((actions, outcome));
    }
    for t in &traces[1..] {
        assert_eq!(t, &traces[0]);
    }
}

#[test]
fn a_propagation_operation_without_a_target_fails_at_once() {
    let mut cfg = base_config();
    cfg.operation = Operation::MakeShared;
    cfg.source = Some(Source::Device("/dev/sda1".into()));
    let mut h = ConfigHandler::new(cfg);
    let (actions, _notices, outcome) = drive(&mut h, vec![]);
    assert!(actions.is_empty());
    assert_eq!(outcome, Some(Outcome::Completed(Err(MountError::MissingTarget))));
}

#[test]
fn a_missing_propagation_target_path_is_reported() {
    let mut cfg = base_config();
    cfg.operation = Operation::MakeRPrivate;
    cfg.target = Some("/t".into());
    let mut h = ConfigHandler::new(cfg);
    let (_actions, _notices, outcome) = drive(&mut h, vec![Answer::Flag(false)]);
    assert_eq!(
        outcome,
        Some(Outcome::Completed(Err(MountError::PathNotFound { path: "/t".into() }))),
    );
}
