use oemount::actions::{
    action_is_mutating, Answer, CmdOutput, MountAction, Notice, Outcome, Step,
};
use oemount::handler::ConfigHandler;
use oemount::request::{Config, MountOptions, Operation, Source};

fn base_config() -> Config {
    Config {
        all: false,
        fake: true,
        fork: false,
        internal_only: false,
        show_labels: false,
        no_mtab: false,
        fstab: None,
        options: MountOptions {
            mode: None,
            source: None,
            source_force: false,
            options: None,
            test_opts: None,
            read_only: false,
            read_write: false,
            types: None,
        },
        source: None,
        target: None,
        target_prefix: None,
        namespace: None,
        operation: Operation::Normal,
    }
}

fn drive(h: &mut ConfigHandler, answers: Vec<Answer>) -> (Vec<MountAction>, Vec<Notice>, Option<Outcome>) {
    let mut actions = Vec::new();
    let mut notices = Vec::new();
    let mut reply = h.start();
    let mut rest = answers.into_iter();
    loop {
        notices.extend(reply.notices);
        match reply.step {
            Step::Done(o) => return (actions, notices, Some(o)),
            Step::Ask(a) => {
                actions.push(a);
                match rest.next() {
                    Some(ans) => reply = h.next(ans),
                    None => return (actions, notices, None),
                }
            },
        }
    }
}

fn assert_fake_run(cfg: Config, answers: Vec<Answer>) {
    let mut h = ConfigHandler::new(cfg);
    let (actions, notices, outcome) = drive(&mut h, answers);
    for a in &actions {
        assert!(!action_is_mutating(a), "fake mode asked a mutating action: {:?}", a);
    }
    assert_eq!(outcome, Some(Outcome::Completed(Ok(()))));
    assert!(
        notices.iter().any(|n| matches!(n, Notice::FakeMount { .. })),
        "fake mode must report the call it would have made",
    );
}

#[test]
fn fake_normal_mount_reports_the_call_and_touches_nothing() {
    let mut cfg = base_config();
    cfg.source = Some(Source::Device("/dev/sda1".into()));
    cfg.target = Some("/mnt".into());
    cfg.options.types = Some("ext4".into());
    assert_fake_run(cfg, vec![]);
}

#[test]
fn fake_normal_mount_may_query_the_type_but_never_mounts() {
    let mut cfg = base_config();
    cfg.source = Some(Source::Device("/dev/sda1".into()));
    cfg.target = Some("/mnt".into());
    assert_fake_run(
        cfg,
        vec![Answer::Cmd(CmdOutput {
            success: true,
            stdout: "ext4\n".into(),
            stderr: String::new(),
        })],
    );
}

#[test]
fn fake_normal_mount_reports_the_exact_parameters() {
    let mut cfg = base_config();
    cfg.source = Some(Source::Device("/dev/sda1".into()));
    cfg.target = Some("/mnt".into());
    cfg.options.types = Some("ext4".into());
    cfg.options.read_only = true;
    let mut h = ConfigHandler::new(cfg);
    let (_actions, notices, _outcome) = drive(&mut h, vec![]);
    let call = notices
        .iter()
        .find_map(|n| match n {
            Notice::FakeMount { call } => Some(call),
            _ => None,
        })
        .expect("a fake-mount notice");
    assert_eq!(call.source, Some(String::from("/dev/sda1")));
    assert_eq!(call.target, "/mnt");
    assert_eq!(call.fstype, Some(String::from("ext4")));
    assert!(call.flags.read_only);
}

#[test]
fn fake_bind_mount_checks_paths_but_never_mounts() {
    let mut cfg = base_config();
    cfg.operation = Operation::Bind;
    cfg.source = Some(Source::Device("/a".into()));
    cfg.target = Some("/b".into());
    assert_fake_run(cfg, vec![Answer::Flag(true), Answer::Flag(true)]);
}

#[test]
fn fake_rbind_mount_never_mounts() {
    let mut cfg = base_config();
    cfg.operation = Operation::RBind;
    cfg.source = Some(Source::Device("/a".into()));
    cfg.target = Some("/b".into());
    assert_fake_run(cfg, vec![Answer::Flag(true), Answer::Flag(true)]);
}

#[test]
fn fake_move_mount_never_mounts() {
    let mut cfg = base_config();
    cfg.operation = Operation::Move;
    cfg.source = Some(Source::Device("/a".into()));
    cfg.target = Some("/b".into());
    assert_fake_run(cfg, vec![Answer::Flag(true), Answer::Flag(true), Answer::Flag(true)]);
}

#[test]
fn fake_propagation_changes_never_reach_the_kernel() {
    let ops = [
        Operation::MakeShared,
        Operation::MakeSlave,
        Operation::MakePrivate,
        Operation::MakeUnbindable,
        Operation::MakeRShared,
        Operation::MakeRSlave,
        Operation::MakeRPrivate,
        Operation::MakeRUnbindable,
    ];
    for op in ops {
        let mut cfg = base_config();
        cfg.operation = op;
        cfg.target = Some("/t".into());
        assert_fake_run(cfg, vec![Answer::Flag(true)]);
    }
}
