//! Laws of the mount machine, stated over whole runs. A run is the
//! machine driven from `start_spec` by a sequence of answers; its trace
//! is the sequence of actions it asks of the driver. The laws say which
//! actions a run can never contain: a fake-mode run never mutates
//! anything, an already-mounted target is never mounted again, and a
//! propagation request behaves identically whatever its source field
//! holds.
use vstd::prelude::*;

use crate::actions::{action_mutates, AnswerV, MountActionV, MountsReadV, NoticeV, OutcomeV, StepV};
use crate::errors::MountErrorV;
use crate::machine::{dispatch_spec, next_spec, start_spec, ProcStateV};
use crate::mounts::mounts_table_lists;
use crate::request::{is_propagation, same_but_source, ConfigV, Operation};

verus! {

/// The actions a machine asks of its driver from a given state and
/// pending step, when the driver answers with `answers`, in order. The
/// trace ends at a `Done` step or when the answers run out.
pub open spec fn run_actions(
    cfg: ConfigV,
    st: ProcStateV,
    step: StepV,
    answers: Seq<AnswerV>,
) -> Seq<MountActionV>
    decreases answers.len(),
{
    match step {
        StepV::Done(_) => Seq::empty(),
        StepV::Ask(a) => seq![a] + if answers.len() == 0 {
            Seq::<MountActionV>::empty()
        } else {
            let t = next_spec(cfg, st, answers[0]);
            run_actions(cfg, t.state, t.step, answers.drop_first())
        },
    }
}

/// The whole trace of a run from its start.
pub open spec fn machine_actions(cfg: ConfigV, answers: Seq<AnswerV>) -> Seq<MountActionV> {
    let t = start_spec(cfg);
    run_actions(cfg, t.state, t.step, answers)
}

/// The induction behind the avoidance laws: if an invariant holds of
/// the current state, every transition from an invariant state on an
/// admissible answer keeps the invariant and asks no bad action, every
/// answer of the run is admissible, and the pending ask is not bad,
/// then the whole trace is free of bad actions.
proof fn lemma_run_avoids(
    cfg: ConfigV,
    st: ProcStateV,
    step: StepV,
    answers: Seq<AnswerV>,
    inv: spec_fn(ProcStateV) -> bool,
    ok: spec_fn(AnswerV) -> bool,
    bad: spec_fn(MountActionV) -> bool,
)
    requires
        inv(st),
        forall|s: ProcStateV, a: AnswerV|
            inv(s) && ok(a) ==> inv(#[trigger] next_spec(cfg, s, a).state),
        forall|s: ProcStateV, a: AnswerV|
            inv(s) && ok(a) ==> match #[trigger] next_spec(cfg, s, a).step {
                StepV::Ask(act) => !bad(act),
                StepV::Done(_) => true,
            },
        forall|i: int| 0 <= i < answers.len() ==> ok(#[trigger] answers[i]),
        match step {
            StepV::Ask(a0) => !bad(a0),
            StepV::Done(_) => true,
        },
    ensures
        forall|i: int|
            0 <= i < run_actions(cfg, st, step, answers).len() ==> !bad(
                #[trigger] run_actions(cfg, st, step, answers)[i],
            ),
    decreases answers.len(),
{
    match step {
        StepV::Done(_) => {},
        StepV::Ask(a0) => {
            if answers.len() == 0 {
            } else {
                let t = next_spec(cfg, st, answers[0]);
                assert(ok(answers[0]));
                lemma_run_avoids(cfg, t.state, t.step, answers.drop_first(), inv, ok, bad);
                let whole = run_actions(cfg, st, step, answers);
                let rest = run_actions(cfg, t.state, t.step, answers.drop_first());
                assert(whole == seq![a0] + rest);
                assert forall|i: int| 0 <= i < whole.len() implies !bad(whole[i]) by {
                    if i == 0 {
                        assert(whole[0] == a0);
                    } else {
                        assert(whole[i] == rest[i - 1]);
                    }
                }
            }
        },
    }
}

/// The states a run can sit in while no mutating action has been asked
/// and, under fake mode without a bulk table or namespace, none ever
/// will be.
pub open spec fn fake_safe_state(s: ProcStateV) -> bool {
    match s {
        ProcStateV::Init => true,
        ProcStateV::AwaitNamespace => true,
        ProcStateV::AwaitLabelDevice { .. } => true,
        ProcStateV::AwaitUuidDevice { .. } => true,
        ProcStateV::AwaitFsType { .. } => true,
        ProcStateV::BindSrcCheck { .. } => true,
        ProcStateV::BindTgtCheck { .. } => true,
        ProcStateV::MoveSrcCheck { .. } => true,
        ProcStateV::MoveTgtCheck { .. } => true,
        ProcStateV::MoveMountPointCheck { .. } => true,
        ProcStateV::PropTgtCheck { .. } => true,
        ProcStateV::Finished => true,
        _ => false,
    }
}

/// Fake mode is a no-op towards the kernel and every external mutation:
/// a run of any of the eleven operations under `fake`, with no bulk
/// table and no namespace switch on the request, never asks its driver
/// for a mutating action — no kernel mount, no fallback mount, no loop
/// attach, no namespace switch, no fork — whatever the driver answers.
/// (A namespace switch is requested before the handlers run and a bulk
/// run prepares sources even under fake mode, so the law holds of
/// requests without those.)
pub proof fn fake_mode_mutates_nothing(cfg: ConfigV, answers: Seq<AnswerV>)
    requires
        cfg.fake,
        !cfg.all,
        cfg.fstab is None,
        cfg.namespace is None,
    ensures
        forall|i: int|
            0 <= i < machine_actions(cfg, answers).len() ==> !action_mutates(
                #[trigger] machine_actions(cfg, answers)[i],
            ),
{
    let t0 = start_spec(cfg);
    assert(fake_safe_state(t0.state));
    assert forall|s: ProcStateV, a: AnswerV| fake_safe_state(s) implies fake_safe_state(
        #[trigger] next_spec(cfg, s, a).state,
    ) && match next_spec(cfg, s, a).step {
        StepV::Ask(act) => !action_mutates(act),
        StepV::Done(_) => true,
    } by {
        let t = next_spec(cfg, s, a);
        assert(t == next_spec(cfg, s, a));
    }
    lemma_run_avoids(
        cfg,
        t0.state,
        t0.step,
        answers,
        |s: ProcStateV| fake_safe_state(s),
        |a: AnswerV| true,
        |act: MountActionV| action_mutates(act),
    );
}

/// Whether the action mounts, attaches a loop device, or forks: what
/// an already-mounted target must never trigger.
pub open spec fn action_mounts(a: MountActionV) -> bool {
    match a {
        MountActionV::KernelMount { .. } => true,
        MountActionV::RunFallbackMount { .. } => true,
        MountActionV::RunLosetup { .. } => true,
        MountActionV::Fork => true,
        _ => false,
    }
}

/// Whether every mount-table answer in the run reports `target` as
/// already mounted.
pub open spec fn always_mounted_answers(answers: Seq<AnswerV>, target: Seq<char>) -> bool {
    forall|i: int|
        0 <= i < answers.len() ==> match #[trigger] answers[i] {
            AnswerV::Mounts(MountsReadV::Content(c)) => mounts_table_lists(c, target),
            _ => true,
        }
}

/// The states of a normal run before the mount-table gate has let it
/// through.
pub open spec fn pre_mount_state(s: ProcStateV, target: Seq<char>) -> bool {
    match s {
        ProcStateV::Init => true,
        ProcStateV::AwaitNamespace => true,
        ProcStateV::AwaitLabelDevice { .. } => true,
        ProcStateV::AwaitUuidDevice { .. } => true,
        ProcStateV::AwaitFsType { target: t, .. } => t == target,
        ProcStateV::AwaitMounts { target: t, .. } => t == target,
        ProcStateV::Finished => true,
        _ => false,
    }
}

/// Mounting is idempotent at the already-mounted gate: a normal-mount
/// run whose target the kernel mount table already lists never asks
/// for a mount, a fallback, a loop attach or a fork. Mounting a target
/// twice therefore reaches the kernel at most once.
pub proof fn already_mounted_never_mounts(cfg: ConfigV, answers: Seq<AnswerV>, target: Seq<char>)
    requires
        !cfg.all,
        cfg.fstab is None,
        cfg.operation == Operation::Normal,
        cfg.target == Some(target),
        always_mounted_answers(answers, target),
    ensures
        forall|i: int|
            0 <= i < machine_actions(cfg, answers).len() ==> !action_mounts(
                #[trigger] machine_actions(cfg, answers)[i],
            ),
{
    let t0 = start_spec(cfg);
    assert(pre_mount_state(t0.state, target));
    assert forall|s: ProcStateV, a: AnswerV|
        pre_mount_state(s, target) && (match a {
            AnswerV::Mounts(MountsReadV::Content(c)) => mounts_table_lists(c, target),
            _ => true,
        }) implies pre_mount_state(#[trigger] next_spec(cfg, s, a).state, target) && match next_spec(
        cfg,
        s,
        a,
    ).step {
        StepV::Ask(act) => !action_mounts(act),
        StepV::Done(_) => true,
    } by {
        let t = next_spec(cfg, s, a);
        assert(t == next_spec(cfg, s, a));
    }
    lemma_run_avoids(
        cfg,
        t0.state,
        t0.step,
        answers,
        |s: ProcStateV| pre_mount_state(s, target),
        |a: AnswerV| match a {
            AnswerV::Mounts(MountsReadV::Content(c)) => mounts_table_lists(c, target),
            _ => true,
        },
        |act: MountActionV| action_mounts(act),
    );
}

/// The already-mounted gate itself: when the mount table lists the
/// target, the very next transition of a normal run ends it with
/// success and reports exactly the skip — no further action at all.
pub proof fn already_mounted_reports_skip(
    cfg: ConfigV,
    device: Seq<char>,
    fstype: Seq<char>,
    target: Seq<char>,
    c: Seq<char>,
)
    requires
        mounts_table_lists(c, target),
    ensures
        ({
            let t = next_spec(
                cfg,
                ProcStateV::AwaitMounts { device, fstype, target },
                AnswerV::Mounts(MountsReadV::Content(c)),
            );
            &&& t.step == StepV::Done(OutcomeV::Completed(Ok(())))
            &&& t.notices == seq![NoticeV::AlreadyMounted { target }]
            &&& t.state == ProcStateV::Finished
        }),
{
}

/// The dispatcher of a propagation operation reads nothing but the
/// target: two requests that differ only in their source dispatch
/// identically.
pub proof fn propagation_dispatch_ignores_source(c1: ConfigV, c2: ConfigV)
    requires
        same_but_source(c1, c2),
        is_propagation(c1.operation),
    ensures
        dispatch_spec(c1) == dispatch_spec(c2),
{
}

/// No transition after the dispatch reads the source field at all: on
/// every state and answer, two requests that differ only in their
/// source move identically — provided a propagation operation keeps
/// the dispatcher itself source-blind, as the previous law shows.
proof fn nis_run(c1: ConfigV, c2: ConfigV, run: crate::machine::BulkRun)
    requires
        same_but_source(c1, c2),
    ensures
        crate::machine::run_done_spec(c1, run) == crate::machine::run_done_spec(c2, run),
        crate::machine::finish_run_spec(c1, run) == crate::machine::finish_run_spec(c2, run),
{
}

proof fn nis_bulk(c1: ConfigV, c2: ConfigV, b: crate::machine::BulkProgressV)
    requires
        same_but_source(c1, c2),
    ensures
        crate::machine::entry_step_spec(c1, b) == crate::machine::entry_step_spec(c2, b),
        crate::machine::advance_spec(c1, b) == crate::machine::advance_spec(c2, b),
{
    nis_run(c1, c2, b.run);
}

proof fn nis_normal(c1: ConfigV, c2: ConfigV, device: Seq<char>, target: Seq<char>, fstype: Seq<char>)
    requires
        same_but_source(c1, c2),
    ensures
        crate::machine::normal_fstype_spec(c1, device, target, fstype)
            == crate::machine::normal_fstype_spec(c2, device, target, fstype),
        crate::machine::normal_device_spec(c1, device) == crate::machine::normal_device_spec(
            c2,
            device,
        ),
{
    assert(crate::machine::normal_flags(c1) == crate::machine::normal_flags(c2));
    assert(crate::machine::normal_data(c1) == crate::machine::normal_data(c2));
    assert forall|t: Seq<char>, f: Seq<char>|
        #[trigger] crate::machine::normal_fstype_spec(c1, device, t, f)
            == crate::machine::normal_fstype_spec(c2, device, t, f) by {}
}

proof fn nis_prep_fail(c1: ConfigV, c2: ConfigV, ctx: crate::machine::PrepCtxV, x: Seq<char>, e: MountErrorV)
    requires
        same_but_source(c1, c2),
    ensures
        crate::machine::prep_fail_spec(c1, ctx, x, e) == crate::machine::prep_fail_spec(
            c2,
            ctx,
            x,
            e,
        ),
{
    match ctx {
        crate::machine::PrepCtxV::Bulk { b } => {
            nis_bulk(c1, c2, b);
        },
        crate::machine::PrepCtxV::Normal { .. } => {},
    }
}

#[verifier::rlimit(100)]
proof fn nis_prep_done(c1: ConfigV, c2: ConfigV, ctx: crate::machine::PrepCtxV, x: Seq<char>)
    requires
        same_but_source(c1, c2),
    ensures
        crate::machine::prep_done_spec(c1, ctx, x) == crate::machine::prep_done_spec(c2, ctx, x),
{
    match ctx {
        crate::machine::PrepCtxV::Bulk { b } => {
            nis_bulk(c1, c2, b);
            nis_run(c1, c2, b.run);
        },
        crate::machine::PrepCtxV::Normal { .. } => {
            assert(crate::machine::normal_flags(c1) == crate::machine::normal_flags(c2));
            assert(crate::machine::normal_data(c1) == crate::machine::normal_data(c2));
        },
    }
}

proof fn nis_mount(
    c1: ConfigV,
    c2: ConfigV,
    call: crate::actions::MountCallV,
    ctx: crate::machine::MountCtxV,
    e: MountErrorV,
)
    requires
        same_but_source(c1, c2),
    ensures
        crate::machine::mount_success_spec(c1, call, ctx) == crate::machine::mount_success_spec(
            c2,
            call,
            ctx,
        ),
        crate::machine::mount_fail_spec(c1, call, ctx, e) == crate::machine::mount_fail_spec(
            c2,
            call,
            ctx,
            e,
        ),
{
    match ctx {
        crate::machine::MountCtxV::Bulk { b } => {
            nis_bulk(c1, c2, b);
        },
        _ => {},
    }
}

#[verifier::rlimit(100)]
pub proof fn next_ignores_source(c1: ConfigV, c2: ConfigV, s: ProcStateV, a: AnswerV)
    requires
        same_but_source(c1, c2),
        is_propagation(c1.operation),
    ensures
        next_spec(c1, s, a) == next_spec(c2, s, a),
{
    match s {
        ProcStateV::AwaitNamespace => {
            propagation_dispatch_ignores_source(c1, c2);
            assert(next_spec(c1, s, a) == next_spec(c2, s, a));
        },
        ProcStateV::AwaitLabelDevice { .. } => {
            if let AnswerV::Cmd(c) = a {
                nis_normal(c1, c2, crate::text::trimmed(c.stdout), Seq::empty(), Seq::empty());
            }
            assert(next_spec(c1, s, a) == next_spec(c2, s, a));
        },
        ProcStateV::AwaitUuidDevice { .. } => {
            if let AnswerV::Cmd(c) = a {
                nis_normal(c1, c2, crate::text::trimmed(c.stdout), Seq::empty(), Seq::empty());
            }
            assert(next_spec(c1, s, a) == next_spec(c2, s, a));
        },
        ProcStateV::AwaitFsType { device, target } => {
            if let AnswerV::Cmd(c) = a {
                nis_normal(c1, c2, device, target, crate::text::trimmed(c.stdout));
            }
            assert(next_spec(c1, s, a) == next_spec(c2, s, a));
        },
        ProcStateV::PrepCheckRoot { source, ctx } => {
            nis_prep_fail(c1, c2, ctx, source, MountErrorV::PermissionDenied);
            assert(next_spec(c1, s, a) == next_spec(c2, s, a));
        },
        ProcStateV::PrepCheckKind { source, ctx } => {
            nis_prep_done(c1, c2, ctx, source);
            if let AnswerV::Kind(crate::actions::FileKindV::Missing(d)) = a {
                nis_prep_fail(
                    c1,
                    c2,
                    ctx,
                    source,
                    MountErrorV::SourceStatFailed { path: source, detail: d },
                );
            }
            assert(next_spec(c1, s, a) == next_spec(c2, s, a));
        },
        ProcStateV::PrepAttachLoop { source, ctx } => {
            if let AnswerV::Cmd(c) = a {
                nis_prep_done(c1, c2, ctx, crate::text::trimmed(c.stdout));
                nis_prep_fail(c1, c2, ctx, source, MountErrorV::LoopSetupFailed { detail: c.stderr });
            }
            assert(next_spec(c1, s, a) == next_spec(c2, s, a));
        },
        ProcStateV::AwaitKernel { call, ctx } => {
            if let AnswerV::Mounted(r) = a {
                match r {
                    Ok(_) => {
                        nis_mount(c1, c2, call, ctx, MountErrorV::PermissionDenied);
                    },
                    Err(errno) => {
                        nis_mount(c1, c2, call, ctx, MountErrorV::KernelMountFailed { errno });
                    },
                }
            }
            assert(next_spec(c1, s, a) == next_spec(c2, s, a));
        },
        ProcStateV::AwaitFallback { call, errno, ctx } => {
            if let AnswerV::FallbackStatus { success, code } = a {
                nis_mount(c1, c2, call, ctx, MountErrorV::FallbackFailed { errno, code });
            }
            assert(next_spec(c1, s, a) == next_spec(c2, s, a));
        },
        ProcStateV::BulkTable { run } => {
            if let AnswerV::Fstab(crate::actions::FstabReadV::Content(c)) = a {
                nis_bulk(
                    c1,
                    c2,
                    crate::machine::BulkProgressV {
                        run,
                        entries: crate::fstab::fstab_entries(c),
                        index: 0,
                    },
                );
            }
            assert(next_spec(c1, s, a) == next_spec(c2, s, a));
        },
        ProcStateV::BulkMounts { b, .. } => {
            nis_bulk(c1, c2, b);
            nis_run(c1, c2, b.run);
            assert(next_spec(c1, s, a) == next_spec(c2, s, a));
        },
        ProcStateV::BulkFork { b, .. } => {
            nis_bulk(c1, c2, b);
            assert(next_spec(c1, s, a) == next_spec(c2, s, a));
        },
        ProcStateV::BulkReap { run } => {
            nis_run(c1, c2, run);
            assert(next_spec(c1, s, a) == next_spec(c2, s, a));
        },
        _ => {
            assert(next_spec(c1, s, a) == next_spec(c2, s, a));
        },
    }
}

proof fn lemma_run_ignores_source(
    c1: ConfigV,
    c2: ConfigV,
    st: ProcStateV,
    step: StepV,
    answers: Seq<AnswerV>,
)
    requires
        same_but_source(c1, c2),
        is_propagation(c1.operation),
    ensures
        run_actions(c1, st, step, answers) == run_actions(c2, st, step, answers),
    decreases answers.len(),
{
    match step {
        StepV::Done(_) => {},
        StepV::Ask(a0) => {
            if answers.len() > 0 {
                next_ignores_source(c1, c2, st, answers[0]);
                let t = next_spec(c1, st, answers[0]);
                lemma_run_ignores_source(c1, c2, t.state, t.step, answers.drop_first());
            }
        },
    }
}

/// A propagation handler never dereferences the source: the whole run
/// of a propagation request — every action asked, in order — is the
/// same whatever the request's source field holds, for every sequence
/// of driver answers.
pub proof fn propagation_run_ignores_source(c1: ConfigV, c2: ConfigV, answers: Seq<AnswerV>)
    requires
        same_but_source(c1, c2),
        is_propagation(c1.operation),
    ensures
        machine_actions(c1, answers) == machine_actions(c2, answers),
{
    let t1 = start_spec(c1);
    let t2 = start_spec(c2);
    if c1.namespace is None {
        propagation_dispatch_ignores_source(c1, c2);
    }
    assert(t1 == t2);
    lemma_run_ignores_source(c1, c2, t1.state, t1.step, answers);
}

/// A propagation handler requires only a target: with no target the
/// run fails at once with the missing-target validation error, and
/// with one it asks nothing but an existence check of that target.
pub proof fn propagation_requires_only_target(cfg: ConfigV)
    requires
        is_propagation(cfg.operation),
        !cfg.all,
        cfg.fstab is None,
        cfg.namespace is None,
    ensures
        cfg.target is None ==> start_spec(cfg).step == StepV::Done(
            OutcomeV::Completed(Err(MountErrorV::MissingTarget)),
        ),
        cfg.target matches Some(t) ==> start_spec(cfg).step == StepV::Ask(
            MountActionV::CheckPathExists { path: t },
        ) && start_spec(cfg).state == (ProcStateV::PropTgtCheck { target: t }),
{
}

} // verus!
