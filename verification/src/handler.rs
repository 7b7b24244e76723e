//! The executable mount machine: holds the request and the current
//! state, and follows the mathematical transition system of the
//! `machine` module step for step. The driver calls `start` once and
//! then `next` with the outcome of each performed action, until a
//! `Done` step ends the run.
use vstd::prelude::*;

use crate::actions::{
    Answer, FileKind, ForkOutcome, FstabRead, MountAction, MountCall, MountsRead, Notice, Outcome,
    Reply, Step, WaitOutcome,
};
use crate::cmdline::{
    build_fallback_mount_args, build_fslabel_query_args, build_fstype_query_args,
    build_label_lookup_args, build_loop_attach_args, build_uuid_lookup_args,
};
use crate::errors::MountError;
use crate::flags::MountFlags;
use crate::fstab::scan_fstab;
use crate::machine::{
    advance_spec, bulk_flags, bulk_mounts_spec, dispatch_spec, done_t, entry_step_spec, fail_t,
    finish_run_spec, mount_fail_spec, mount_success_spec, mtab_notices, next_spec,
    normal_device_spec, normal_fstype_spec, prep_done_spec, prep_fail_spec, propagation_flags,
    run_done_spec, start_spec, table_loaded_spec, warning_notices, with_pre, BulkProgress,
    BulkProgressV, BulkRun, MountCtx, MountCtxV, PrepCtx, PrepCtxV, ProcState, ProcStateV,
    TransitionV, expects, normal_flags, normal_data,
};
use crate::mounts::is_already_mounted;
use crate::options::{match_test_opts, parse_mount_options};
use crate::request::{Config, Operation, Source};
use crate::text::{str_eq, trim_str};

verus! {

broadcast use crate::machine::lemma_notices_concat_assoc;

/// What one executable transition must produce: exactly the state, the
/// notices and the step of the given mathematical transition.
pub open spec fn follows(r: (ProcState, Reply), t: TransitionV) -> bool {
    &&& r.0@ == t.state
    &&& r.1.notices.deep_view() == t.notices
    &&& r.1.step@ == t.step
}

/// An empty notice accumulator.
fn no_notices() -> (r: Vec<Notice>)
    ensures
        r.deep_view() == Seq::<<Notice as View>::V>::empty(),
{
    let r: Vec<Notice> = Vec::new();
    proof {
        assert(r.deep_view() =~= Seq::<<Notice as View>::V>::empty());
    }
    r
}

/// The reply of a transition that ends the run.
fn reply_done(pre: Vec<Notice>, o: Outcome) -> (r: (ProcState, Reply))
    ensures
        follows(r, with_pre(pre.deep_view(), done_t(o@))),
{
    proof {
        assert(pre.deep_view() + Seq::<<Notice as View>::V>::empty() =~= pre.deep_view());
    }
    (ProcState::Finished, Reply { notices: pre, step: Step::Done(o) })
}

/// The reply of a transition that ends the run with an error.
fn reply_fail(pre: Vec<Notice>, e: MountError) -> (r: (ProcState, Reply))
    ensures
        follows(r, with_pre(pre.deep_view(), fail_t(e@))),
{
    reply_done(pre, Outcome::Completed(Err(e)))
}

/// The reply of a transition that asks for an action.
fn reply_ask(pre: Vec<Notice>, state: ProcState, a: MountAction) -> (r: (ProcState, Reply))
    ensures
        follows(
            r,
            with_pre(
                pre.deep_view(),
                crate::machine::ask_t(state@, a@),
            ),
        ),
{
    proof {
        assert(pre.deep_view() + Seq::<<Notice as View>::V>::empty() =~= pre.deep_view());
    }
    (state, Reply { notices: pre, step: Step::Ask(a) })
}

/// Assembles the mount call of the normal handler: the prepared or
/// resolved source, the request's target, the fixed filesystem type,
/// and the translated option flags and data.
fn build_normal_call(cfg: &Config, source: String, target: String, fstype: String) -> (r: MountCall)
    ensures
        r@ == (crate::actions::MountCallV {
            source: Some(source@),
            target: target@,
            fstype: Some(fstype@),
            flags: normal_flags(cfg@),
            data: normal_data(cfg@),
        }),
{
    let opts: Option<&str> = match &cfg.options.options {
        Some(s) => Some(s.as_str()),
        None => None,
    };
    let rf = parse_mount_options(opts, cfg.options.read_only);
    let r = MountCall {
        source: Some(source),
        target,
        fstype: Some(fstype),
        flags: rf.flags,
        data: rf.data,
    };
    proof {
        assert(r@.flags == normal_flags(cfg@));
        assert(r@.data == normal_data(cfg@));
    }
    r
}

/// The machine: the request, and what it is waiting for.
pub struct ConfigHandler {
    pub config: Config,
    pub state: ProcState,
}

/// Appends the malformed-line notices of a scanned table.
fn push_warning_notices(pre: Vec<Notice>, warns: &Vec<usize>) -> (r: Vec<Notice>)
    ensures
        r.deep_view() == pre.deep_view() + warns@.map_values(
            |w: usize| crate::actions::NoticeV::MalformedFstabLine { line: w as int },
        ),
{
    let ghost target = warns@.map_values(
        |w: usize| crate::actions::NoticeV::MalformedFstabLine { line: w as int },
    );
    let mut out = pre;
    let ghost pre0 = out.deep_view();
    let mut i: usize = 0;
    proof {
        assert(out.deep_view() =~= pre0 + target.take(0));
    }
    while i < warns.len()
        invariant
            0 <= i <= warns.len(),
            target == warns@.map_values(
                |w: usize| crate::actions::NoticeV::MalformedFstabLine { line: w as int },
            ),
            out.deep_view() == pre0 + target.take(i as int),
        decreases warns.len() - i,
    {
        let ghost before = out.deep_view();
        out.push(Notice::MalformedFstabLine { line: warns[i] });
        proof {
            assert(out.deep_view() =~= before.push(target[i as int]));
            assert(pre0 + target.take(i + 1) =~= (pre0 + target.take(i as int)).push(
                target[i as int],
            ));
        }
        i = i + 1;
    }
    proof {
        assert(target.take(warns@.len() as int) =~= target);
    }
    out
}

impl ConfigHandler {
    /// Wraps a request; the machine has not started.
    pub fn new(config: Config) -> (r: ConfigHandler)
        ensures
            r.config == config,
            r.state@ == ProcStateV::Init,
    {
        ConfigHandler { config, state: ProcState::Init }
    }

    /// The first exchange of a run, as `start_spec` describes.
    pub fn start(&mut self) -> (r: Reply)
        requires
            old(self).state@ == ProcStateV::Init,
        ensures
            ({
                let t = start_spec(old(self).config@);
                &&& final(self).config == old(self).config
                &&& final(self).state@ == t.state
                &&& r.notices.deep_view() == t.notices
                &&& r.step@ == t.step
            }),
    {
        let (ns, reply) = match &self.config.namespace {
            Some(ns) => reply_ask(
                no_notices(),
                ProcState::AwaitNamespace,
                MountAction::SwitchNamespace { path: ns.clone() },
            ),
            None => h_dispatch(&self.config, no_notices()),
        };
        self.state = ns;
        reply
    }

    /// One exchange: consumes the driver's answer to the pending action
    /// and moves the machine, exactly as `next_spec` describes.
    pub fn next(&mut self, answer: Answer) -> (r: Reply)
        requires
            expects(old(self).state@, answer@),
        ensures
            ({
                let t = next_spec(old(self).config@, old(self).state@, answer@);
                &&& final(self).config == old(self).config
                &&& final(self).state@ == t.state
                &&& r.notices.deep_view() == t.notices
                &&& r.step@ == t.step
            }),
    {
        let mut st = ProcState::Finished;
        core::mem::swap(&mut st, &mut self.state);
        let (ns, reply) = step_state(&self.config, st, answer);
        self.state = ns;
        reply
    }
}

/// The dispatcher, executably.
fn h_dispatch(cfg: &Config, pre: Vec<Notice>) -> (r: (ProcState, Reply))
    ensures
        follows(r, with_pre(pre.deep_view(), dispatch_spec(cfg@))),
{
    if cfg.all {
        reply_ask(
            pre,
            ProcState::BulkTable { run: BulkRun::Main },
            MountAction::ReadFstab { path: String::from_str("/etc/fstab") },
        )
    } else if let Some(alt) = &cfg.fstab {
        reply_ask(
            pre,
            ProcState::BulkTable { run: BulkRun::Alt },
            MountAction::ReadFstab { path: alt.clone() },
        )
    } else {
        match cfg.operation {
            Operation::Normal => match &cfg.source {
                None => reply_fail(pre, MountError::MissingSource),
                Some(Source::Device(d)) => {
                    let ghost pre0 = pre.deep_view();
                    let mut pre = pre;
                    pre.push(Notice::ResolvedSource { device: d.clone() });
                    proof {
                        assert(pre.deep_view() =~= pre0 + seq![
                            crate::actions::NoticeV::ResolvedSource { device: d@ },
                        ]);
                    }
                    h_normal_device(cfg, d.clone(), pre)
                },
                Some(Source::Label(l)) => reply_ask(
                    pre,
                    ProcState::AwaitLabelDevice { label: l.clone() },
                    MountAction::RunBlkid { args: build_label_lookup_args(l.as_str()) },
                ),
                Some(Source::UUID(u)) => reply_ask(
                    pre,
                    ProcState::AwaitUuidDevice { uuid: u.clone() },
                    MountAction::RunBlkid { args: build_uuid_lookup_args(u.as_str()) },
                ),
            },
            Operation::Bind | Operation::RBind => match &cfg.source {
                None => reply_fail(pre, MountError::MissingSource),
                Some(Source::Device(s)) => match &cfg.target {
                    None => reply_fail(pre, MountError::MissingTarget),
                    Some(t) => reply_ask(
                        pre,
                        ProcState::BindSrcCheck { source: s.clone(), target: t.clone() },
                        MountAction::CheckPathExists { path: s.clone() },
                    ),
                },
                Some(_) => reply_fail(pre, MountError::SourceNotDevicePath),
            },
            Operation::Move => match &cfg.source {
                None => reply_fail(pre, MountError::MissingSource),
                Some(Source::Device(s)) => match &cfg.target {
                    None => reply_fail(pre, MountError::MissingTarget),
                    Some(t) => reply_ask(
                        pre,
                        ProcState::MoveSrcCheck { source: s.clone(), target: t.clone() },
                        MountAction::CheckPathExists { path: s.clone() },
                    ),
                },
                Some(_) => reply_fail(pre, MountError::MoveNeedsDevicePath),
            },
            _ => match &cfg.target {
                None => reply_fail(pre, MountError::MissingTarget),
                Some(t) => reply_ask(
                    pre,
                    ProcState::PropTgtCheck { target: t.clone() },
                    MountAction::CheckPathExists { path: t.clone() },
                ),
            },
        }
    }
}

/// The normal handler once the source is a device path, executably.
fn h_normal_device(cfg: &Config, device: String, pre: Vec<Notice>) -> (r: (ProcState, Reply))
    ensures
        follows(r, with_pre(pre.deep_view(), normal_device_spec(cfg@, device@))),
{
    match &cfg.target {
        None => reply_fail(pre, MountError::MissingTarget),
        Some(t) => match &cfg.options.types {
            Some(ft) => h_normal_fstype(cfg, device, t.clone(), ft.clone(), pre),
            None => {
                let args = build_fstype_query_args(device.as_str());
                reply_ask(
                    pre,
                    ProcState::AwaitFsType { device, target: t.clone() },
                    MountAction::RunBlkid { args },
                )
            },
        },
    }
}

/// The normal handler once source and filesystem type are fixed,
/// executably.
fn h_normal_fstype(
    cfg: &Config,
    device: String,
    target: String,
    fstype: String,
    pre: Vec<Notice>,
) -> (r: (ProcState, Reply))
    ensures
        follows(r, with_pre(pre.deep_view(), normal_fstype_spec(cfg@, device@, target@, fstype@))),
{
    if cfg.fake {
        let call = build_normal_call(cfg, device, target, fstype);
        let ghost pre0 = pre.deep_view();
        let mut pre = pre;
        pre.push(Notice::FakeMount { call });
        proof {
            assert(pre.deep_view() =~= pre0 + seq![
                crate::actions::NoticeV::FakeMount {
                    call: normal_fstype_spec(cfg@, device@, target@, fstype@).notices[0]->FakeMount_call,
                },
            ]);
        }
        reply_done(pre, Outcome::Completed(Ok(())))
    } else {
        reply_ask(
            pre,
            ProcState::AwaitMounts { device, fstype, target },
            MountAction::ReadMounts,
        )
    }
}

/// What follows a finished bulk run, executably.
fn h_run_done(cfg: &Config, run: BulkRun, pre: Vec<Notice>) -> (r: (ProcState, Reply))
    ensures
        follows(r, with_pre(pre.deep_view(), run_done_spec(cfg@, run))),
{
    if run == BulkRun::Main {
        if let Some(alt) = &cfg.fstab {
            return reply_ask(
                pre,
                ProcState::BulkTable { run: BulkRun::Alt },
                MountAction::ReadFstab { path: alt.clone() },
            );
        }
    }
    reply_done(pre, Outcome::Completed(Ok(())))
}

/// The end of a bulk run's entries, executably.
fn h_finish_run(cfg: &Config, run: BulkRun, pre: Vec<Notice>) -> (r: (ProcState, Reply))
    ensures
        follows(r, with_pre(pre.deep_view(), finish_run_spec(cfg@, run))),
{
    if run == BulkRun::Main && cfg.fork && cfg.all {
        reply_ask(pre, ProcState::BulkReap { run }, MountAction::WaitChild)
    } else {
        h_run_done(cfg, run, pre)
    }
}

/// Begins the bulk entry at `b.index`, executably.
fn h_entry_step(cfg: &Config, b: BulkProgress, pre: Vec<Notice>) -> (r: (ProcState, Reply))
    ensures
        follows(r, with_pre(pre.deep_view(), entry_step_spec(cfg@, b@))),
{
    if b.index >= b.entries.len() {
        h_finish_run(cfg, b.run, pre)
    } else {
        let source = b.entries[b.index].source.clone();
        reply_ask(
            pre,
            ProcState::PrepCheckRoot { source, ctx: PrepCtx::Bulk { b } },
            MountAction::CheckIsRoot,
        )
    }
}

/// Moves a bulk run past the current entry, executably.
fn h_advance(cfg: &Config, b: BulkProgress, pre: Vec<Notice>) -> (r: (ProcState, Reply))
    ensures
        follows(r, with_pre(pre.deep_view(), advance_spec(cfg@, b@))),
{
    let ghost bv = b@;
    let next_index = if b.index < b.entries.len() {
        b.index + 1
    } else {
        b.index
    };
    let b2 = BulkProgress { run: b.run, entries: b.entries, index: next_index };
    proof {
        let spec_b = BulkProgressV { run: bv.run, entries: bv.entries, index: bv.index + 1 };
        if bv.index < bv.entries.len() {
            assert(b2@ == spec_b);
        } else {
            assert(b2@.index >= b2@.entries.len());
            assert(spec_b.index >= spec_b.entries.len());
            assert(entry_step_spec(cfg@, b2@) == finish_run_spec(cfg@, bv.run));
            assert(entry_step_spec(cfg@, spec_b) == finish_run_spec(cfg@, bv.run));
        }
    }
    h_entry_step(cfg, b2, pre)
}

/// A failed source preparation, executably.
fn h_prep_fail(
    cfg: &Config,
    ctx: PrepCtx,
    source: String,
    e: MountError,
    pre: Vec<Notice>,
) -> (r: (ProcState, Reply))
    ensures
        follows(r, with_pre(pre.deep_view(), prep_fail_spec(cfg@, ctx@, source@, e@))),
{
    match ctx {
        PrepCtx::Normal { .. } => reply_fail(pre, e),
        PrepCtx::Bulk { b } => {
            let ghost pre0 = pre.deep_view();
            let mut pre = pre;
            let ghost ev = e@;
            let ghost sv = source@;
            pre.push(Notice::EntryFailed { source, error: e });
            proof {
                assert(pre.deep_view() =~= pre0 + seq![
                    crate::actions::NoticeV::EntryFailed { source: sv, error: ev },
                ]);
            }
            h_advance(cfg, b, pre)
        },
    }
}

/// A prepared source, executably.
fn h_prep_done(cfg: &Config, ctx: PrepCtx, prepared: String, pre: Vec<Notice>) -> (r: (
    ProcState,
    Reply,
))
    ensures
        follows(r, with_pre(pre.deep_view(), prep_done_spec(cfg@, ctx@, prepared@))),
{
    match ctx {
        PrepCtx::Normal { target, fstype } => {
            if cfg.show_labels {
                let args = build_fslabel_query_args(prepared.as_str());
                let call = build_normal_call(cfg, prepared, target, fstype);
                reply_ask(pre, ProcState::AwaitFsLabel { call }, MountAction::RunBlkid { args })
            } else {
                let call = build_normal_call(cfg, prepared, target, fstype);
                let action_call = call.duplicate();
                reply_ask(
                    pre,
                    ProcState::AwaitKernel { call, ctx: MountCtx::Normal },
                    MountAction::KernelMount { call: action_call },
                )
            }
        },
        PrepCtx::Bulk { b } => {
            if b.index >= b.entries.len() {
                h_finish_run(cfg, b.run, pre)
            } else {
                let keep = match &cfg.options.test_opts {
                    Some(t) => match_test_opts(
                        b.entries[b.index].options.as_str(),
                        t.as_str(),
                    ),
                    None => true,
                };
                if keep {
                    reply_ask(
                        pre,
                        ProcState::BulkMounts { b, prepared },
                        MountAction::ReadMounts,
                    )
                } else {
                    let ghost pre0 = pre.deep_view();
                    let mut pre = pre;
                    let target = b.entries[b.index].target.clone();
                    let ghost tv = target@;
                    pre.push(Notice::SkippedTestOpts { target });
                    proof {
                        assert(pre.deep_view() =~= pre0 + seq![
                            crate::actions::NoticeV::SkippedTestOpts { target: tv },
                        ]);
                    }
                    h_advance(cfg, b, pre)
                }
            }
        },
    }
}

/// Appends the mtab bookkeeping notices of a successful mount.
fn push_mtab_notices(cfg: &Config, call: &MountCall, pre: Vec<Notice>) -> (r: Vec<Notice>)
    ensures
        r.deep_view() == pre.deep_view() + mtab_notices(cfg@, call@),
{
    let ghost pre0 = pre.deep_view();
    let mut pre = pre;
    if cfg.no_mtab {
        pre.push(Notice::MtabSkipped);
        proof {
            assert(pre.deep_view() =~= pre0 + mtab_notices(cfg@, call@));
        }
    } else {
        let source = match &call.source {
            Some(s) => s.clone(),
            None => String::new(),
        };
        let fstype = match &call.fstype {
            Some(f) => f.clone(),
            None => String::new(),
        };
        pre.push(
            Notice::MtabUpdated { source, target: call.target.clone(), fstype },
        );
        proof {
            assert(pre.deep_view() =~= pre0 + mtab_notices(cfg@, call@));
        }
    }
    pre
}

/// A successful mount call, executably.
fn h_mount_success(cfg: &Config, call: MountCall, ctx: MountCtx, pre: Vec<Notice>) -> (r: (
    ProcState,
    Reply,
))
    ensures
        follows(r, with_pre(pre.deep_view(), mount_success_spec(cfg@, call@, ctx@))),
{
    let ghost pre0 = pre.deep_view();
    let ghost cv = call@;
    match ctx {
        MountCtx::Normal => {
            let mut pre = push_mtab_notices(cfg, &call, pre);
            let ghost mid = pre.deep_view();
            pre.push(Notice::MountSucceeded { target: call.target.clone() });
            proof {
                assert(pre.deep_view() =~= mid + seq![
                    crate::actions::NoticeV::MountSucceeded { target: cv.target },
                ]);
                assert(pre.deep_view() =~= pre0 + (mtab_notices(cfg@, cv) + seq![
                    crate::actions::NoticeV::MountSucceeded { target: cv.target },
                ]));
            }
            reply_done(pre, Outcome::Completed(Ok(())))
        },
        MountCtx::Single => {
            let mut pre = pre;
            pre.push(Notice::MountSucceeded { target: call.target.clone() });
            proof {
                assert(pre.deep_view() =~= pre0 + seq![
                    crate::actions::NoticeV::MountSucceeded { target: cv.target },
                ]);
            }
            reply_done(pre, Outcome::Completed(Ok(())))
        },
        MountCtx::Bulk { b } => {
            let mut pre = push_mtab_notices(cfg, &call, pre);
            let ghost mid = pre.deep_view();
            pre.push(Notice::MountSucceeded { target: call.target.clone() });
            proof {
                assert(pre.deep_view() =~= mid + seq![
                    crate::actions::NoticeV::MountSucceeded { target: cv.target },
                ]);
                assert(pre.deep_view() =~= pre0 + (mtab_notices(cfg@, cv) + seq![
                    crate::actions::NoticeV::MountSucceeded { target: cv.target },
                ]));
            }
            h_advance(cfg, b, pre)
        },
        MountCtx::Child => {
            let mut pre = push_mtab_notices(cfg, &call, pre);
            let ghost mid = pre.deep_view();
            pre.push(Notice::MountSucceeded { target: call.target.clone() });
            proof {
                assert(pre.deep_view() =~= mid + seq![
                    crate::actions::NoticeV::MountSucceeded { target: cv.target },
                ]);
                assert(pre.deep_view() =~= pre0 + (mtab_notices(cfg@, cv) + seq![
                    crate::actions::NoticeV::MountSucceeded { target: cv.target },
                ]));
            }
            reply_done(pre, Outcome::ChildExit(0))
        },
    }
}

/// A failed mount call, executably.
fn h_mount_fail(
    cfg: &Config,
    call: MountCall,
    ctx: MountCtx,
    e: MountError,
    pre: Vec<Notice>,
) -> (r: (ProcState, Reply))
    ensures
        follows(r, with_pre(pre.deep_view(), mount_fail_spec(cfg@, call@, ctx@, e@))),
{
    let ghost pre0 = pre.deep_view();
    let ghost cv = call@;
    let ghost ev = e@;
    match ctx {
        MountCtx::Normal => reply_fail(pre, e),
        MountCtx::Single => reply_fail(pre, e),
        MountCtx::Bulk { b } => {
            let mut pre = pre;
            let source = match call.source {
                Some(s) => s,
                None => String::new(),
            };
            pre.push(Notice::EntryFailed { source, error: e });
            proof {
                assert(pre.deep_view() =~= pre0 + seq![
                    crate::actions::NoticeV::EntryFailed {
                        source: crate::machine::call_source(cv),
                        error: ev,
                    },
                ]);
            }
            h_advance(cfg, b, pre)
        },
        MountCtx::Child => {
            let mut pre = pre;
            let source = match call.source {
                Some(s) => s,
                None => String::new(),
            };
            pre.push(Notice::EntryFailed { source, error: e });
            proof {
                assert(pre.deep_view() =~= pre0 + seq![
                    crate::actions::NoticeV::EntryFailed {
                        source: crate::machine::call_source(cv),
                        error: ev,
                    },
                ]);
            }
            reply_done(pre, Outcome::ChildExit(1))
        },
    }
}

/// A loaded fstab table, executably.
fn h_table_loaded(cfg: &Config, run: BulkRun, f: FstabRead, pre: Vec<Notice>) -> (r: (
    ProcState,
    Reply,
))
    ensures
        follows(r, with_pre(pre.deep_view(), table_loaded_spec(cfg@, run, f@))),
{
    match f {
        FstabRead::IsDirectory => {
            let path = run_path_exec(cfg, run);
            reply_fail(pre, MountError::FstabIsDirectory { path })
        },
        FstabRead::OpenError(detail) => {
            let path = run_path_exec(cfg, run);
            reply_fail(pre, MountError::FstabOpenFailed { path, detail })
        },
        FstabRead::Content(c) => {
            let ghost cv = c@;
            let (entries, warns) = scan_fstab(c.as_str());
            let pre = push_warning_notices(pre, &warns);
            proof {
                assert(warns@.map_values(
                    |w: usize| crate::actions::NoticeV::MalformedFstabLine { line: w as int },
                ) =~= warning_notices(cv));
            }
            if entries.len() == 0 {
                reply_fail(pre, MountError::FstabEmpty)
            } else {
                h_entry_step(cfg, BulkProgress { run, entries, index: 0 }, pre)
            }
        },
    }
}

/// The table path of a bulk run, executably. The alternative run only
/// exists when the request names a table, so the missing-path case is
/// never reached; it answers an empty path to stay total.
fn run_path_exec(cfg: &Config, run: BulkRun) -> (r: String)
    ensures
        r@ == crate::machine::run_path(cfg@, run),
{
    match run {
        BulkRun::Main => String::from_str("/etc/fstab"),
        BulkRun::Alt => match &cfg.fstab {
            Some(p) => p.clone(),
            None => String::new(),
        },
    }
}

/// One bulk entry's reading of the mount table, executably.
fn h_bulk_mounts(
    cfg: &Config,
    b: BulkProgress,
    prepared: String,
    m: MountsRead,
    pre: Vec<Notice>,
) -> (r: (ProcState, Reply))
    ensures
        follows(r, with_pre(pre.deep_view(), bulk_mounts_spec(cfg@, b@, prepared@, m@))),
{
    let ghost pre0 = pre.deep_view();
    if b.index >= b.entries.len() {
        h_finish_run(cfg, b.run, pre)
    } else {
        match m {
            MountsRead::OpenError(detail) => {
                let mut pre = pre;
                let ghost pv = prepared@;
                let ghost dv = detail@;
                pre.push(
                    Notice::EntryFailed {
                        source: prepared,
                        error: MountError::MountsReadFailed { detail },
                    },
                );
                proof {
                    assert(pre.deep_view() =~= pre0 + seq![
                        crate::actions::NoticeV::EntryFailed {
                            source: pv,
                            error: crate::errors::MountErrorV::MountsReadFailed { detail: dv },
                        },
                    ]);
                }
                h_advance(cfg, b, pre)
            },
            MountsRead::Content(c) => {
                if is_already_mounted(c.as_str(), b.entries[b.index].target.as_str()) {
                    let mut pre = pre;
                    let target = b.entries[b.index].target.clone();
                    let ghost tv = target@;
                    pre.push(Notice::AlreadyMounted { target });
                    proof {
                        assert(pre.deep_view() =~= pre0 + seq![
                            crate::actions::NoticeV::AlreadyMounted { target: tv },
                        ]);
                    }
                    h_advance(cfg, b, pre)
                } else if str_eq(b.entries[b.index].fstype.as_str(), "swap") {
                    let mut pre = pre;
                    let source = b.entries[b.index].source.clone();
                    let ghost sv = source@;
                    pre.push(Notice::SkippedSwap { source });
                    proof {
                        assert(pre.deep_view() =~= pre0 + seq![
                            crate::actions::NoticeV::SkippedSwap { source: sv },
                        ]);
                    }
                    h_advance(cfg, b, pre)
                } else {
                    let call = MountCall {
                        source: Some(prepared),
                        target: b.entries[b.index].target.clone(),
                        fstype: Some(b.entries[b.index].fstype.clone()),
                        flags: MountFlags { no_suid: true, no_exec: true, ..MountFlags::empty() },
                        data: None,
                    };
                    proof {
                        assert(call@.flags == bulk_flags());
                    }
                    if cfg.fake {
                        let mut pre = pre;
                        let ghost cv = call@;
                        pre.push(Notice::FakeMount { call });
                        proof {
                            assert(pre.deep_view() =~= pre0 + seq![
                                crate::actions::NoticeV::FakeMount { call: cv },
                            ]);
                        }
                        h_advance(cfg, b, pre)
                    } else if b.run == BulkRun::Main && cfg.fork && cfg.all {
                        reply_ask(pre, ProcState::BulkFork { b, call }, MountAction::Fork)
                    } else {
                        let action_call = call.duplicate();
                        reply_ask(
                            pre,
                            ProcState::AwaitKernel { call, ctx: MountCtx::Bulk { b } },
                            MountAction::KernelMount { call: action_call },
                        )
                    }
                }
            },
        }
    }
}

/// The transition of one state on one answer; the inner worker of
/// `ConfigHandler::next`.
#[verifier::rlimit(100)]
fn step_state(cfg: &Config, st: ProcState, answer: Answer) -> (r: (ProcState, Reply))
    requires
        expects(st@, answer@),
    ensures
        follows(r, next_spec(cfg@, st@, answer@)),
{
    let ghost stv = st@;
    let ghost av = answer@;
    proof {
        assert(next_spec(cfg@, stv, av) == next_spec(cfg@, stv, av));
    }
    match st {
        ProcState::AwaitNamespace => match answer {
            Answer::Switched(res) => match res {
                Ok(_) => h_dispatch(cfg, no_notices()),
                Err(e) => reply_fail(
                    no_notices(),
                    MountError::NamespaceSwitchFailed { errno: e },
                ),
            },
            _ => {
                proof {
                    assert(false);
                }
                (
                    ProcState::Finished,
                    Reply { notices: Vec::new(), step: Step::Done(Outcome::Completed(Ok(()))) },
                )
            },
        },
        ProcState::AwaitLabelDevice { label } => match answer {
            Answer::Cmd(c) => {
                if c.success {
                    let device = trim_str(c.stdout.as_str());
                    let ghost dv = device@;
                    let mut pre = no_notices();
                    pre.push(Notice::ResolvedSource { device: device.clone() });
                    proof {
                        assert(pre.deep_view() =~= Seq::<<Notice as View>::V>::empty() + seq![
                            crate::actions::NoticeV::ResolvedSource { device: dv },
                        ]);
                        assert(pre.deep_view() =~= seq![
                            crate::actions::NoticeV::ResolvedSource { device: dv },
                        ]);
                    }
                    h_normal_device(cfg, device, pre)
                } else {
                    reply_fail(no_notices(), MountError::LabelNotFound { label })
                }
            },
            _ => {
                proof {
                    assert(false);
                }
                (
                    ProcState::Finished,
                    Reply { notices: Vec::new(), step: Step::Done(Outcome::Completed(Ok(()))) },
                )
            },
        },
        ProcState::AwaitUuidDevice { uuid } => match answer {
            Answer::Cmd(c) => {
                if c.success {
                    let device = trim_str(c.stdout.as_str());
                    let ghost dv = device@;
                    let mut pre = no_notices();
                    pre.push(Notice::ResolvedSource { device: device.clone() });
                    proof {
                        assert(pre.deep_view() =~= Seq::<<Notice as View>::V>::empty() + seq![
                            crate::actions::NoticeV::ResolvedSource { device: dv },
                        ]);
                        assert(pre.deep_view() =~= seq![
                            crate::actions::NoticeV::ResolvedSource { device: dv },
                        ]);
                    }
                    h_normal_device(cfg, device, pre)
                } else {
                    reply_fail(no_notices(), MountError::UuidNotFound { uuid })
                }
            },
            _ => {
                proof {
                    assert(false);
                }
                (
                    ProcState::Finished,
                    Reply { notices: Vec::new(), step: Step::Done(Outcome::Completed(Ok(()))) },
                )
            },
        },
        ProcState::AwaitFsType { device, target } => match answer {
            Answer::Cmd(c) => {
                let t = trim_str(c.stdout.as_str());
                if t.as_str().unicode_len() == 0 {
                    reply_fail(no_notices(), MountError::FsTypeUnknown { device })
                } else {
                    h_normal_fstype(cfg, device, target, t, no_notices())
                }
            },
            _ => {
                proof {
                    assert(false);
                }
                (
                    ProcState::Finished,
                    Reply { notices: Vec::new(), step: Step::Done(Outcome::Completed(Ok(()))) },
                )
            },
        },
        ProcState::AwaitMounts { device, fstype, target } => match answer {
            Answer::Mounts(m) => match m {
                MountsRead::OpenError(detail) => reply_fail(
                    no_notices(),
                    MountError::MountsReadFailed { detail },
                ),
                MountsRead::Content(c) => {
                    if is_already_mounted(c.as_str(), target.as_str()) {
                        let mut pre = no_notices();
                        let ghost tv = target@;
                        pre.push(Notice::AlreadyMounted { target });
                        proof {
                            assert(pre.deep_view() =~= seq![
                                crate::actions::NoticeV::AlreadyMounted { target: tv },
                            ]);
                        }
                        reply_done(pre, Outcome::Completed(Ok(())))
                    } else {
                        reply_ask(
                            no_notices(),
                            ProcState::PrepCheckRoot {
                                source: device,
                                ctx: PrepCtx::Normal { target, fstype },
                            },
                            MountAction::CheckIsRoot,
                        )
                    }
                },
            },
            _ => {
                proof {
                    assert(false);
                }
                (
                    ProcState::Finished,
                    Reply { notices: Vec::new(), step: Step::Done(Outcome::Completed(Ok(()))) },
                )
            },
        },
        ProcState::PrepCheckRoot { source, ctx } => match answer {
            Answer::Flag(is_root) => {
                if is_root {
                    let action = MountAction::QueryFileKind { path: source.clone() };
                    reply_ask(no_notices(), ProcState::PrepCheckKind { source, ctx }, action)
                } else {
                    h_prep_fail(cfg, ctx, source, MountError::PermissionDenied, no_notices())
                }
            },
            _ => {
                proof {
                    assert(false);
                }
                (
                    ProcState::Finished,
                    Reply { notices: Vec::new(), step: Step::Done(Outcome::Completed(Ok(()))) },
                )
            },
        },
        ProcState::PrepCheckKind { source, ctx } => match answer {
            Answer::Kind(k) => match k {
                FileKind::BlockDevice => h_prep_done(cfg, ctx, source, no_notices()),
                FileKind::NotBlock => {
                    let args = build_loop_attach_args(source.as_str());
                    reply_ask(
                        no_notices(),
                        ProcState::PrepAttachLoop { source, ctx },
                        MountAction::RunLosetup { args },
                    )
                },
                FileKind::Missing(detail) => {
                    let e = MountError::SourceStatFailed { path: source.clone(), detail };
                    h_prep_fail(cfg, ctx, source, e, no_notices())
                },
            },
            _ => {
                proof {
                    assert(false);
                }
                (
                    ProcState::Finished,
                    Reply { notices: Vec::new(), step: Step::Done(Outcome::Completed(Ok(()))) },
                )
            },
        },
        ProcState::PrepAttachLoop { source, ctx } => match answer {
            Answer::Cmd(c) => {
                if c.success {
                    let prepared = trim_str(c.stdout.as_str());
                    h_prep_done(cfg, ctx, prepared, no_notices())
                } else {
                    let e = MountError::LoopSetupFailed { detail: c.stderr };
                    h_prep_fail(cfg, ctx, source, e, no_notices())
                }
            },
            _ => {
                proof {
                    assert(false);
                }
                (
                    ProcState::Finished,
                    Reply { notices: Vec::new(), step: Step::Done(Outcome::Completed(Ok(()))) },
                )
            },
        },
        ProcState::AwaitFsLabel { call } => match answer {
            Answer::Cmd(c) => {
                let label = trim_str(c.stdout.as_str());
                let mut pre = no_notices();
                if c.success && label.as_str().unicode_len() > 0 {
                    let ghost lv = label@;
                    pre.push(Notice::FilesystemLabel { label });
                    proof {
                        assert(pre.deep_view() =~= seq![
                            crate::actions::NoticeV::FilesystemLabel { label: lv },
                        ]);
                    }
                } else {
                    proof {
                        assert(pre.deep_view() =~= Seq::<<Notice as View>::V>::empty());
                    }
                }
                let action_call = call.duplicate();
                reply_ask(
                    pre,
                    ProcState::AwaitKernel { call, ctx: MountCtx::Normal },
                    MountAction::KernelMount { call: action_call },
                )
            },
            _ => {
                proof {
                    assert(false);
                }
                (
                    ProcState::Finished,
                    Reply { notices: Vec::new(), step: Step::Done(Outcome::Completed(Ok(()))) },
                )
            },
        },
        ProcState::AwaitKernel { call, ctx } => match answer {
            Answer::Mounted(res) => match res {
                Ok(_) => h_mount_success(cfg, call, ctx, no_notices()),
                Err(errno) => {
                    if cfg.internal_only || !call.flags.fallback_translatable() {
                        h_mount_fail(
                            cfg,
                            call,
                            ctx,
                            MountError::KernelMountFailed { errno },
                            no_notices(),
                        )
                    } else {
                        let mut pre = no_notices();
                        pre.push(Notice::KernelMountFailedRetrying { errno });
                        proof {
                            assert(pre.deep_view() =~= seq![
                                crate::actions::NoticeV::KernelMountFailedRetrying { errno },
                            ]);
                        }
                        let args = build_fallback_mount_args(&call);
                        reply_ask(
                            pre,
                            ProcState::AwaitFallback { call, errno, ctx },
                            MountAction::RunFallbackMount { args },
                        )
                    }
                },
            },
            _ => {
                proof {
                    assert(false);
                }
                (
                    ProcState::Finished,
                    Reply { notices: Vec::new(), step: Step::Done(Outcome::Completed(Ok(()))) },
                )
            },
        },
        ProcState::AwaitFallback { call, errno, ctx } => match answer {
            Answer::FallbackStatus { success, code } => {
                if success {
                    h_mount_success(cfg, call, ctx, no_notices())
                } else {
                    h_mount_fail(
                        cfg,
                        call,
                        ctx,
                        MountError::FallbackFailed { errno, code },
                        no_notices(),
                    )
                }
            },
            _ => {
                proof {
                    assert(false);
                }
                (
                    ProcState::Finished,
                    Reply { notices: Vec::new(), step: Step::Done(Outcome::Completed(Ok(()))) },
                )
            },
        },
        ProcState::BindSrcCheck { source, target } => match answer {
            Answer::Flag(found) => {
                if found {
                    let action = MountAction::CheckPathExists { path: target.clone() };
                    reply_ask(no_notices(), ProcState::BindTgtCheck { source, target }, action)
                } else {
                    reply_fail(no_notices(), MountError::PathNotFound { path: source })
                }
            },
            _ => {
                proof {
                    assert(false);
                }
                (
                    ProcState::Finished,
                    Reply { notices: Vec::new(), step: Step::Done(Outcome::Completed(Ok(()))) },
                )
            },
        },
        ProcState::BindTgtCheck { source, target } => match answer {
            Answer::Flag(found) => {
                if found {
                    let call = MountCall {
                        source: Some(source),
                        target,
                        fstype: None,
                        flags: MountFlags {
                            bind: true,
                            recursive: matches!(cfg.operation, Operation::RBind),
                            ..MountFlags::empty()
                        },
                        data: None,
                    };
                    finish_single(cfg, call)
                } else {
                    reply_fail(no_notices(), MountError::PathNotFound { path: target })
                }
            },
            _ => {
                proof {
                    assert(false);
                }
                (
                    ProcState::Finished,
                    Reply { notices: Vec::new(), step: Step::Done(Outcome::Completed(Ok(()))) },
                )
            },
        },
        ProcState::MoveSrcCheck { source, target } => match answer {
            Answer::Flag(found) => {
                if found {
                    let action = MountAction::CheckPathExists { path: target.clone() };
                    reply_ask(no_notices(), ProcState::MoveTgtCheck { source, target }, action)
                } else {
                    reply_fail(no_notices(), MountError::PathNotFound { path: source })
                }
            },
            _ => {
                proof {
                    assert(false);
                }
                (
                    ProcState::Finished,
                    Reply { notices: Vec::new(), step: Step::Done(Outcome::Completed(Ok(()))) },
                )
            },
        },
        ProcState::MoveTgtCheck { source, target } => match answer {
            Answer::Flag(found) => {
                if found {
                    let action = MountAction::CheckIsMountPoint { path: source.clone() };
                    reply_ask(
                        no_notices(),
                        ProcState::MoveMountPointCheck { source, target },
                        action,
                    )
                } else {
                    reply_fail(no_notices(), MountError::PathNotFound { path: target })
                }
            },
            _ => {
                proof {
                    assert(false);
                }
                (
                    ProcState::Finished,
                    Reply { notices: Vec::new(), step: Step::Done(Outcome::Completed(Ok(()))) },
                )
            },
        },
        ProcState::MoveMountPointCheck { source, target } => match answer {
            Answer::Flag(is_mp) => {
                if is_mp {
                    let call = MountCall {
                        source: Some(source),
                        target,
                        fstype: None,
                        flags: MountFlags { move_mount: true, ..MountFlags::empty() },
                        data: None,
                    };
                    finish_single(cfg, call)
                } else {
                    reply_fail(no_notices(), MountError::NotAMountPoint { path: source })
                }
            },
            _ => {
                proof {
                    assert(false);
                }
                (
                    ProcState::Finished,
                    Reply { notices: Vec::new(), step: Step::Done(Outcome::Completed(Ok(()))) },
                )
            },
        },
        ProcState::PropTgtCheck { target } => match answer {
            Answer::Flag(found) => {
                if found {
                    let call = MountCall {
                        source: None,
                        target,
                        fstype: None,
                        flags: propagation_flags_exec(cfg.operation),
                        data: None,
                    };
                    finish_single(cfg, call)
                } else {
                    reply_fail(no_notices(), MountError::PathNotFound { path: target })
                }
            },
            _ => {
                proof {
                    assert(false);
                }
                (
                    ProcState::Finished,
                    Reply { notices: Vec::new(), step: Step::Done(Outcome::Completed(Ok(()))) },
                )
            },
        },
        ProcState::BulkTable { run } => match answer {
            Answer::Fstab(f) => h_table_loaded(cfg, run, f, no_notices()),
            _ => {
                proof {
                    assert(false);
                }
                (
                    ProcState::Finished,
                    Reply { notices: Vec::new(), step: Step::Done(Outcome::Completed(Ok(()))) },
                )
            },
        },
        ProcState::BulkMounts { b, prepared } => match answer {
            Answer::Mounts(m) => h_bulk_mounts(cfg, b, prepared, m, no_notices()),
            _ => {
                proof {
                    assert(false);
                }
                (
                    ProcState::Finished,
                    Reply { notices: Vec::new(), step: Step::Done(Outcome::Completed(Ok(()))) },
                )
            },
        },
        ProcState::BulkFork { b, call } => match answer {
            Answer::Forked(f) => match f {
                ForkOutcome::Parent(pid) => {
                    let mut pre = no_notices();
                    pre.push(Notice::ForkedChild { pid });
                    proof {
                        assert(pre.deep_view() =~= seq![
                            crate::actions::NoticeV::ForkedChild { pid },
                        ]);
                    }
                    h_advance(cfg, b, pre)
                },
                ForkOutcome::Child => {
                    let action_call = call.duplicate();
                    reply_ask(
                        no_notices(),
                        ProcState::AwaitKernel { call, ctx: MountCtx::Child },
                        MountAction::KernelMount { call: action_call },
                    )
                },
                ForkOutcome::Failed(e) => reply_fail(
                    no_notices(),
                    MountError::ForkFailed { errno: e },
                ),
            },
            _ => {
                proof {
                    assert(false);
                }
                (
                    ProcState::Finished,
                    Reply { notices: Vec::new(), step: Step::Done(Outcome::Completed(Ok(()))) },
                )
            },
        },
        ProcState::BulkReap { run } => match answer {
            Answer::Waited(w) => match w {
                WaitOutcome::NoChildren => h_run_done(cfg, run, no_notices()),
                WaitOutcome::Failed(e) => reply_fail(
                    no_notices(),
                    MountError::WaitFailed { errno: e },
                ),
                _ => reply_ask(
                    no_notices(),
                    ProcState::BulkReap { run },
                    MountAction::WaitChild,
                ),
            },
            _ => {
                proof {
                    assert(false);
                }
                (
                    ProcState::Finished,
                    Reply { notices: Vec::new(), step: Step::Done(Outcome::Completed(Ok(()))) },
                )
            },
        },
        ProcState::Init => {
            proof {
                assert(false);
            }
            (
                ProcState::Finished,
                Reply { notices: Vec::new(), step: Step::Done(Outcome::Completed(Ok(()))) },
            )
        },
        ProcState::Finished => {
            proof {
                assert(false);
            }
            (
                ProcState::Finished,
                Reply { notices: Vec::new(), step: Step::Done(Outcome::Completed(Ok(()))) },
            )
        },
    }
}

/// The fake-mode short circuit and kernel dispatch shared by the bind,
/// move and propagation handlers once their call is assembled.
fn finish_single(cfg: &Config, call: MountCall) -> (r: (ProcState, Reply))
    ensures
        ({
            let cv = call@;
            if cfg@.fake {
                follows(
                    r,
                    TransitionV {
                        state: ProcStateV::Finished,
                        notices: seq![crate::actions::NoticeV::FakeMount { call: cv }],
                        step: crate::actions::StepV::Done(
                            crate::actions::OutcomeV::Completed(Ok(())),
                        ),
                    },
                )
            } else {
                follows(
                    r,
                    crate::machine::ask_t(
                        ProcStateV::AwaitKernel { call: cv, ctx: MountCtxV::Single },
                        crate::actions::MountActionV::KernelMount { call: cv },
                    ),
                )
            }
        }),
{
    if cfg.fake {
        let ghost cv = call@;
        let mut pre = no_notices();
        pre.push(Notice::FakeMount { call });
        proof {
            assert(pre.deep_view() =~= seq![crate::actions::NoticeV::FakeMount { call: cv }]);
        }
        reply_done(pre, Outcome::Completed(Ok(())))
    } else {
        let action_call = call.duplicate();
        reply_ask(
            no_notices(),
            ProcState::AwaitKernel { call, ctx: MountCtx::Single },
            MountAction::KernelMount { call: action_call },
        )
    }
}

/// The propagation flag set of an operation, executably.
fn propagation_flags_exec(op: Operation) -> (r: MountFlags)
    ensures
        r == propagation_flags(op),
{
    match op {
        Operation::MakeShared => MountFlags { shared: true, ..MountFlags::empty() },
        Operation::MakeSlave => MountFlags { slave: true, ..MountFlags::empty() },
        Operation::MakePrivate => MountFlags { private: true, ..MountFlags::empty() },
        Operation::MakeUnbindable => MountFlags { unbindable: true, ..MountFlags::empty() },
        Operation::MakeRShared => MountFlags {
            shared: true,
            recursive: true,
            ..MountFlags::empty()
        },
        Operation::MakeRSlave => MountFlags { slave: true, recursive: true, ..MountFlags::empty() },
        Operation::MakeRPrivate => MountFlags {
            private: true,
            recursive: true,
            ..MountFlags::empty()
        },
        Operation::MakeRUnbindable => MountFlags {
            unbindable: true,
            recursive: true,
            ..MountFlags::empty()
        },
        _ => MountFlags::empty(),
    }
}

} // verus!
