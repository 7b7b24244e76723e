//! The operation dispatcher, source preparer, mount executor and bulk
//! mounter, as one verified request/response machine. The machine holds
//! the request and a state; each exchange hands the driver the next
//! `MountAction` to perform and receives the outcome back. Every
//! decision — validation order, skip rules, fake mode, the fallback
//! policy, the bulk loop and the reaping of workers — is made here; the
//! driver only performs actions and reports.
//!
//! The transition function is stated once, mathematically, as
//! `start_spec` and `next_spec`; the executable machine is proved to
//! follow it exactly.
use vstd::prelude::*;

use crate::actions::{
    Answer, AnswerV, CmdOutputV, FileKind, FileKindV, FstabRead, FstabReadV, ForkOutcome,
    MountAction, MountActionV, MountCall, MountCallV, MountsRead, MountsReadV, Notice, NoticeV,
    Outcome, OutcomeV, Reply, ReplyV, Step, StepV, WaitOutcome,
};
use crate::cmdline::{
    fallback_mount_args, fslabel_query_args, fstype_query_args, label_lookup_args,
    loop_attach_args, uuid_lookup_args,
};
use crate::errors::{MountError, MountErrorV};
use crate::flags::MountFlags;
use crate::fstab::{fstab_entries, fstab_warnings, FstabEntry, FstabEntryV};
use crate::mounts::mounts_table_lists;
use crate::options::{flags_of_tokens, initial_flags, tokens_subset, unknown_option_tokens};
use crate::request::{Config, ConfigV, Operation, SourceV};
use crate::text::{join_commas, split_char, trimmed};

verus! {

/// Which bulk run is underway: the standard table, or the alternative
/// table named on the request.
#[derive(Debug, Clone, Copy, PartialEq, Eq, Structural)]
pub enum BulkRun {
    Main,
    Alt,
}

/// Where a bulk run stands: its table's entries and the index of the
/// entry being processed.
pub struct BulkProgress {
    pub run: BulkRun,
    pub entries: Vec<FstabEntry>,
    pub index: usize,
}

/// The mathematical value of a `BulkProgress`.
pub struct BulkProgressV {
    pub run: BulkRun,
    pub entries: Seq<FstabEntryV>,
    pub index: int,
}

impl View for BulkProgress {
    type V = BulkProgressV;

    open spec fn view(&self) -> BulkProgressV {
        BulkProgressV {
            run: self.run,
            entries: self.entries.deep_view(),
            index: self.index as int,
        }
    }
}

/// For whom a source is being prepared: the normal handler, with its
/// target and filesystem type already fixed, or the bulk mounter.
pub enum PrepCtx {
    Normal { target: String, fstype: String },
    Bulk { b: BulkProgress },
}

/// The mathematical value of a `PrepCtx`.
pub enum PrepCtxV {
    Normal { target: Seq<char>, fstype: Seq<char> },
    Bulk { b: BulkProgressV },
}

impl View for PrepCtx {
    type V = PrepCtxV;

    open spec fn view(&self) -> PrepCtxV {
        match self {
            PrepCtx::Normal { target, fstype } => PrepCtxV::Normal {
                target: target@,
                fstype: fstype@,
            },
            PrepCtx::Bulk { b } => PrepCtxV::Bulk { b: b@ },
        }
    }
}

/// For whom the mount executor is running: the normal handler, a
/// single-shot handler (bind, move, propagation), a sequential bulk
/// entry, or a forked bulk worker.
pub enum MountCtx {
    Normal,
    Single,
    Bulk { b: BulkProgress },
    Child,
}

/// The mathematical value of a `MountCtx`.
pub enum MountCtxV {
    Normal,
    Single,
    Bulk { b: BulkProgressV },
    Child,
}

impl View for MountCtx {
    type V = MountCtxV;

    open spec fn view(&self) -> MountCtxV {
        match self {
            MountCtx::Normal => MountCtxV::Normal,
            MountCtx::Single => MountCtxV::Single,
            MountCtx::Bulk { b } => MountCtxV::Bulk { b: b@ },
            MountCtx::Child => MountCtxV::Child,
        }
    }
}

/// What the machine is waiting for.
pub enum ProcState {
    /// Not started yet.
    Init,
    /// The namespace switch.
    AwaitNamespace,
    /// The device lookup for a label source.
    AwaitLabelDevice { label: String },
    /// The device lookup for a UUID source.
    AwaitUuidDevice { uuid: String },
    /// The filesystem type query of the normal handler.
    AwaitFsType { device: String, target: String },
    /// The mount-table read of the normal handler.
    AwaitMounts { device: String, fstype: String, target: String },
    /// The root check of source preparation.
    PrepCheckRoot { source: String, ctx: PrepCtx },
    /// The metadata query of source preparation.
    PrepCheckKind { source: String, ctx: PrepCtx },
    /// The loop-device attach of source preparation.
    PrepAttachLoop { source: String, ctx: PrepCtx },
    /// The label query shown before a normal mount.
    AwaitFsLabel { call: MountCall },
    /// The kernel mount call.
    AwaitKernel { call: MountCall, ctx: MountCtx },
    /// The external mount fallback.
    AwaitFallback { call: MountCall, errno: i32, ctx: MountCtx },
    /// The existence check of a bind source.
    BindSrcCheck { source: String, target: String },
    /// The existence check of a bind target.
    BindTgtCheck { source: String, target: String },
    /// The existence check of a move source.
    MoveSrcCheck { source: String, target: String },
    /// The existence check of a move target.
    MoveTgtCheck { source: String, target: String },
    /// The mount-point check of a move source.
    MoveMountPointCheck { source: String, target: String },
    /// The existence check of a propagation target.
    PropTgtCheck { target: String },
    /// The read of an fstab table.
    BulkTable { run: BulkRun },
    /// The mount-table read for one bulk entry.
    BulkMounts { b: BulkProgress, prepared: String },
    /// The fork of a bulk worker.
    BulkFork { b: BulkProgress, call: MountCall },
    /// The wait for the bulk workers.
    BulkReap { run: BulkRun },
    /// The run has ended.
    Finished,
}

/// The mathematical value of a `ProcState`.
pub enum ProcStateV {
    Init,
    AwaitNamespace,
    AwaitLabelDevice { label: Seq<char> },
    AwaitUuidDevice { uuid: Seq<char> },
    AwaitFsType { device: Seq<char>, target: Seq<char> },
    AwaitMounts { device: Seq<char>, fstype: Seq<char>, target: Seq<char> },
    PrepCheckRoot { source: Seq<char>, ctx: PrepCtxV },
    PrepCheckKind { source: Seq<char>, ctx: PrepCtxV },
    PrepAttachLoop { source: Seq<char>, ctx: PrepCtxV },
    AwaitFsLabel { call: MountCallV },
    AwaitKernel { call: MountCallV, ctx: MountCtxV },
    AwaitFallback { call: MountCallV, errno: i32, ctx: MountCtxV },
    BindSrcCheck { source: Seq<char>, target: Seq<char> },
    BindTgtCheck { source: Seq<char>, target: Seq<char> },
    MoveSrcCheck { source: Seq<char>, target: Seq<char> },
    MoveTgtCheck { source: Seq<char>, target: Seq<char> },
    MoveMountPointCheck { source: Seq<char>, target: Seq<char> },
    PropTgtCheck { target: Seq<char> },
    BulkTable { run: BulkRun },
    BulkMounts { b: BulkProgressV, prepared: Seq<char> },
    BulkFork { b: BulkProgressV, call: MountCallV },
    BulkReap { run: BulkRun },
    Finished,
}

impl View for ProcState {
    type V = ProcStateV;

    open spec fn view(&self) -> ProcStateV {
        match self {
            ProcState::Init => ProcStateV::Init,
            ProcState::AwaitNamespace => ProcStateV::AwaitNamespace,
            ProcState::AwaitLabelDevice { label } => ProcStateV::AwaitLabelDevice {
                label: label@,
            },
            ProcState::AwaitUuidDevice { uuid } => ProcStateV::AwaitUuidDevice { uuid: uuid@ },
            ProcState::AwaitFsType { device, target } => ProcStateV::AwaitFsType {
                device: device@,
                target: target@,
            },
            ProcState::AwaitMounts { device, fstype, target } => ProcStateV::AwaitMounts {
                device: device@,
                fstype: fstype@,
                target: target@,
            },
            ProcState::PrepCheckRoot { source, ctx } => ProcStateV::PrepCheckRoot {
                source: source@,
                ctx: ctx@,
            },
            ProcState::PrepCheckKind { source, ctx } => ProcStateV::PrepCheckKind {
                source: source@,
                ctx: ctx@,
            },
            ProcState::PrepAttachLoop { source, ctx } => ProcStateV::PrepAttachLoop {
                source: source@,
                ctx: ctx@,
            },
            ProcState::AwaitFsLabel { call } => ProcStateV::AwaitFsLabel { call: call@ },
            ProcState::AwaitKernel { call, ctx } => ProcStateV::AwaitKernel {
                call: call@,
                ctx: ctx@,
            },
            ProcState::AwaitFallback { call, errno, ctx } => ProcStateV::AwaitFallback {
                call: call@,
                errno: *errno,
                ctx: ctx@,
            },
            ProcState::BindSrcCheck { source, target } => ProcStateV::BindSrcCheck {
                source: source@,
                target: target@,
            },
            ProcState::BindTgtCheck { source, target } => ProcStateV::BindTgtCheck {
                source: source@,
                target: target@,
            },
            ProcState::MoveSrcCheck { source, target } => ProcStateV::MoveSrcCheck {
                source: source@,
                target: target@,
            },
            ProcState::MoveTgtCheck { source, target } => ProcStateV::MoveTgtCheck {
                source: source@,
                target: target@,
            },
            ProcState::MoveMountPointCheck { source, target } => ProcStateV::MoveMountPointCheck {
                source: source@,
                target: target@,
            },
            ProcState::PropTgtCheck { target } => ProcStateV::PropTgtCheck { target: target@ },
            ProcState::BulkTable { run } => ProcStateV::BulkTable { run: *run },
            ProcState::BulkMounts { b, prepared } => ProcStateV::BulkMounts {
                b: b@,
                prepared: prepared@,
            },
            ProcState::BulkFork { b, call } => ProcStateV::BulkFork { b: b@, call: call@ },
            ProcState::BulkReap { run } => ProcStateV::BulkReap { run: *run },
            ProcState::Finished => ProcStateV::Finished,
        }
    }
}

/// One transition's result: the new state, the notices to report, and
/// the step handed to the driver.
pub struct TransitionV {
    pub state: ProcStateV,
    pub notices: Seq<NoticeV>,
    pub step: StepV,
}

/// A transition that ends the run.
pub open spec fn done_t(o: OutcomeV) -> TransitionV {
    TransitionV { state: ProcStateV::Finished, notices: Seq::empty(), step: StepV::Done(o) }
}

/// A transition that ends the run with an error.
pub open spec fn fail_t(e: MountErrorV) -> TransitionV {
    done_t(OutcomeV::Completed(Err(e)))
}

/// A transition that asks the driver for an action.
pub open spec fn ask_t(state: ProcStateV, a: MountActionV) -> TransitionV {
    TransitionV { state, notices: Seq::empty(), step: StepV::Ask(a) }
}

/// `t` with notices reported before its own.
pub open spec fn with_pre(pre: Seq<NoticeV>, t: TransitionV) -> TransitionV {
    TransitionV { state: t.state, notices: pre + t.notices, step: t.step }
}

/// The kernel flags of a normal mount: the translated option string,
/// with read-only forced when the request says so.
pub open spec fn normal_flags(cfg: ConfigV) -> MountFlags {
    match cfg.options.options {
        Some(s) => flags_of_tokens(initial_flags(cfg.options.read_only), split_char(s, ',')),
        None => initial_flags(cfg.options.read_only),
    }
}

/// The residual data string of a normal mount: the unknown option
/// tokens, comma-joined, or nothing when every token was recognised.
pub open spec fn normal_data(cfg: ConfigV) -> Option<Seq<char>> {
    match cfg.options.options {
        Some(s) => {
            let unk = unknown_option_tokens(split_char(s, ','));
            if unk.len() == 0 {
                None
            } else {
                Some(join_commas(unk))
            }
        },
        None => None,
    }
}

/// The fixed safety flags of every bulk entry: no setuid, no exec.
pub open spec fn bulk_flags() -> MountFlags {
    MountFlags { no_suid: true, no_exec: true, ..MountFlags::spec_empty() }
}

/// The propagation flag set of a propagation operation.
pub open spec fn propagation_flags(op: Operation) -> MountFlags {
    match op {
        Operation::MakeShared => MountFlags { shared: true, ..MountFlags::spec_empty() },
        Operation::MakeSlave => MountFlags { slave: true, ..MountFlags::spec_empty() },
        Operation::MakePrivate => MountFlags { private: true, ..MountFlags::spec_empty() },
        Operation::MakeUnbindable => MountFlags { unbindable: true, ..MountFlags::spec_empty() },
        Operation::MakeRShared => MountFlags {
            shared: true,
            recursive: true,
            ..MountFlags::spec_empty()
        },
        Operation::MakeRSlave => MountFlags {
            slave: true,
            recursive: true,
            ..MountFlags::spec_empty()
        },
        Operation::MakeRPrivate => MountFlags {
            private: true,
            recursive: true,
            ..MountFlags::spec_empty()
        },
        Operation::MakeRUnbindable => MountFlags {
            unbindable: true,
            recursive: true,
            ..MountFlags::spec_empty()
        },
        _ => MountFlags::spec_empty(),
    }
}

/// Whether the bulk run forks one worker per entry: only the standard
/// run does, and only when both the fork and the all flag are set.
pub open spec fn run_forked(cfg: ConfigV, run: BulkRun) -> bool {
    run == BulkRun::Main && cfg.fork && cfg.all
}

/// The table path of a bulk run. The alternative run only arises when
/// the request names a table; with none named its path reads as empty.
pub open spec fn run_path(cfg: ConfigV, run: BulkRun) -> Seq<char> {
    match run {
        BulkRun::Main => "/etc/fstab"@,
        BulkRun::Alt => match cfg.fstab {
            Some(p) => p,
            None => Seq::empty(),
        },
    }
}

/// Concatenation of notice sequences is associative.
pub broadcast proof fn lemma_notices_concat_assoc(
    a: Seq<NoticeV>,
    b: Seq<NoticeV>,
    c: Seq<NoticeV>,
)
    ensures
        #[trigger] ((a + b) + c) == a + (b + c),
{
    assert((a + b) + c =~= a + (b + c));
}

/// The mtab bookkeeping of a successful mount: the update step runs
/// unless the request suppresses it; either way it is reported.
pub open spec fn mtab_notices(cfg: ConfigV, call: MountCallV) -> Seq<NoticeV> {
    if cfg.no_mtab {
        seq![NoticeV::MtabSkipped]
    } else {
        seq![
            NoticeV::MtabUpdated {
                source: match call.source {
                    Some(s) => s,
                    None => Seq::empty(),
                },
                target: call.target,
                fstype: match call.fstype {
                    Some(f) => f,
                    None => Seq::empty(),
                },
            },
        ]
    }
}

/// The source a bulk failure notice names.
pub open spec fn call_source(call: MountCallV) -> Seq<char> {
    match call.source {
        Some(s) => s,
        None => Seq::empty(),
    }
}

/// What a bulk run does once no entries are left: reap the forked
/// workers, or finish at once.
pub open spec fn finish_run_spec(cfg: ConfigV, run: BulkRun) -> TransitionV {
    if run_forked(cfg, run) {
        ask_t(ProcStateV::BulkReap { run }, MountActionV::WaitChild)
    } else {
        run_done_spec(cfg, run)
    }
}

/// What follows a finished bulk run: the alternative table, if the
/// standard run just ended and one was named, else success.
pub open spec fn run_done_spec(cfg: ConfigV, run: BulkRun) -> TransitionV {
    if run == BulkRun::Main && cfg.fstab is Some {
        ask_t(
            ProcStateV::BulkTable { run: BulkRun::Alt },
            MountActionV::ReadFstab { path: cfg.fstab->0 },
        )
    } else {
        done_t(OutcomeV::Completed(Ok(())))
    }
}

/// Begins the entry at `b.index`: every entry starts with the root
/// check of source preparation. Past the last entry the run finishes.
pub open spec fn entry_step_spec(cfg: ConfigV, b: BulkProgressV) -> TransitionV {
    if b.index >= b.entries.len() {
        finish_run_spec(cfg, b.run)
    } else {
        ask_t(
            ProcStateV::PrepCheckRoot {
                source: b.entries[b.index].source,
                ctx: PrepCtxV::Bulk { b },
            },
            MountActionV::CheckIsRoot,
        )
    }
}

/// Moves a bulk run past the current entry.
pub open spec fn advance_spec(cfg: ConfigV, b: BulkProgressV) -> TransitionV {
    entry_step_spec(cfg, BulkProgressV { run: b.run, entries: b.entries, index: b.index + 1 })
}

/// What a failed source preparation does: fatal for the normal
/// handler, one reported entry failure for the bulk mounter.
pub open spec fn prep_fail_spec(cfg: ConfigV, ctx: PrepCtxV, source: Seq<char>, e: MountErrorV) -> TransitionV {
    match ctx {
        PrepCtxV::Normal { .. } => fail_t(e),
        PrepCtxV::Bulk { b } => with_pre(
            seq![NoticeV::EntryFailed { source, error: e }],
            advance_spec(cfg, b),
        ),
    }
}

/// What a prepared source leads to. The normal handler queries the
/// filesystem label if labels were asked for, then mounts; a bulk entry
/// first applies the test-option restriction, then consults the mount
/// table.
pub open spec fn prep_done_spec(cfg: ConfigV, ctx: PrepCtxV, prepared: Seq<char>) -> TransitionV {
    match ctx {
        PrepCtxV::Normal { target, fstype } => {
            let call = MountCallV {
                source: Some(prepared),
                target,
                fstype: Some(fstype),
                flags: normal_flags(cfg),
                data: normal_data(cfg),
            };
            if cfg.show_labels {
                ask_t(
                    ProcStateV::AwaitFsLabel { call },
                    MountActionV::RunBlkid { args: fslabel_query_args(prepared) },
                )
            } else {
                ask_t(
                    ProcStateV::AwaitKernel { call, ctx: MountCtxV::Normal },
                    MountActionV::KernelMount { call },
                )
            }
        },
        PrepCtxV::Bulk { b } => {
            if b.index >= b.entries.len() {
                finish_run_spec(cfg, b.run)
            } else {
                let e = b.entries[b.index];
                match cfg.options.test_opts {
                    Some(t) => {
                        if tokens_subset(split_char(t, ','), split_char(e.options, ',')) {
                            ask_t(
                                ProcStateV::BulkMounts { b, prepared },
                                MountActionV::ReadMounts,
                            )
                        } else {
                            with_pre(
                                seq![NoticeV::SkippedTestOpts { target: e.target }],
                                advance_spec(cfg, b),
                            )
                        }
                    },
                    None => ask_t(
                        ProcStateV::BulkMounts { b, prepared },
                        MountActionV::ReadMounts,
                    ),
                }
            }
        },
    }
}

/// What a successful mount call leads to, by executor context: the
/// mtab bookkeeping and the success report, then the end of the run,
/// the next bulk entry, or the worker's clean exit.
pub open spec fn mount_success_spec(cfg: ConfigV, call: MountCallV, ctx: MountCtxV) -> TransitionV {
    match ctx {
        MountCtxV::Normal => TransitionV {
            state: ProcStateV::Finished,
            notices: mtab_notices(cfg, call) + seq![
                NoticeV::MountSucceeded { target: call.target },
            ],
            step: StepV::Done(OutcomeV::Completed(Ok(()))),
        },
        MountCtxV::Single => TransitionV {
            state: ProcStateV::Finished,
            notices: seq![NoticeV::MountSucceeded { target: call.target }],
            step: StepV::Done(OutcomeV::Completed(Ok(()))),
        },
        MountCtxV::Bulk { b } => with_pre(
            mtab_notices(cfg, call) + seq![NoticeV::MountSucceeded { target: call.target }],
            advance_spec(cfg, b),
        ),
        MountCtxV::Child => TransitionV {
            state: ProcStateV::Finished,
            notices: mtab_notices(cfg, call) + seq![
                NoticeV::MountSucceeded { target: call.target },
            ],
            step: StepV::Done(OutcomeV::ChildExit(0)),
        },
    }
}

/// What a failed mount call leads to, by executor context: fatal for a
/// single request, one reported entry failure for a sequential bulk
/// entry, a non-zero exit for a forked worker.
pub open spec fn mount_fail_spec(cfg: ConfigV, call: MountCallV, ctx: MountCtxV, e: MountErrorV) -> TransitionV {
    match ctx {
        MountCtxV::Normal => fail_t(e),
        MountCtxV::Single => fail_t(e),
        MountCtxV::Bulk { b } => with_pre(
            seq![NoticeV::EntryFailed { source: call_source(call), error: e }],
            advance_spec(cfg, b),
        ),
        MountCtxV::Child => TransitionV {
            state: ProcStateV::Finished,
            notices: seq![NoticeV::EntryFailed { source: call_source(call), error: e }],
            step: StepV::Done(OutcomeV::ChildExit(1)),
        },
    }
}

/// The normal handler once source and filesystem type are fixed: fake
/// mode reports the exact call it would have made and succeeds without
/// touching anything; otherwise the mount table is consulted first.
pub open spec fn normal_fstype_spec(
    cfg: ConfigV,
    device: Seq<char>,
    target: Seq<char>,
    fstype: Seq<char>,
) -> TransitionV {
    let call = MountCallV {
        source: Some(device),
        target,
        fstype: Some(fstype),
        flags: normal_flags(cfg),
        data: normal_data(cfg),
    };
    if cfg.fake {
        TransitionV {
            state: ProcStateV::Finished,
            notices: seq![NoticeV::FakeMount { call }],
            step: StepV::Done(OutcomeV::Completed(Ok(()))),
        }
    } else {
        ask_t(
            ProcStateV::AwaitMounts { device, fstype, target },
            MountActionV::ReadMounts,
        )
    }
}

/// The normal handler once the source is resolved to a device: the
/// target must be present; the filesystem type is taken from the
/// request or queried.
pub open spec fn normal_device_spec(cfg: ConfigV, device: Seq<char>) -> TransitionV {
    match cfg.target {
        None => fail_t(MountErrorV::MissingTarget),
        Some(t) => match cfg.options.types {
            Some(ft) => normal_fstype_spec(cfg, device, t, ft),
            None => ask_t(
                ProcStateV::AwaitFsType { device, target: t },
                MountActionV::RunBlkid { args: fstype_query_args(device) },
            ),
        },
    }
}

/// The dispatcher: the bulk mounter when the all flag or an alternative
/// table is given, else the handler of the request's one operation.
/// Validation runs before any action: a move refuses a label or UUID
/// source before anything is resolved, and the propagation handlers
/// read nothing but the target.
pub open spec fn dispatch_spec(cfg: ConfigV) -> TransitionV {
    if cfg.all {
        ask_t(
            ProcStateV::BulkTable { run: BulkRun::Main },
            MountActionV::ReadFstab { path: "/etc/fstab"@ },
        )
    } else if cfg.fstab is Some {
        ask_t(
            ProcStateV::BulkTable { run: BulkRun::Alt },
            MountActionV::ReadFstab { path: cfg.fstab->0 },
        )
    } else {
        match cfg.operation {
            Operation::Normal => match cfg.source {
                None => fail_t(MountErrorV::MissingSource),
                Some(SourceV::Device(d)) => with_pre(
                    seq![NoticeV::ResolvedSource { device: d }],
                    normal_device_spec(cfg, d),
                ),
                Some(SourceV::Label(l)) => ask_t(
                    ProcStateV::AwaitLabelDevice { label: l },
                    MountActionV::RunBlkid { args: label_lookup_args(l) },
                ),
                Some(SourceV::UUID(u)) => ask_t(
                    ProcStateV::AwaitUuidDevice { uuid: u },
                    MountActionV::RunBlkid { args: uuid_lookup_args(u) },
                ),
            },
            Operation::Bind | Operation::RBind => match cfg.source {
                None => fail_t(MountErrorV::MissingSource),
                Some(SourceV::Device(s)) => match cfg.target {
                    None => fail_t(MountErrorV::MissingTarget),
                    Some(t) => ask_t(
                        ProcStateV::BindSrcCheck { source: s, target: t },
                        MountActionV::CheckPathExists { path: s },
                    ),
                },
                Some(_) => fail_t(MountErrorV::SourceNotDevicePath),
            },
            Operation::Move => match cfg.source {
                None => fail_t(MountErrorV::MissingSource),
                Some(SourceV::Device(s)) => match cfg.target {
                    None => fail_t(MountErrorV::MissingTarget),
                    Some(t) => ask_t(
                        ProcStateV::MoveSrcCheck { source: s, target: t },
                        MountActionV::CheckPathExists { path: s },
                    ),
                },
                Some(_) => fail_t(MountErrorV::MoveNeedsDevicePath),
            },
            _ => match cfg.target {
                None => fail_t(MountErrorV::MissingTarget),
                Some(t) => ask_t(
                    ProcStateV::PropTgtCheck { target: t },
                    MountActionV::CheckPathExists { path: t },
                ),
            },
        }
    }
}

/// The first step of a run: the namespace switch when one is named,
/// before anything else; otherwise straight to the dispatcher.
pub open spec fn start_spec(cfg: ConfigV) -> TransitionV {
    match cfg.namespace {
        Some(ns) => ask_t(
            ProcStateV::AwaitNamespace,
            MountActionV::SwitchNamespace { path: ns },
        ),
        None => dispatch_spec(cfg),
    }
}

/// The warnings of a parsed table, as notices.
pub open spec fn warning_notices(content: Seq<char>) -> Seq<NoticeV> {
    fstab_warnings(content).map_values(|w: int| NoticeV::MalformedFstabLine { line: w })
}

/// What a loaded table leads to: a directory or an unreadable file
/// aborts the run; otherwise every malformed line is reported, an
/// entirely entry-less table is an error, and the first entry begins.
pub open spec fn table_loaded_spec(cfg: ConfigV, run: BulkRun, f: FstabReadV) -> TransitionV {
    match f {
        FstabReadV::IsDirectory => fail_t(
            MountErrorV::FstabIsDirectory { path: run_path(cfg, run) },
        ),
        FstabReadV::OpenError(d) => fail_t(
            MountErrorV::FstabOpenFailed { path: run_path(cfg, run), detail: d },
        ),
        FstabReadV::Content(c) => {
            let entries = fstab_entries(c);
            if entries.len() == 0 {
                with_pre(warning_notices(c), fail_t(MountErrorV::FstabEmpty))
            } else {
                with_pre(
                    warning_notices(c),
                    entry_step_spec(cfg, BulkProgressV { run, entries, index: 0 }),
                )
            }
        },
    }
}

/// What one bulk entry does with the mount table: a read failure is
/// that entry's failure; an already-mounted target and a swap entry
/// are reported skips; fake mode reports the call it would have made;
/// otherwise the entry is mounted, in a forked worker when the run
/// forks.
pub open spec fn bulk_mounts_spec(
    cfg: ConfigV,
    b: BulkProgressV,
    prepared: Seq<char>,
    m: MountsReadV,
) -> TransitionV {
    if b.index >= b.entries.len() {
        finish_run_spec(cfg, b.run)
    } else {
        let e = b.entries[b.index];
        match m {
            MountsReadV::OpenError(d) => with_pre(
                seq![
                    NoticeV::EntryFailed {
                        source: prepared,
                        error: MountErrorV::MountsReadFailed { detail: d },
                    },
                ],
                advance_spec(cfg, b),
            ),
            MountsReadV::Content(c) => {
                if mounts_table_lists(c, e.target) {
                    with_pre(
                        seq![NoticeV::AlreadyMounted { target: e.target }],
                        advance_spec(cfg, b),
                    )
                } else if e.fstype == "swap"@ {
                    with_pre(
                        seq![NoticeV::SkippedSwap { source: e.source }],
                        advance_spec(cfg, b),
                    )
                } else {
                    let call = MountCallV {
                        source: Some(prepared),
                        target: e.target,
                        fstype: Some(e.fstype),
                        flags: bulk_flags(),
                        data: None,
                    };
                    if cfg.fake {
                        with_pre(seq![NoticeV::FakeMount { call }], advance_spec(cfg, b))
                    } else if run_forked(cfg, b.run) {
                        ask_t(ProcStateV::BulkFork { b, call }, MountActionV::Fork)
                    } else {
                        ask_t(
                            ProcStateV::AwaitKernel { call, ctx: MountCtxV::Bulk { b } },
                            MountActionV::KernelMount { call },
                        )
                    }
                }
            },
        }
    }
}

/// The one transition function: what the machine in state `st` does
/// with the driver's answer, under request `cfg`. An answer of the
/// wrong shape for the state ends the run; the executable machine
/// requires well-shaped answers and never reaches that case.
pub open spec fn next_spec(cfg: ConfigV, st: ProcStateV, a: AnswerV) -> TransitionV {
    match (st, a) {
        (ProcStateV::AwaitNamespace, AnswerV::Switched(r)) => match r {
            Ok(_) => dispatch_spec(cfg),
            Err(e) => fail_t(MountErrorV::NamespaceSwitchFailed { errno: e }),
        },
        (ProcStateV::AwaitLabelDevice { label }, AnswerV::Cmd(c)) => {
            if c.success {
                let device = trimmed(c.stdout);
                with_pre(
                    seq![NoticeV::ResolvedSource { device }],
                    normal_device_spec(cfg, device),
                )
            } else {
                fail_t(MountErrorV::LabelNotFound { label })
            }
        },
        (ProcStateV::AwaitUuidDevice { uuid }, AnswerV::Cmd(c)) => {
            if c.success {
                let device = trimmed(c.stdout);
                with_pre(
                    seq![NoticeV::ResolvedSource { device }],
                    normal_device_spec(cfg, device),
                )
            } else {
                fail_t(MountErrorV::UuidNotFound { uuid })
            }
        },
        (ProcStateV::AwaitFsType { device, target }, AnswerV::Cmd(c)) => {
            let t = trimmed(c.stdout);
            if t.len() == 0 {
                fail_t(MountErrorV::FsTypeUnknown { device })
            } else {
                normal_fstype_spec(cfg, device, target, t)
            }
        },
        (ProcStateV::AwaitMounts { device, fstype, target }, AnswerV::Mounts(m)) => match m {
            MountsReadV::OpenError(d) => fail_t(MountErrorV::MountsReadFailed { detail: d }),
            MountsReadV::Content(c) => {
                if mounts_table_lists(c, target) {
                    TransitionV {
                        state: ProcStateV::Finished,
                        notices: seq![NoticeV::AlreadyMounted { target }],
                        step: StepV::Done(OutcomeV::Completed(Ok(()))),
                    }
                } else {
                    ask_t(
                        ProcStateV::PrepCheckRoot {
                            source: device,
                            ctx: PrepCtxV::Normal { target, fstype },
                        },
                        MountActionV::CheckIsRoot,
                    )
                }
            },
        },
        (ProcStateV::PrepCheckRoot { source, ctx }, AnswerV::Flag(b)) => {
            if b {
                ask_t(
                    ProcStateV::PrepCheckKind { source, ctx },
                    MountActionV::QueryFileKind { path: source },
                )
            } else {
                prep_fail_spec(cfg, ctx, source, MountErrorV::PermissionDenied)
            }
        },
        (ProcStateV::PrepCheckKind { source, ctx }, AnswerV::Kind(k)) => match k {
            FileKindV::BlockDevice => prep_done_spec(cfg, ctx, source),
            FileKindV::NotBlock => ask_t(
                ProcStateV::PrepAttachLoop { source, ctx },
                MountActionV::RunLosetup { args: loop_attach_args(source) },
            ),
            FileKindV::Missing(d) => prep_fail_spec(
                cfg,
                ctx,
                source,
                MountErrorV::SourceStatFailed { path: source, detail: d },
            ),
        },
        (ProcStateV::PrepAttachLoop { source, ctx }, AnswerV::Cmd(c)) => {
            if c.success {
                prep_done_spec(cfg, ctx, trimmed(c.stdout))
            } else {
                prep_fail_spec(cfg, ctx, source, MountErrorV::LoopSetupFailed { detail: c.stderr })
            }
        },
        (ProcStateV::AwaitFsLabel { call }, AnswerV::Cmd(c)) => {
            let label = trimmed(c.stdout);
            let pre: Seq<NoticeV> = if c.success && label.len() > 0 {
                seq![NoticeV::FilesystemLabel { label }]
            } else {
                Seq::empty()
            };
            with_pre(
                pre,
                ask_t(
                    ProcStateV::AwaitKernel { call, ctx: MountCtxV::Normal },
                    MountActionV::KernelMount { call },
                ),
            )
        },
        (ProcStateV::AwaitKernel { call, ctx }, AnswerV::Mounted(r)) => match r {
            Ok(_) => mount_success_spec(cfg, call, ctx),
            Err(errno) => {
                if cfg.internal_only || !call.flags.spec_fallback_translatable() {
                    mount_fail_spec(cfg, call, ctx, MountErrorV::KernelMountFailed { errno })
                } else {
                    with_pre(
                        seq![NoticeV::KernelMountFailedRetrying { errno }],
                        ask_t(
                            ProcStateV::AwaitFallback { call, errno, ctx },
                            MountActionV::RunFallbackMount { args: fallback_mount_args(call) },
                        ),
                    )
                }
            },
        },
        (ProcStateV::AwaitFallback { call, errno, ctx }, AnswerV::FallbackStatus { success, code }) => {
            if success {
                mount_success_spec(cfg, call, ctx)
            } else {
                mount_fail_spec(cfg, call, ctx, MountErrorV::FallbackFailed { errno, code })
            }
        },
        (ProcStateV::BindSrcCheck { source, target }, AnswerV::Flag(b)) => {
            if b {
                ask_t(
                    ProcStateV::BindTgtCheck { source, target },
                    MountActionV::CheckPathExists { path: target },
                )
            } else {
                fail_t(MountErrorV::PathNotFound { path: source })
            }
        },
        (ProcStateV::BindTgtCheck { source, target }, AnswerV::Flag(b)) => {
            if b {
                let call = MountCallV {
                    source: Some(source),
                    target,
                    fstype: None,
                    flags: MountFlags {
                        bind: true,
                        recursive: cfg.operation == Operation::RBind,
                        ..MountFlags::spec_empty()
                    },
                    data: None,
                };
                if cfg.fake {
                    TransitionV {
                        state: ProcStateV::Finished,
                        notices: seq![NoticeV::FakeMount { call }],
                        step: StepV::Done(OutcomeV::Completed(Ok(()))),
                    }
                } else {
                    ask_t(
                        ProcStateV::AwaitKernel { call, ctx: MountCtxV::Single },
                        MountActionV::KernelMount { call },
                    )
                }
            } else {
                fail_t(MountErrorV::PathNotFound { path: target })
            }
        },
        (ProcStateV::MoveSrcCheck { source, target }, AnswerV::Flag(b)) => {
            if b {
                ask_t(
                    ProcStateV::MoveTgtCheck { source, target },
                    MountActionV::CheckPathExists { path: target },
                )
            } else {
                fail_t(MountErrorV::PathNotFound { path: source })
            }
        },
        (ProcStateV::MoveTgtCheck { source, target }, AnswerV::Flag(b)) => {
            if b {
                ask_t(
                    ProcStateV::MoveMountPointCheck { source, target },
                    MountActionV::CheckIsMountPoint { path: source },
                )
            } else {
                fail_t(MountErrorV::PathNotFound { path: target })
            }
        },
        (ProcStateV::MoveMountPointCheck { source, target }, AnswerV::Flag(b)) => {
            if b {
                let call = MountCallV {
                    source: Some(source),
                    target,
                    fstype: None,
                    flags: MountFlags { move_mount: true, ..MountFlags::spec_empty() },
                    data: None,
                };
                if cfg.fake {
                    TransitionV {
                        state: ProcStateV::Finished,
                        notices: seq![NoticeV::FakeMount { call }],
                        step: StepV::Done(OutcomeV::Completed(Ok(()))),
                    }
                } else {
                    ask_t(
                        ProcStateV::AwaitKernel { call, ctx: MountCtxV::Single },
                        MountActionV::KernelMount { call },
                    )
                }
            } else {
                fail_t(MountErrorV::NotAMountPoint { path: source })
            }
        },
        (ProcStateV::PropTgtCheck { target }, AnswerV::Flag(b)) => {
            if b {
                let call = MountCallV {
                    source: None,
                    target,
                    fstype: None,
                    flags: propagation_flags(cfg.operation),
                    data: None,
                };
                if cfg.fake {
                    TransitionV {
                        state: ProcStateV::Finished,
                        notices: seq![NoticeV::FakeMount { call }],
                        step: StepV::Done(OutcomeV::Completed(Ok(()))),
                    }
                } else {
                    ask_t(
                        ProcStateV::AwaitKernel { call, ctx: MountCtxV::Single },
                        MountActionV::KernelMount { call },
                    )
                }
            } else {
                fail_t(MountErrorV::PathNotFound { path: target })
            }
        },
        (ProcStateV::BulkTable { run }, AnswerV::Fstab(f)) => table_loaded_spec(cfg, run, f),
        (ProcStateV::BulkMounts { b, prepared }, AnswerV::Mounts(m)) => bulk_mounts_spec(
            cfg,
            b,
            prepared,
            m,
        ),
        (ProcStateV::BulkFork { b, call }, AnswerV::Forked(f)) => match f {
            ForkOutcome::Parent(pid) => with_pre(
                seq![NoticeV::ForkedChild { pid }],
                advance_spec(cfg, b),
            ),
            ForkOutcome::Child => ask_t(
                ProcStateV::AwaitKernel { call, ctx: MountCtxV::Child },
                MountActionV::KernelMount { call },
            ),
            ForkOutcome::Failed(e) => fail_t(MountErrorV::ForkFailed { errno: e }),
        },
        (ProcStateV::BulkReap { run }, AnswerV::Waited(w)) => match w {
            WaitOutcome::NoChildren => run_done_spec(cfg, run),
            WaitOutcome::Failed(e) => fail_t(MountErrorV::WaitFailed { errno: e }),
            _ => ask_t(ProcStateV::BulkReap { run }, MountActionV::WaitChild),
        },
        _ => done_t(OutcomeV::Completed(Ok(()))),
    }
}

/// Whether the answer has the shape the waiting state calls for. The
/// executable machine accepts only well-shaped answers.
pub open spec fn expects(st: ProcStateV, a: AnswerV) -> bool {
    match st {
        ProcStateV::AwaitNamespace => a is Switched,
        ProcStateV::AwaitLabelDevice { .. } => a is Cmd,
        ProcStateV::AwaitUuidDevice { .. } => a is Cmd,
        ProcStateV::AwaitFsType { .. } => a is Cmd,
        ProcStateV::AwaitMounts { .. } => a is Mounts,
        ProcStateV::PrepCheckRoot { .. } => a is Flag,
        ProcStateV::PrepCheckKind { .. } => a is Kind,
        ProcStateV::PrepAttachLoop { .. } => a is Cmd,
        ProcStateV::AwaitFsLabel { .. } => a is Cmd,
        ProcStateV::AwaitKernel { .. } => a is Mounted,
        ProcStateV::AwaitFallback { .. } => a is FallbackStatus,
        ProcStateV::BindSrcCheck { .. } => a is Flag,
        ProcStateV::BindTgtCheck { .. } => a is Flag,
        ProcStateV::MoveSrcCheck { .. } => a is Flag,
        ProcStateV::MoveTgtCheck { .. } => a is Flag,
        ProcStateV::MoveMountPointCheck { .. } => a is Flag,
        ProcStateV::PropTgtCheck { .. } => a is Flag,
        ProcStateV::BulkTable { .. } => a is Fstab,
        ProcStateV::BulkMounts { .. } => a is Mounts,
        ProcStateV::BulkFork { .. } => a is Forked,
        ProcStateV::BulkReap { .. } => a is Waited,
        ProcStateV::Init => false,
        ProcStateV::Finished => false,
    }
}

} // verus!
