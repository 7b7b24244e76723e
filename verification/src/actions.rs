//! The vocabulary between the verified mount logic and its driver. The
//! logic never performs a syscall or runs a tool itself: it hands the
//! driver a `MountAction` to perform, receives the outcome back as an
//! `Answer`, and emits `Notice` values for the driver's reporter. The
//! argument lists of every external tool invocation are built here, in
//! verified code.
use vstd::prelude::*;

use crate::errors::{MountError, MountErrorV};
use crate::flags::MountFlags;

verus! {

/// One kernel mount invocation, fully assembled.
#[derive(Debug, PartialEq, Eq)]
pub struct MountCall {
    pub source: Option<String>,
    pub target: String,
    pub fstype: Option<String>,
    pub flags: MountFlags,
    pub data: Option<String>,
}

/// The mathematical value of a `MountCall`.
pub struct MountCallV {
    pub source: Option<Seq<char>>,
    pub target: Seq<char>,
    pub fstype: Option<Seq<char>>,
    pub flags: MountFlags,
    pub data: Option<Seq<char>>,
}

impl View for MountCall {
    type V = MountCallV;

    open spec fn view(&self) -> MountCallV {
        MountCallV {
            source: self.source.deep_view(),
            target: self.target@,
            fstype: self.fstype.deep_view(),
            flags: self.flags,
            data: self.data.deep_view(),
        }
    }
}

impl MountCall {
    /// A field-for-field copy.
    pub fn duplicate(&self) -> (r: MountCall)
        ensures
            r@ == self@,
    {
        MountCall {
            source: match &self.source {
                Some(s) => Some(s.clone()),
                None => None,
            },
            target: self.target.clone(),
            fstype: match &self.fstype {
                Some(s) => Some(s.clone()),
                None => None,
            },
            flags: self.flags,
            data: match &self.data {
                Some(s) => Some(s.clone()),
                None => None,
            },
        }
    }
}

/// What the driver is asked to do next.
#[derive(Debug, PartialEq, Eq)]
pub enum MountAction {
    /// Re-associate the calling thread with the mount namespace behind
    /// the file at `path`.
    SwitchNamespace { path: String },
    /// Read the fstab-format table at `path`.
    ReadFstab { path: String },
    /// Read the kernel mount table.
    ReadMounts,
    /// Report whether the effective user is root.
    CheckIsRoot,
    /// Report whether `path` exists on disk.
    CheckPathExists { path: String },
    /// Report whether `path` is a mount point.
    CheckIsMountPoint { path: String },
    /// Report whether `path` is a block device, something else, or
    /// unreadable.
    QueryFileKind { path: String },
    /// Run the blkid tool with the given arguments.
    RunBlkid { args: Vec<String> },
    /// Run the loop-device attach tool with the given arguments.
    RunLosetup { args: Vec<String> },
    /// Perform the kernel mount call.
    KernelMount { call: MountCall },
    /// Run the external mount command with the given arguments.
    RunFallbackMount { args: Vec<String> },
    /// Fork a worker process.
    Fork,
    /// Wait for any child process.
    WaitChild,
}

/// The mathematical value of a `MountAction`.
pub enum MountActionV {
    SwitchNamespace { path: Seq<char> },
    ReadFstab { path: Seq<char> },
    ReadMounts,
    CheckIsRoot,
    CheckPathExists { path: Seq<char> },
    CheckIsMountPoint { path: Seq<char> },
    QueryFileKind { path: Seq<char> },
    RunBlkid { args: Seq<Seq<char>> },
    RunLosetup { args: Seq<Seq<char>> },
    KernelMount { call: MountCallV },
    RunFallbackMount { args: Seq<Seq<char>> },
    Fork,
    WaitChild,
}

impl View for MountAction {
    type V = MountActionV;

    open spec fn view(&self) -> MountActionV {
        match self {
            MountAction::SwitchNamespace { path } => MountActionV::SwitchNamespace { path: path@ },
            MountAction::ReadFstab { path } => MountActionV::ReadFstab { path: path@ },
            MountAction::ReadMounts => MountActionV::ReadMounts,
            MountAction::CheckIsRoot => MountActionV::CheckIsRoot,
            MountAction::CheckPathExists { path } => MountActionV::CheckPathExists { path: path@ },
            MountAction::CheckIsMountPoint { path } => MountActionV::CheckIsMountPoint {
                path: path@,
            },
            MountAction::QueryFileKind { path } => MountActionV::QueryFileKind { path: path@ },
            MountAction::RunBlkid { args } => MountActionV::RunBlkid { args: args.deep_view() },
            MountAction::RunLosetup { args } => MountActionV::RunLosetup { args: args.deep_view() },
            MountAction::KernelMount { call } => MountActionV::KernelMount { call: call@ },
            MountAction::RunFallbackMount { args } => MountActionV::RunFallbackMount {
                args: args.deep_view(),
            },
            MountAction::Fork => MountActionV::Fork,
            MountAction::WaitChild => MountActionV::WaitChild,
        }
    }
}

/// Whether performing the action can change kernel state, loop devices,
/// the namespace, or spawn a process. Reads and queries are not
/// mutating; the namespace switch, a loop attach, both mount paths and
/// a fork are.
pub open spec fn action_mutates(a: MountActionV) -> bool {
    match a {
        MountActionV::SwitchNamespace { .. } => true,
        MountActionV::RunLosetup { .. } => true,
        MountActionV::KernelMount { .. } => true,
        MountActionV::RunFallbackMount { .. } => true,
        MountActionV::Fork => true,
        _ => false,
    }
}

/// Exec mirror of `action_mutates`, for tests and drivers.
pub fn action_is_mutating(a: &MountAction) -> (r: bool)
    ensures
        r == action_mutates(a@),
{
    match a {
        MountAction::SwitchNamespace { .. } => true,
        MountAction::RunLosetup { .. } => true,
        MountAction::KernelMount { .. } => true,
        MountAction::RunFallbackMount { .. } => true,
        MountAction::Fork => true,
        _ => false,
    }
}

/// What reading the fstab table produced.
#[derive(Debug, PartialEq, Eq)]
pub enum FstabRead {
    Content(String),
    IsDirectory,
    OpenError(String),
}

/// What reading the kernel mount table produced.
#[derive(Debug, PartialEq, Eq)]
pub enum MountsRead {
    Content(String),
    OpenError(String),
}

/// What the metadata of a mount source showed.
#[derive(Debug, PartialEq, Eq)]
pub enum FileKind {
    BlockDevice,
    NotBlock,
    Missing(String),
}

/// What running an external tool produced.
#[derive(Debug, PartialEq, Eq)]
pub struct CmdOutput {
    pub success: bool,
    pub stdout: String,
    pub stderr: String,
}

/// What forking produced.
#[derive(Debug, Clone, Copy, PartialEq, Eq, Structural)]
pub enum ForkOutcome {
    Parent(i32),
    Child,
    Failed(i32),
}

/// What waiting for a child produced.
#[derive(Debug, Clone, Copy, PartialEq, Eq, Structural)]
pub enum WaitOutcome {
    ChildExited,
    ChildSignaled,
    OtherEvent,
    NoChildren,
    Failed(i32),
}

/// The driver's report of a performed action.
#[derive(Debug, PartialEq, Eq)]
pub enum Answer {
    Switched(Result<(), i32>),
    Fstab(FstabRead),
    Mounts(MountsRead),
    Flag(bool),
    Kind(FileKind),
    Cmd(CmdOutput),
    Mounted(Result<(), i32>),
    FallbackStatus { success: bool, code: i32 },
    Forked(ForkOutcome),
    Waited(WaitOutcome),
}

/// The mathematical value of an `FstabRead`.
pub enum FstabReadV {
    Content(Seq<char>),
    IsDirectory,
    OpenError(Seq<char>),
}

/// The mathematical value of a `MountsRead`.
pub enum MountsReadV {
    Content(Seq<char>),
    OpenError(Seq<char>),
}

/// The mathematical value of a `FileKind`.
pub enum FileKindV {
    BlockDevice,
    NotBlock,
    Missing(Seq<char>),
}

/// The mathematical value of a `CmdOutput`.
pub struct CmdOutputV {
    pub success: bool,
    pub stdout: Seq<char>,
    pub stderr: Seq<char>,
}

/// The mathematical value of an `Answer`.
pub enum AnswerV {
    Switched(Result<(), i32>),
    Fstab(FstabReadV),
    Mounts(MountsReadV),
    Flag(bool),
    Kind(FileKindV),
    Cmd(CmdOutputV),
    Mounted(Result<(), i32>),
    FallbackStatus { success: bool, code: i32 },
    Forked(ForkOutcome),
    Waited(WaitOutcome),
}

impl View for FstabRead {
    type V = FstabReadV;

    open spec fn view(&self) -> FstabReadV {
        match self {
            FstabRead::Content(s) => FstabReadV::Content(s@),
            FstabRead::IsDirectory => FstabReadV::IsDirectory,
            FstabRead::OpenError(s) => FstabReadV::OpenError(s@),
        }
    }
}

impl View for MountsRead {
    type V = MountsReadV;

    open spec fn view(&self) -> MountsReadV {
        match self {
            MountsRead::Content(s) => MountsReadV::Content(s@),
            MountsRead::OpenError(s) => MountsReadV::OpenError(s@),
        }
    }
}

impl View for FileKind {
    type V = FileKindV;

    open spec fn view(&self) -> FileKindV {
        match self {
            FileKind::BlockDevice => FileKindV::BlockDevice,
            FileKind::NotBlock => FileKindV::NotBlock,
            FileKind::Missing(s) => FileKindV::Missing(s@),
        }
    }
}

impl View for CmdOutput {
    type V = CmdOutputV;

    open spec fn view(&self) -> CmdOutputV {
        CmdOutputV { success: self.success, stdout: self.stdout@, stderr: self.stderr@ }
    }
}

impl View for Answer {
    type V = AnswerV;

    open spec fn view(&self) -> AnswerV {
        match self {
            Answer::Switched(r) => AnswerV::Switched(*r),
            Answer::Fstab(f) => AnswerV::Fstab(f@),
            Answer::Mounts(m) => AnswerV::Mounts(m@),
            Answer::Flag(b) => AnswerV::Flag(*b),
            Answer::Kind(k) => AnswerV::Kind(k@),
            Answer::Cmd(c) => AnswerV::Cmd(c@),
            Answer::Mounted(r) => AnswerV::Mounted(*r),
            Answer::FallbackStatus { success, code } => AnswerV::FallbackStatus {
                success: *success,
                code: *code,
            },
            Answer::Forked(f) => AnswerV::Forked(*f),
            Answer::Waited(w) => AnswerV::Waited(*w),
        }
    }
}

/// A structured report for the driver's reporter: what happened, with
/// the values involved, free of any formatting.
#[derive(Debug, PartialEq, Eq)]
pub enum Notice {
    /// An fstab line was neither blank, a comment, nor well-formed.
    MalformedFstabLine { line: usize },
    /// The target is already mounted; the mount is skipped, not an error.
    AlreadyMounted { target: String },
    /// The entry names swap space; the swap tool mounts those.
    SkippedSwap { source: String },
    /// The entry's options do not cover the requested test options.
    SkippedTestOpts { target: String },
    /// Fake mode: the call that would have been performed.
    FakeMount { call: MountCall },
    /// A bulk worker was forked.
    ForkedChild { pid: i32 },
    /// One bulk entry failed; the run continues.
    EntryFailed { source: String, error: MountError },
    /// The filesystem label of the source, shown on request.
    FilesystemLabel { label: String },
    /// The mtab update step ran for this mount.
    MtabUpdated { source: String, target: String, fstype: String },
    /// The mtab update step was suppressed by the request.
    MtabSkipped,
    /// The kernel call failed; the external fallback is being tried.
    KernelMountFailedRetrying { errno: i32 },
    /// The mount completed.
    MountSucceeded { target: String },
    /// The source specifier resolved to this device path.
    ResolvedSource { device: String },
}

/// The mathematical value of a `Notice`.
pub enum NoticeV {
    MalformedFstabLine { line: int },
    AlreadyMounted { target: Seq<char> },
    SkippedSwap { source: Seq<char> },
    SkippedTestOpts { target: Seq<char> },
    FakeMount { call: MountCallV },
    ForkedChild { pid: i32 },
    EntryFailed { source: Seq<char>, error: MountErrorV },
    FilesystemLabel { label: Seq<char> },
    MtabUpdated { source: Seq<char>, target: Seq<char>, fstype: Seq<char> },
    MtabSkipped,
    KernelMountFailedRetrying { errno: i32 },
    MountSucceeded { target: Seq<char> },
    ResolvedSource { device: Seq<char> },
}

impl View for Notice {
    type V = NoticeV;

    open spec fn view(&self) -> NoticeV {
        match self {
            Notice::MalformedFstabLine { line } => NoticeV::MalformedFstabLine {
                line: *line as int,
            },
            Notice::AlreadyMounted { target } => NoticeV::AlreadyMounted { target: target@ },
            Notice::SkippedSwap { source } => NoticeV::SkippedSwap { source: source@ },
            Notice::SkippedTestOpts { target } => NoticeV::SkippedTestOpts { target: target@ },
            Notice::FakeMount { call } => NoticeV::FakeMount { call: call@ },
            Notice::ForkedChild { pid } => NoticeV::ForkedChild { pid: *pid },
            Notice::EntryFailed { source, error } => NoticeV::EntryFailed {
                source: source@,
                error: error@,
            },
            Notice::FilesystemLabel { label } => NoticeV::FilesystemLabel { label: label@ },
            Notice::MtabUpdated { source, target, fstype } => NoticeV::MtabUpdated {
                source: source@,
                target: target@,
                fstype: fstype@,
            },
            Notice::MtabSkipped => NoticeV::MtabSkipped,
            Notice::KernelMountFailedRetrying { errno } => NoticeV::KernelMountFailedRetrying {
                errno: *errno,
            },
            Notice::MountSucceeded { target } => NoticeV::MountSucceeded { target: target@ },
            Notice::ResolvedSource { device } => NoticeV::ResolvedSource { device: device@ },
        }
    }
}

impl Notice {
    /// Whether the reporter should show this notice only in verbose
    /// mode. Skips that the user asked for, warnings, failures, fake
    /// mode and label display are always shown; parameter traces and
    /// the mtab bookkeeping only when verbose.
    pub open spec fn spec_verbose_only(&self) -> bool {
        match self {
            Notice::SkippedTestOpts { .. } => true,
            Notice::MtabUpdated { .. } => true,
            Notice::MtabSkipped => true,
            Notice::MountSucceeded { .. } => true,
            Notice::ResolvedSource { .. } => true,
            _ => false,
        }
    }

    pub fn verbose_only(&self) -> (r: bool)
        ensures
            r == self.spec_verbose_only(),
    {
        match self {
            Notice::SkippedTestOpts { .. } => true,
            Notice::MtabUpdated { .. } => true,
            Notice::MtabSkipped => true,
            Notice::MountSucceeded { .. } => true,
            Notice::ResolvedSource { .. } => true,
            _ => false,
        }
    }
}

/// How a run ends: with a result for the caller, or, in a forked bulk
/// worker, with the exit status the worker process must take.
#[derive(Debug, PartialEq, Eq)]
pub enum Outcome {
    Completed(Result<(), MountError>),
    ChildExit(i32),
}

/// The mathematical value of an `Outcome`.
pub enum OutcomeV {
    Completed(Result<(), MountErrorV>),
    ChildExit(i32),
}

impl View for Outcome {
    type V = OutcomeV;

    open spec fn view(&self) -> OutcomeV {
        match self {
            Outcome::Completed(Ok(())) => OutcomeV::Completed(Ok(())),
            Outcome::Completed(Err(e)) => OutcomeV::Completed(Err(e@)),
            Outcome::ChildExit(c) => OutcomeV::ChildExit(*c),
        }
    }
}

/// What the logic hands back after each exchange: either the next
/// action to perform, or the end of the run.
#[derive(Debug, PartialEq, Eq)]
pub enum Step {
    Ask(MountAction),
    Done(Outcome),
}

/// The mathematical value of a `Step`.
pub enum StepV {
    Ask(MountActionV),
    Done(OutcomeV),
}

impl View for Step {
    type V = StepV;

    open spec fn view(&self) -> StepV {
        match self {
            Step::Ask(a) => StepV::Ask(a@),
            Step::Done(o) => StepV::Done(o@),
        }
    }
}

/// One exchange's reply: the notices to report, then the step.
pub struct Reply {
    pub notices: Vec<Notice>,
    pub step: Step,
}

/// The mathematical value of a `Reply`.
pub struct ReplyV {
    pub notices: Seq<NoticeV>,
    pub step: StepV,
}

impl View for Reply {
    type V = ReplyV;

    open spec fn view(&self) -> ReplyV {
        ReplyV { notices: self.notices.deep_view(), step: self.step@ }
    }
}

impl DeepView for Notice {
    type V = NoticeV;

    open spec fn deep_view(&self) -> NoticeV {
        self.view()
    }
}

} // verus!
