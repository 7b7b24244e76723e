//! The error taxonomy of a mount run. Permission and resolution failures,
//! validation failures checked before any syscall, kernel mount failures
//! (with or without a failed external fallback), external tool failures,
//! and the failures of the bulk mounter's own bookkeeping.
use vstd::prelude::*;

verus! {

/// Why a mount request, or one step of a bulk run, failed.
#[derive(Debug, PartialEq, Eq)]
pub enum MountError {
    /// Device preparation was required but the caller is not root.
    PermissionDenied,
    /// No device carries the requested filesystem label.
    LabelNotFound { label: String },
    /// No device carries the requested filesystem UUID.
    UuidNotFound { uuid: String },
    /// The operation needs a source and the request carries none.
    MissingSource,
    /// The operation needs a target and the request carries none.
    MissingTarget,
    /// A bind mount was asked of a label or UUID source; it takes a path.
    SourceNotDevicePath,
    /// A move mount was asked of a label or UUID source; it takes a path.
    MoveNeedsDevicePath,
    /// A path the operation validates was not found on disk.
    PathNotFound { path: String },
    /// The source of a move mount is not itself a mount point.
    NotAMountPoint { path: String },
    /// The metadata of the mount source could not be read.
    SourceStatFailed { path: String, detail: String },
    /// Attaching the source file to a free loop device failed; `detail`
    /// carries the attach tool's diagnostic output.
    LoopSetupFailed { detail: String },
    /// No filesystem type was given and the type query returned nothing.
    FsTypeUnknown { device: String },
    /// The kernel mount call failed and no external fallback applied.
    KernelMountFailed { errno: i32 },
    /// The kernel mount call failed and so did the external fallback:
    /// both failures are reported together.
    FallbackFailed { errno: i32, code: i32 },
    /// The fstab table path names a directory, not a file.
    FstabIsDirectory { path: String },
    /// The fstab table could not be opened or read.
    FstabOpenFailed { path: String, detail: String },
    /// The fstab table held no well-formed entry at all.
    FstabEmpty,
    /// The kernel mount table could not be read.
    MountsReadFailed { detail: String },
    /// Re-associating the thread with the requested mount namespace failed.
    NamespaceSwitchFailed { errno: i32 },
    /// Forking a worker process for a bulk entry failed.
    ForkFailed { errno: i32 },
    /// Waiting for the forked workers failed.
    WaitFailed { errno: i32 },
}

/// The mathematical value of a `MountError`, with every string a
/// character sequence.
pub enum MountErrorV {
    PermissionDenied,
    LabelNotFound { label: Seq<char> },
    UuidNotFound { uuid: Seq<char> },
    MissingSource,
    MissingTarget,
    SourceNotDevicePath,
    MoveNeedsDevicePath,
    PathNotFound { path: Seq<char> },
    NotAMountPoint { path: Seq<char> },
    SourceStatFailed { path: Seq<char>, detail: Seq<char> },
    LoopSetupFailed { detail: Seq<char> },
    FsTypeUnknown { device: Seq<char> },
    KernelMountFailed { errno: i32 },
    FallbackFailed { errno: i32, code: i32 },
    FstabIsDirectory { path: Seq<char> },
    FstabOpenFailed { path: Seq<char>, detail: Seq<char> },
    FstabEmpty,
    MountsReadFailed { detail: Seq<char> },
    NamespaceSwitchFailed { errno: i32 },
    ForkFailed { errno: i32 },
    WaitFailed { errno: i32 },
}

impl View for MountError {
    type V = MountErrorV;

    open spec fn view(&self) -> MountErrorV {
        match self {
            MountError::PermissionDenied => MountErrorV::PermissionDenied,
            MountError::LabelNotFound { label } => MountErrorV::LabelNotFound { label: label@ },
            MountError::UuidNotFound { uuid } => MountErrorV::UuidNotFound { uuid: uuid@ },
            MountError::MissingSource => MountErrorV::MissingSource,
            MountError::MissingTarget => MountErrorV::MissingTarget,
            MountError::SourceNotDevicePath => MountErrorV::SourceNotDevicePath,
            MountError::MoveNeedsDevicePath => MountErrorV::MoveNeedsDevicePath,
            MountError::PathNotFound { path } => MountErrorV::PathNotFound { path: path@ },
            MountError::NotAMountPoint { path } => MountErrorV::NotAMountPoint { path: path@ },
            MountError::SourceStatFailed { path, detail } => MountErrorV::SourceStatFailed {
                path: path@,
                detail: detail@,
            },
            MountError::LoopSetupFailed { detail } => MountErrorV::LoopSetupFailed {
                detail: detail@,
            },
            MountError::FsTypeUnknown { device } => MountErrorV::FsTypeUnknown { device: device@ },
            MountError::KernelMountFailed { errno } => MountErrorV::KernelMountFailed {
                errno: *errno,
            },
            MountError::FallbackFailed { errno, code } => MountErrorV::FallbackFailed {
                errno: *errno,
                code: *code,
            },
            MountError::FstabIsDirectory { path } => MountErrorV::FstabIsDirectory { path: path@ },
            MountError::FstabOpenFailed { path, detail } => MountErrorV::FstabOpenFailed {
                path: path@,
                detail: detail@,
            },
            MountError::FstabEmpty => MountErrorV::FstabEmpty,
            MountError::MountsReadFailed { detail } => MountErrorV::MountsReadFailed {
                detail: detail@,
            },
            MountError::NamespaceSwitchFailed { errno } => MountErrorV::NamespaceSwitchFailed {
                errno: *errno,
            },
            MountError::ForkFailed { errno } => MountErrorV::ForkFailed { errno: *errno },
            MountError::WaitFailed { errno } => MountErrorV::WaitFailed { errno: *errno },
        }
    }
}

} // verus!
