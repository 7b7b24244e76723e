//! The mount request: what the command line was parsed into. The request
//! is immutable once constructed and read-only to every component.
use vstd::prelude::*;

verus! {

/// How the mount source was specified: a device path, a filesystem
/// label, or a filesystem UUID. Labels and UUIDs are resolved to a
/// device path before any mount call runs.
pub enum Source {
    Device(String),
    Label(String),
    UUID(String),
}

/// The mathematical value of a `Source`.
pub enum SourceV {
    Device(Seq<char>),
    Label(Seq<char>),
    UUID(Seq<char>),
}

impl View for Source {
    type V = SourceV;

    open spec fn view(&self) -> SourceV {
        match self {
            Source::Device(p) => SourceV::Device(p@),
            Source::Label(l) => SourceV::Label(l@),
            Source::UUID(u) => SourceV::UUID(u@),
        }
    }
}

/// The one operation a request performs. Exactly one is active per
/// request; the default is a normal mount.
#[derive(Debug, Clone, Copy, PartialEq, Eq, Structural)]
pub enum Operation {
    Normal,
    Bind,
    Move,
    RBind,
    MakeShared,
    MakeSlave,
    MakePrivate,
    MakeUnbindable,
    MakeRShared,
    MakeRSlave,
    MakeRPrivate,
    MakeRUnbindable,
}

impl Default for Operation {
    fn default() -> (r: Operation)
        ensures
            r == Operation::Normal,
    {
        Operation::Normal
    }
}

/// Whether the operation only changes mount propagation on a target.
pub open spec fn is_propagation(op: Operation) -> bool {
    ||| op == Operation::MakeShared
    ||| op == Operation::MakeSlave
    ||| op == Operation::MakePrivate
    ||| op == Operation::MakeUnbindable
    ||| op == Operation::MakeRShared
    ||| op == Operation::MakeRSlave
    ||| op == Operation::MakeRPrivate
    ||| op == Operation::MakeRUnbindable
}

/// The mount options of a request.
pub struct MountOptions {
    pub mode: Option<String>,
    pub source: Option<String>,
    pub source_force: bool,
    pub options: Option<String>,
    pub test_opts: Option<String>,
    pub read_only: bool,
    pub read_write: bool,
    pub types: Option<String>,
}

/// The mathematical value of `MountOptions`.
pub struct MountOptionsV {
    pub mode: Option<Seq<char>>,
    pub source: Option<Seq<char>>,
    pub source_force: bool,
    pub options: Option<Seq<char>>,
    pub test_opts: Option<Seq<char>>,
    pub read_only: bool,
    pub read_write: bool,
    pub types: Option<Seq<char>>,
}

impl View for MountOptions {
    type V = MountOptionsV;

    open spec fn view(&self) -> MountOptionsV {
        MountOptionsV {
            mode: self.mode.deep_view(),
            source: self.source.deep_view(),
            source_force: self.source_force,
            options: self.options.deep_view(),
            test_opts: self.test_opts.deep_view(),
            read_only: self.read_only,
            read_write: self.read_write,
            types: self.types.deep_view(),
        }
    }
}

/// A whole mount request.
pub struct Config {
    pub all: bool,
    pub fake: bool,
    pub fork: bool,
    pub internal_only: bool,
    pub show_labels: bool,
    pub no_mtab: bool,
    pub fstab: Option<String>,
    pub options: MountOptions,
    pub source: Option<Source>,
    pub target: Option<String>,
    pub target_prefix: Option<String>,
    pub namespace: Option<String>,
    pub operation: Operation,
}

/// The mathematical value of a `Config`.
pub struct ConfigV {
    pub all: bool,
    pub fake: bool,
    pub fork: bool,
    pub internal_only: bool,
    pub show_labels: bool,
    pub no_mtab: bool,
    pub fstab: Option<Seq<char>>,
    pub options: MountOptionsV,
    pub source: Option<SourceV>,
    pub target: Option<Seq<char>>,
    pub target_prefix: Option<Seq<char>>,
    pub namespace: Option<Seq<char>>,
    pub operation: Operation,
}

impl View for Config {
    type V = ConfigV;

    open spec fn view(&self) -> ConfigV {
        ConfigV {
            all: self.all,
            fake: self.fake,
            fork: self.fork,
            internal_only: self.internal_only,
            show_labels: self.show_labels,
            no_mtab: self.no_mtab,
            fstab: self.fstab.deep_view(),
            options: self.options@,
            source: match &self.source {
                Some(s) => Some(s@),
                None => None,
            },
            target: self.target.deep_view(),
            target_prefix: self.target_prefix.deep_view(),
            namespace: self.namespace.deep_view(),
            operation: self.operation,
        }
    }
}

/// Two request values that agree on everything but the source.
pub open spec fn same_but_source(a: ConfigV, b: ConfigV) -> bool {
    b == ConfigV { source: b.source, ..a }
}

} // verus!
