//! The set of kernel mount flags a mount call carries, modelled as one
//! boolean per flag. The interpreter that performs the call turns each
//! field into the kernel's corresponding bit.
use vstd::prelude::*;

verus! {

/// One boolean per kernel mount flag that the utility can set.
#[derive(Debug, Clone, Copy, PartialEq, Eq, Structural)]
pub struct MountFlags {
    pub read_only: bool,
    pub no_suid: bool,
    pub no_dev: bool,
    pub no_exec: bool,
    pub synchronous: bool,
    pub dir_sync: bool,
    pub no_atime: bool,
    pub no_diratime: bool,
    pub relatime: bool,
    pub strict_atime: bool,
    pub lazytime: bool,
    pub bind: bool,
    pub move_mount: bool,
    pub recursive: bool,
    pub shared: bool,
    pub slave: bool,
    pub private: bool,
    pub unbindable: bool,
}

impl MountFlags {
    /// The flag set with every flag cleared.
    pub open spec fn spec_empty() -> MountFlags {
        MountFlags {
            read_only: false,
            no_suid: false,
            no_dev: false,
            no_exec: false,
            synchronous: false,
            dir_sync: false,
            no_atime: false,
            no_diratime: false,
            relatime: false,
            strict_atime: false,
            lazytime: false,
            bind: false,
            move_mount: false,
            recursive: false,
            shared: false,
            slave: false,
            private: false,
            unbindable: false,
        }
    }

    pub fn empty() -> (r: MountFlags)
        ensures
            r == MountFlags::spec_empty(),
    {
        MountFlags {
            read_only: false,
            no_suid: false,
            no_dev: false,
            no_exec: false,
            synchronous: false,
            dir_sync: false,
            no_atime: false,
            no_diratime: false,
            relatime: false,
            strict_atime: false,
            lazytime: false,
            bind: false,
            move_mount: false,
            recursive: false,
            shared: false,
            slave: false,
            private: false,
            unbindable: false,
        }
    }

    /// Whether the external mount command's option translation covers every
    /// set flag. Bind, move, recursion and the propagation flags have no
    /// command-line equivalent in the fallback invocation, so a failed
    /// kernel call carrying one of them is not retried externally.
    pub open spec fn spec_fallback_translatable(self) -> bool {
        !self.bind && !self.move_mount && !self.recursive && !self.shared && !self.slave
            && !self.private && !self.unbindable
    }

    pub fn fallback_translatable(&self) -> (r: bool)
        ensures
            r == self.spec_fallback_translatable(),
    {
        !self.bind && !self.move_mount && !self.recursive && !self.shared && !self.slave
            && !self.private && !self.unbindable
    }
}

} // verus!
