//! Permission and capability checking for diagnostic modules.

use crate::framework::traits::Permission;
use vstd::prelude::*;

verus! {

/// What the current process may do on the host, as far as the modules ask.
#[derive(Debug, Clone, Copy, PartialEq, Eq, Structural, Hash)]
pub struct HostAccess {
    /// The effective user is root.
    pub root: bool,
    /// `/proc/self/status` exists and can be read.
    pub proc_readable: bool,
    /// `/sys/class` exists and can be listed.
    pub sys_readable: bool,
}

/// Whether `access` satisfies the permission: `ReadProc` and `ReadSys` ask for
/// the readable pseudo-filesystem, every other permission asks for root.
pub open spec fn grants(access: HostAccess, perm: Permission) -> bool {
    match perm {
        Permission::Root => access.root,
        Permission::ReadProc => access.proc_readable,
        Permission::ReadSys => access.sys_readable,
        Permission::NetAdmin => access.root,
        Permission::PerfEvent => access.root,
    }
}

/// `users::get_effective_uid`: the effective user id of the running process.
/// Nothing is claimed of the value: it depends on who runs the process.
#[verifier::external_body]
fn effective_uid() -> u32 {
    users::get_effective_uid()
}

/// Whether a user id is that of root.
pub fn uid_is_root(uid: u32) -> (r: bool)
    ensures
        r == (uid == 0),
{
    uid == 0
}

/// Check if the current process has root (effective UID 0).
pub fn is_root() -> bool {
    uid_is_root(effective_uid())
}

/// Check if the given permission is satisfied on this system.
pub fn has_permission(perm: &Permission, access: &HostAccess) -> (r: bool)
    ensures
        r == grants(*access, *perm),
{
    match perm {
        Permission::Root => access.root,
        Permission::ReadProc => access.proc_readable,
        Permission::ReadSys => access.sys_readable,
        Permission::NetAdmin => access.root,
        Permission::PerfEvent => access.root,
    }
}

/// Check if all given permissions are satisfied.
pub fn has_all_permissions(permissions: &[Permission], access: &HostAccess) -> (r: bool)
    ensures
        r == forall|i: int| 0 <= i < permissions.len() ==> grants(*access, #[trigger] permissions[i]),
{
    let mut i: usize = 0;
    while i < permissions.len()
        invariant
            i <= permissions.len(),
            forall|j: int| 0 <= j < i ==> grants(*access, #[trigger] permissions[j]),
        decreases permissions.len() - i,
    {
        if !has_permission(&permissions[i], access) {
            return false;
        }
        i += 1;
    }
    true
}

} // verus!
