//! The mount requests that isolate the sandbox's mount namespace. Each
//! function describes one `mount(2)` call; the caller performs it.

use vstd::prelude::*;
use vstd::string::StringExecFns;

verus! {

/// Make a bind mount.
pub const MS_BIND: u64 = 4096;

/// Apply the change to the whole subtree.
pub const MS_REC: u64 = 16384;

/// Make the mount private: nothing propagates to or from other namespaces.
pub const MS_PRIVATE: u64 = 262144;

/// A failed `mount(2)`, with the error number the kernel gave.
#[derive(Clone, Copy, Debug, PartialEq, Eq)]
pub enum MountError {
    Internal { errno: i32 },
}

/// One `mount(2)` call: source, target, file system type, flags, data.
#[derive(Clone, Debug)]
pub struct MountRequest {
    pub source: String,
    pub target: String,
    pub fstype: String,
    pub flags: u64,
    pub data: String,
}

/// Remount `/` recursively with private propagation, so that no mount or
/// unmount made later in the namespace reaches another one. It comes before
/// any other mount of a new namespace.
pub fn init_namespace() -> (r: MountRequest)
    ensures
        r.source@ == Seq::<char>::empty(),
        r.target@ == seq!['/'],
        r.fstype@ == Seq::<char>::empty(),
        r.flags == MS_REC + MS_PRIVATE,
        r.data@ == Seq::<char>::empty(),
{
    proof {
        reveal_strlit("");
        reveal_strlit("/");
    }
    let r = MountRequest {
        source: String::from_str(""),
        target: String::from_str("/"),
        fstype: String::from_str(""),
        flags: MS_REC + MS_PRIVATE,
        data: String::from_str(""),
    };
    assert(r.target@ =~= seq!['/']);
    r
}

/// Mount a process-information file system at `path`.
pub fn procfs(path: &str) -> (r: MountRequest)
    ensures
        r.source@ == seq!['p', 'r', 'o', 'c'],
        r.target@ == path@,
        r.fstype@ == seq!['p', 'r', 'o', 'c'],
        r.flags == 0,
        r.data@ == Seq::<char>::empty(),
{
    proof {
        reveal_strlit("");
        reveal_strlit("proc");
    }
    let r = MountRequest {
        source: String::from_str("proc"),
        target: String::from_str(path),
        fstype: String::from_str("proc"),
        flags: 0,
        data: String::from_str(""),
    };
    assert(r.source@ =~= seq!['p', 'r', 'o', 'c']);
    r
}

/// Bind-mount the existing file `src` over the existing path `dst`.
pub fn bind(src: &str, dst: &str) -> (r: MountRequest)
    ensures
        r.source@ == src@,
        r.target@ == dst@,
        r.fstype@ == Seq::<char>::empty(),
        r.flags == MS_BIND,
        r.data@ == Seq::<char>::empty(),
{
    proof {
        reveal_strlit("");
    }
    MountRequest {
        source: String::from_str(src),
        target: String::from_str(dst),
        fstype: String::from_str(""),
        flags: MS_BIND,
        data: String::from_str(""),
    }
}

} // verus!
