//! Building blocks of a leak-proof network sandbox: the wire format of the
//! route-configuration netlink protocol, the capability governor, the mount
//! and user-namespace requests, and the decisions of the namespace
//! orchestrator.

pub mod mount;
pub mod netlink;
pub mod privilege;
pub mod sandbox;
pub mod user;
pub mod wire;

use vstd::prelude::*;

verus! {

/// The size of the stack of the sandboxed child process.
pub const STACK_SIZE: usize = 8000000;

/// Generate an empty (zero-filled) stack for the clone of the sandboxed child.
pub fn gen_stack() -> (r: Vec<u8>)
    ensures
        r@ == Seq::new(STACK_SIZE as nat, |i: int| 0u8),
{
    let r = vec![0u8; STACK_SIZE];
    assert(r@ =~= Seq::new(STACK_SIZE as nat, |i: int| 0u8));
    r
}

} // verus!
