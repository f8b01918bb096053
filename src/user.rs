//! The identity maps of a new user namespace. Each function describes one
//! write to a pseudo-file of `/proc/self`; the caller performs it. The
//! kernel takes each of these files once per namespace, and refuses a
//! second write: that refusal is surfaced, not foreseen.

use vstd::prelude::*;
use vstd::string::StringExecFns;

verus! {

/// A failed write to an identity-map file, with the error number the kernel
/// gave.
#[derive(Clone, Copy, Debug, PartialEq, Eq)]
pub enum UserError {
    IO { errno: i32 },
}

/// One write of `contents` to the pseudo-file at `path`.
#[derive(Clone, Debug)]
pub struct ProcWrite {
    pub path: String,
    pub contents: Vec<u8>,
}

/// The decimal digits of `n`, in ASCII.
pub open spec fn decimal(n: nat) -> Seq<u8>
    decreases n,
{
    if n < 10 {
        seq![(48 + n) as u8]
    } else {
        decimal(n / 10).push((48 + n % 10) as u8)
    }
}

/// The line that maps one identity: `<inner>\t<outer>\t1\n`.
pub open spec fn map_line(inner: u32, outer: u32) -> Seq<u8> {
    decimal(inner as nat) + seq![9u8] + decimal(outer as nat) + seq![9u8, 49u8, 10u8]
}

/// The contents written to the setgroups control file.
pub open spec fn setgroups_value(allow: bool) -> Seq<u8> {
    if allow {
        seq![97u8, 108u8, 108u8, 111u8, 119u8, 10u8]
    } else {
        seq![100u8, 101u8, 110u8, 121u8, 10u8]
    }
}

fn push_decimal(buf: &mut Vec<u8>, n: u32)
    ensures
        final(buf)@ == old(buf)@ + decimal(n as nat),
    decreases n,
{
    if n >= 10 {
        push_decimal(buf, n / 10);
    }
    buf.push((48 + n % 10) as u8);
    assert(final(buf)@ =~= old(buf)@ + decimal(n as nat));
}

fn map_contents(inner: u32, outer: u32) -> (r: Vec<u8>)
    ensures
        r@ == map_line(inner, outer),
{
    let mut r: Vec<u8> = Vec::new();
    push_decimal(&mut r, inner);
    r.push(9u8);
    push_decimal(&mut r, outer);
    r.push(9u8);
    r.push(49u8);
    r.push(10u8);
    assert(r@ =~= map_line(inner, outer));
    r
}

/// Map the user id `outer` of the parent namespace to `inner` in the new
/// one, one id wide.
pub fn uid_map(inner: u32, outer: u32) -> (r: ProcWrite)
    ensures
        r.path@ == "/proc/self/uid_map"@,
        r.contents@ == map_line(inner, outer),
{
    ProcWrite { path: String::from_str("/proc/self/uid_map"), contents: map_contents(inner, outer) }
}

/// Map the group id `outer` of the parent namespace to `inner` in the new
/// one, one id wide.
pub fn gid_map(inner: u32, outer: u32) -> (r: ProcWrite)
    ensures
        r.path@ == "/proc/self/gid_map"@,
        r.contents@ == map_line(inner, outer),
{
    ProcWrite { path: String::from_str("/proc/self/gid_map"), contents: map_contents(inner, outer) }
}

/// Allow or deny `setgroups(2)` in the new namespace. Denying it must come
/// before the group map is written.
pub fn setgroups(allow: bool) -> (r: ProcWrite)
    ensures
        r.path@ == "/proc/self/setgroups"@,
        r.contents@ == setgroups_value(allow),
{
    let contents: Vec<u8> = if allow {
        vec![97u8, 108u8, 108u8, 111u8, 119u8, 10u8]
    } else {
        vec![100u8, 101u8, 110u8, 121u8, 10u8]
    };
    assert(contents@ =~= setgroups_value(allow));
    ProcWrite { path: String::from_str("/proc/self/setgroups"), contents }
}

} // verus!
