//! The decisions of the namespace orchestrator.
//!
//! The sandboxed child builds its sandbox as a fixed sequence of steps,
//! held by `ChildSetup`: `action` says what to do next, and `advance` takes
//! what came of it (a plain completion, or the kernel's netlink reply) and
//! moves on, or stops the setup with an error. The parent's decisions, the
//! descriptor handoff and the exit code, are plain functions.

use vstd::prelude::*;
use vstd::string::StringExecFns;
use crate::netlink::{
    AddressFamily, IpAddress, NetlinkError, ack_outcome, get_index_outcome, check_ack, get_index,
};

verus! {

/// The name of the loopback interface.
pub const LOOPBACK_DEVICE: &'static str = "lo";

/// The name of the tunnel interface.
pub const DEVICE_NAME: &'static str = "onion0";

/// Where the synthesized resolver configuration is mounted.
pub const RESOLV_CONF: &'static str = "/etc/resolv.conf";

/// Where the process-information file system is mounted.
pub const PROC_PATH: &'static str = "/proc";

/// Size of the payload that carries the descriptor to the parent.
pub const HANDOFF_PAYLOAD_LEN: usize = 1024;

/// How long the child waits after the handoff, for the parent to attach the
/// tunnel engine.
pub const HANDOFF_GRACE_MILLIS: u64 = 100;

/// The exit code for a child that did not exit normally.
pub const FALLBACK_EXIT_CODE: u8 = 1;

/// The exit code of a child whose setup or command launch failed.
pub const SETUP_FAILED_EXIT_CODE: i32 = 127;

/// The index of the last step; the setup is finished there.
pub const FINISHED_STEP: u8 = 21;

/// The stages of the sandboxed child. The parent's preflight check and
/// minimization of privileges (`privilege::check_required`,
/// `privilege::minimize`) come before the first of them; the command runs
/// between the last two.
#[derive(Clone, Copy, Debug, PartialEq, Eq)]
pub enum Stage {
    NamespacesCreated,
    MountReady,
    IdentityMapped,
    NetworkReady,
    PrivilegesDropped,
    HandoffComplete,
    Exited,
}

/// An interface that the setup configures.
#[derive(Clone, Copy, Debug, PartialEq, Eq)]
pub enum Link {
    Loopback,
    Tunnel,
}

/// What the child is to do next.
#[derive(Clone, Copy, Debug, PartialEq, Eq)]
pub enum Action {
    /// Perform `mount::init_namespace()`.
    MountRoot,
    /// Perform `mount::procfs(PROC_PATH)`.
    MountProc,
    /// Perform `user::setgroups(allow)`.
    Setgroups { allow: bool },
    /// Perform `user::uid_map(inner, outer)`.
    UidMap { inner: u32, outer: u32 },
    /// Perform `user::gid_map(inner, outer)`.
    GidMap { inner: u32, outer: u32 },
    /// Write `resolv_conf()` to a private temporary file and bind-mount it
    /// over `RESOLV_CONF`.
    Resolver,
    /// Send `netlink::get_index_request` for the link and hand the reply back.
    GetIndex { link: Link },
    /// Send `netlink::add_address_request` and hand the reply back.
    AddAddress { index: u32, addr: IpAddress, prefix_len: u8 },
    /// Send `netlink::set_up_request` and hand the reply back.
    SetUp { index: u32 },
    /// Send `netlink::set_default_gateway_request` and hand the reply back.
    SetDefaultGateway { index: u32, af: AddressFamily },
    /// Create the tunnel interface `DEVICE_NAME` and keep its descriptor.
    OpenTunnel,
    /// Perform `privilege::drop_all()`.
    DropPrivileges,
    /// Send the tunnel's descriptor to the parent.
    SendDescriptor,
    /// Wait `millis` milliseconds.
    Grace { millis: u64 },
    /// Spawn the user command and wait for it.
    Spawn,
    /// Nothing is left to do.
    Finished,
}

/// What came of an action.
pub enum Event {
    /// A step other than a netlink exchange completed.
    Done,
    /// The kernel's reply to the netlink request of the step.
    Reply(Vec<u8>),
}

#[derive(Clone, Debug, PartialEq, Eq)]
pub enum SetupError {
    /// A netlink exchange failed.
    Netlink(NetlinkError),
    /// The event does not belong to the current step.
    UnexpectedEvent,
    /// The setup has already finished.
    Finished,
}

/// The child's progress through the setup of its sandbox.
pub struct ChildSetup {
    pub step: u8,
    pub uid: u32,
    pub gid: u32,
    pub loopback: u32,
    pub tunnel: u32,
}

/// The actions that are netlink exchanges, whose outcome is the kernel's
/// reply.
pub open spec fn is_exchange(a: Action) -> bool {
    a is GetIndex || a is AddAddress || a is SetUp || a is SetDefaultGateway
}

pub open spec fn v4(a: u8, b: u8, c: u8, d: u8) -> IpAddress {
    IpAddress::V4([a, b, c, d])
}

pub open spec fn spec_loopback_v6() -> IpAddress {
    IpAddress::V6([0, 0, 0, 0, 0, 0, 0, 0, 0, 0, 0, 0, 0, 0, 0, 1])
}

pub open spec fn spec_tunnel_v6() -> IpAddress {
    IpAddress::V6([254, 128, 0, 0, 0, 0, 0, 0, 0, 0, 0, 0, 0, 0, 0, 1])
}

impl ChildSetup {
    /// The action of each step.
    pub open spec fn spec_action(&self) -> Action {
        let s = self.step;
        if s == 0 {
            Action::MountRoot
        } else if s == 1 {
            Action::MountProc
        } else if s == 2 {
            Action::Setgroups { allow: false }
        } else if s == 3 {
            Action::UidMap { inner: self.uid, outer: self.uid }
        } else if s == 4 {
            Action::GidMap { inner: self.gid, outer: self.gid }
        } else if s == 5 {
            Action::Resolver
        } else if s == 6 {
            Action::GetIndex { link: Link::Loopback }
        } else if s == 7 {
            Action::AddAddress { index: self.loopback, addr: v4(127, 0, 0, 1), prefix_len: 8 }
        } else if s == 8 {
            Action::AddAddress { index: self.loopback, addr: spec_loopback_v6(), prefix_len: 128 }
        } else if s == 9 {
            Action::SetUp { index: self.loopback }
        } else if s == 10 {
            Action::OpenTunnel
        } else if s == 11 {
            Action::GetIndex { link: Link::Tunnel }
        } else if s == 12 {
            Action::AddAddress { index: self.tunnel, addr: v4(169, 254, 42, 1), prefix_len: 24 }
        } else if s == 13 {
            Action::AddAddress { index: self.tunnel, addr: spec_tunnel_v6(), prefix_len: 96 }
        } else if s == 14 {
            Action::SetUp { index: self.tunnel }
        } else if s == 15 {
            Action::SetDefaultGateway { index: self.tunnel, af: AddressFamily::Inet }
        } else if s == 16 {
            Action::SetDefaultGateway { index: self.tunnel, af: AddressFamily::Inet6 }
        } else if s == 17 {
            Action::DropPrivileges
        } else if s == 18 {
            Action::SendDescriptor
        } else if s == 19 {
            Action::Grace { millis: HANDOFF_GRACE_MILLIS }
        } else if s == 20 {
            Action::Spawn
        } else {
            Action::Finished
        }
    }

    /// The stage that the child has reached at its current step.
    pub open spec fn spec_stage(&self) -> Stage {
        let s = self.step;
        if s <= 1 {
            Stage::NamespacesCreated
        } else if s <= 4 {
            Stage::MountReady
        } else if s <= 16 {
            Stage::IdentityMapped
        } else if s == 17 {
            Stage::NetworkReady
        } else if s == 18 {
            Stage::PrivilegesDropped
        } else if s <= 20 {
            Stage::HandoffComplete
        } else {
            Stage::Exited
        }
    }

    /// The name of an interface that the setup looks up.
    pub open spec fn link_name(link: Link) -> &'static str {
        match link {
            Link::Loopback => LOOPBACK_DEVICE,
            Link::Tunnel => DEVICE_NAME,
        }
    }

    /// `self` with the index of `link` set to `index`, at the next step.
    pub open spec fn resolved(self, link: Link, index: u32) -> ChildSetup {
        match link {
            Link::Loopback => ChildSetup { step: (self.step + 1) as u8, loopback: index, ..self },
            Link::Tunnel => ChildSetup { step: (self.step + 1) as u8, tunnel: index, ..self },
        }
    }

    /// `self` at the next step.
    pub open spec fn stepped(self) -> ChildSetup {
        ChildSetup { step: (self.step + 1) as u8, ..self }
    }

    /// What `advance` owes: `new` and `r` are the setup and the result after
    /// `event` came of the action of `self`. A finished setup and an event of
    /// the wrong kind are refused and change nothing; a lookup stores the
    /// index its reply gives; every other exchange moves on exactly on the
    /// kernel's acknowledgment; a failed exchange stops the setup where it
    /// is.
    pub open spec fn advance_outcome(
        self,
        event: &Event,
        new: ChildSetup,
        r: Result<(), SetupError>,
    ) -> bool {
        let a = self.spec_action();
        if a is Finished {
            r == Err::<(), SetupError>(SetupError::Finished) && new == self
        } else if is_exchange(a) != (event is Reply) {
            r == Err::<(), SetupError>(SetupError::UnexpectedEvent) && new == self
        } else {
            match event {
                Event::Done => r is Ok && new == self.stepped(),
                Event::Reply(b) => match a {
                    Action::GetIndex { link } => match r {
                        Ok(()) => exists|i: u32|
                            #![trigger self.resolved(link, i)]
                            get_index_outcome(b@, Self::link_name(link), Ok(i)) && new
                                == self.resolved(link, i),
                        Err(SetupError::Netlink(e)) => get_index_outcome(
                            b@,
                            Self::link_name(link),
                            Err(e),
                        ) && new == self,
                        Err(_) => false,
                    },
                    _ => match r {
                        Ok(()) => ack_outcome(b@, Ok(())) && new == self.stepped(),
                        Err(SetupError::Netlink(e)) => ack_outcome(b@, Err(e)) && new == self,
                        Err(_) => false,
                    },
                },
            }
        }
    }

    /// A well-formed setup is at one of its steps.
    pub open spec fn wf(&self) -> bool {
        self.step <= FINISHED_STEP
    }
}

impl ChildSetup {
    /// The setup of a child whose user and group ids in the parent
    /// namespace are `uid` and `gid`, at its first step.
    pub fn new(uid: u32, gid: u32) -> (r: ChildSetup)
        ensures
            r.step == 0,
            r.uid == uid,
            r.gid == gid,
            r.wf(),
    {
        ChildSetup { step: 0, uid, gid, loopback: 0, tunnel: 0 }
    }

    /// The action of the current step.
    pub fn action(&self) -> (r: Action)
        ensures
            r == self.spec_action(),
    {
        let s = self.step;
        if s == 0 {
            Action::MountRoot
        } else if s == 1 {
            Action::MountProc
        } else if s == 2 {
            Action::Setgroups { allow: false }
        } else if s == 3 {
            Action::UidMap { inner: self.uid, outer: self.uid }
        } else if s == 4 {
            Action::GidMap { inner: self.gid, outer: self.gid }
        } else if s == 5 {
            Action::Resolver
        } else if s == 6 {
            Action::GetIndex { link: Link::Loopback }
        } else if s == 7 {
            Action::AddAddress { index: self.loopback, addr: IpAddress::V4([127, 0, 0, 1]), prefix_len: 8 }
        } else if s == 8 {
            Action::AddAddress {
                index: self.loopback,
                addr: IpAddress::V6([0, 0, 0, 0, 0, 0, 0, 0, 0, 0, 0, 0, 0, 0, 0, 1]),
                prefix_len: 128,
            }
        } else if s == 9 {
            Action::SetUp { index: self.loopback }
        } else if s == 10 {
            Action::OpenTunnel
        } else if s == 11 {
            Action::GetIndex { link: Link::Tunnel }
        } else if s == 12 {
            Action::AddAddress {
                index: self.tunnel,
                addr: IpAddress::V4([169, 254, 42, 1]),
                prefix_len: 24,
            }
        } else if s == 13 {
            Action::AddAddress {
                index: self.tunnel,
                addr: IpAddress::V6([254, 128, 0, 0, 0, 0, 0, 0, 0, 0, 0, 0, 0, 0, 0, 1]),
                prefix_len: 96,
            }
        } else if s == 14 {
            Action::SetUp { index: self.tunnel }
        } else if s == 15 {
            Action::SetDefaultGateway { index: self.tunnel, af: AddressFamily::Inet }
        } else if s == 16 {
            Action::SetDefaultGateway { index: self.tunnel, af: AddressFamily::Inet6 }
        } else if s == 17 {
            Action::DropPrivileges
        } else if s == 18 {
            Action::SendDescriptor
        } else if s == 19 {
            Action::Grace { millis: HANDOFF_GRACE_MILLIS }
        } else if s == 20 {
            Action::Spawn
        } else {
            Action::Finished
        }
    }

    /// The stage that the child has reached.
    pub fn stage(&self) -> (r: Stage)
        ensures
            r == self.spec_stage(),
    {
        let s = self.step;
        if s <= 1 {
            Stage::NamespacesCreated
        } else if s <= 4 {
            Stage::MountReady
        } else if s <= 16 {
            Stage::IdentityMapped
        } else if s == 17 {
            Stage::NetworkReady
        } else if s == 18 {
            Stage::PrivilegesDropped
        } else if s <= 20 {
            Stage::HandoffComplete
        } else {
            Stage::Exited
        }
    }

    /// Take what came of the current action and move to the next step, or
    /// stop with the error that the outcome gives.
    pub fn advance(&mut self, event: &Event) -> (r: Result<(), SetupError>)
        ensures
            old(self).wf() ==> final(self).wf(),
            old(self).advance_outcome(event, *final(self), r),
    {
        let action = self.action();
        match action {
            Action::Finished => Err(SetupError::Finished),
            Action::GetIndex { link } => match event {
                Event::Reply(b) => {
                    let name = match link {
                        Link::Loopback => LOOPBACK_DEVICE,
                        Link::Tunnel => DEVICE_NAME,
                    };
                    match get_index(name, b.as_slice()) {
                        Ok(i) => {
                            let ghost before = *self;
                            match link {
                                Link::Loopback => self.loopback = i,
                                Link::Tunnel => self.tunnel = i,
                            }
                            self.step = self.step + 1;
                            assert(*self == before.resolved(link, i));
                            Ok(())
                        },
                        Err(e) => Err(SetupError::Netlink(e)),
                    }
                },
                Event::Done => Err(SetupError::UnexpectedEvent),
            },
            Action::AddAddress { .. } => match event {
                Event::Reply(b) => self.acknowledged(crate::netlink::add_address(b.as_slice())),
                Event::Done => Err(SetupError::UnexpectedEvent),
            },
            Action::SetUp { .. } => match event {
                Event::Reply(b) => self.acknowledged(crate::netlink::set_up(b.as_slice())),
                Event::Done => Err(SetupError::UnexpectedEvent),
            },
            Action::SetDefaultGateway { .. } => match event {
                Event::Reply(b) => self.acknowledged(crate::netlink::set_default_gateway(b.as_slice())),
                Event::Done => Err(SetupError::UnexpectedEvent),
            },
            _ => match event {
                Event::Done => {
                    self.step = self.step + 1;
                    Ok(())
                },
                Event::Reply(_) => Err(SetupError::UnexpectedEvent),
            },
        }
    }

    fn acknowledged(&mut self, outcome: Result<(), NetlinkError>) -> (r: Result<(), SetupError>)
        requires
            old(self).step < FINISHED_STEP,
        ensures
            outcome is Ok ==> r is Ok && *final(self) == old(self).stepped(),
            outcome matches Err(e) ==> r == Err::<(), SetupError>(SetupError::Netlink(e)) && *final(self) == *old(self),
    {
        match outcome {
            Ok(()) => {
                self.step = self.step + 1;
                Ok(())
            },
            Err(e) => Err(SetupError::Netlink(e)),
        }
    }
}

/// The nameserver of the tunnel engine's DNS listener, IPv4 link-local.
pub const DNS_V4: &'static str = "169.254.42.53";

/// The nameserver of the tunnel engine's DNS listener, IPv6 link-local.
pub const DNS_V6: &'static str = "fe80::53";

/// One line of a resolver configuration: `nameserver <address>`.
pub open spec fn nameserver_line(address: Seq<char>) -> Seq<char> {
    "nameserver "@ + address + "\n"@
}

/// The resolver configuration of the sandbox: one nameserver line for each
/// of the tunnel's DNS addresses, IPv4 first, and nothing else.
pub fn resolv_conf() -> (r: String)
    ensures
        r@ == nameserver_line(DNS_V4@) + nameserver_line(DNS_V6@),
{
    let mut r = String::from_str("nameserver ");
    r.append(DNS_V4);
    r.append("\n");
    r.append("nameserver ");
    r.append(DNS_V6);
    r.append("\n");
    assert(r@ =~= nameserver_line(DNS_V4@) + nameserver_line(DNS_V6@));
    r
}

/// A handoff that did not carry exactly one descriptor.
#[derive(Clone, Copy, Debug, PartialEq, Eq)]
pub enum HandoffError {
    ProtocolViolation { received: usize },
}

/// The descriptor that a handoff delivers, given how many descriptors came
/// (`received`) and the buffer they were put in (`fds`).
pub open spec fn handoff_outcome(received: usize, fds: Seq<i32>) -> Result<i32, HandoffError> {
    if received == 1 && fds.len() >= 1 && fds[0] >= 0 {
        Ok(fds[0])
    } else {
        Err(HandoffError::ProtocolViolation { received })
    }
}

/// Accept the tunnel descriptor from the child: exactly one valid
/// descriptor must have come; anything else is a violation of the protocol
/// and the parent must not go on.
pub fn handoff(received: usize, fds: &[i32]) -> (r: Result<i32, HandoffError>)
    ensures
        r == handoff_outcome(received, fds@),
{
    if received == 1 && fds.len() >= 1 && fds[0] >= 0 {
        Ok(fds[0])
    } else {
        Err(HandoffError::ProtocolViolation { received })
    }
}

/// How the sandboxed child ended, as the parent observes it.
#[derive(Clone, Copy, Debug, PartialEq, Eq)]
pub enum ChildStatus {
    /// It exited with this code.
    Exited(i32),
    /// It ended otherwise (by a signal).
    Signaled,
}

/// What came of the user command, as the child observes it.
#[derive(Clone, Copy, Debug, PartialEq, Eq)]
pub enum CommandOutcome {
    /// It exited with this code.
    Exited(i32),
    /// It ended without an exit code (by a signal).
    Killed,
    /// The setup of the sandbox or the launch of the command failed.
    SetupFailed,
}

pub open spec fn spec_exit_code(status: ChildStatus) -> u8 {
    match status {
        ChildStatus::Exited(c) => if 0 <= c <= 255 {
            c as u8
        } else {
            FALLBACK_EXIT_CODE
        },
        ChildStatus::Signaled => FALLBACK_EXIT_CODE,
    }
}

pub open spec fn spec_child_exit_code(outcome: CommandOutcome) -> i32 {
    match outcome {
        CommandOutcome::Exited(c) => c,
        CommandOutcome::Killed => FALLBACK_EXIT_CODE as i32,
        CommandOutcome::SetupFailed => SETUP_FAILED_EXIT_CODE,
    }
}

/// The exit code of the orchestrator: the child's own when it exited with a
/// code that an exit code can hold, and the fallback code otherwise.
pub fn exit_code(status: ChildStatus) -> (r: u8)
    ensures
        r == spec_exit_code(status),
{
    match status {
        ChildStatus::Exited(c) => if 0 <= c && c <= 255 {
            c as u8
        } else {
            FALLBACK_EXIT_CODE
        },
        ChildStatus::Signaled => FALLBACK_EXIT_CODE,
    }
}

/// The exit code of the sandboxed child: the command's own, the fallback
/// code when the command had none, and a distinct code when the sandbox
/// could not be built or the command not launched.
pub fn child_exit_code(outcome: CommandOutcome) -> (r: i32)
    ensures
        r == spec_child_exit_code(outcome),
{
    match outcome {
        CommandOutcome::Exited(c) => c,
        CommandOutcome::Killed => FALLBACK_EXIT_CODE as i32,
        CommandOutcome::SetupFailed => SETUP_FAILED_EXIT_CODE,
    }
}

/// Unless exactly one descriptor came, the handoff fails, and the parent
/// has no descriptor to go on with.
pub proof fn handoff_needs_one_descriptor(received: usize, fds: Seq<i32>)
    requires
        received != 1,
    ensures
        handoff_outcome(received, fds) == Err::<i32, HandoffError>(
            HandoffError::ProtocolViolation { received },
        ),
{
}

/// The exit code of a command that exited normally passes through the child
/// and the parent unchanged; a command that ended by a signal, and a child
/// that did, give the fallback code.
pub proof fn exit_code_passes_through(code: i32)
    requires
        0 <= code <= 255,
    ensures
        spec_exit_code(ChildStatus::Exited(spec_child_exit_code(CommandOutcome::Exited(code))))
            == code,
        spec_exit_code(ChildStatus::Exited(spec_child_exit_code(CommandOutcome::Killed)))
            == FALLBACK_EXIT_CODE,
        spec_exit_code(ChildStatus::Signaled) == FALLBACK_EXIT_CODE,
{
}

/// The setup asks for the user map at a single step and for the group map at
/// a single step: neither is written twice in the sandbox's namespace.
pub proof fn identity_maps_requested_once(a: ChildSetup, b: ChildSetup)
    requires
        a.wf(),
        b.wf(),
        (a.spec_action() is UidMap && b.spec_action() is UidMap) || (a.spec_action() is GidMap
            && b.spec_action() is GidMap),
    ensures
        a.step == b.step,
{
}

/// Privileges are dropped before the tunnel's descriptor leaves the child
/// and before the user command runs: both come at later steps than the drop.
pub proof fn privileges_dropped_before_handoff(a: ChildSetup, b: ChildSetup)
    requires
        a.wf(),
        b.wf(),
        a.spec_action() is DropPrivileges,
        b.spec_action() is SendDescriptor || b.spec_action() is Spawn,
    ensures
        a.step < b.step,
{
}

} // verus!
