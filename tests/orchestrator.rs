use oniux::gen_stack;
use oniux::mount::{bind, init_namespace, procfs, MS_BIND, MS_PRIVATE, MS_REC};
use oniux::netlink::{AddressFamily, IpAddress, NetlinkError};
use oniux::sandbox::{
    child_exit_code, exit_code, handoff, resolv_conf, Action, ChildSetup, ChildStatus,
    CommandOutcome, Event, HandoffError, Link, SetupError, Stage,
};
use oniux::user::{gid_map, setgroups, uid_map};

fn ack() -> Vec<u8> {
    let mut b = vec![36u8, 0, 0, 0, 2, 0, 0, 0, 0, 0, 0, 0, 0, 0, 0, 0];
    b.extend_from_slice(&[0u8; 20]);
    b
}

fn link_reply(index: u32, name: &str) -> Vec<u8> {
    let mut attr = vec![0u8, 0, 3, 0];
    attr.extend_from_slice(name.as_bytes());
    attr.push(0);
    let alen = attr.len();
    attr[0] = alen as u8;
    while attr.len() % 4 != 0 {
        attr.push(0);
    }
    let total = 32 + attr.len();
    let mut b = vec![total as u8, 0, 0, 0, 16, 0, 0, 0, 1, 0, 0, 0, 0, 0, 0, 0];
    b.extend_from_slice(&[0, 0, 0, 0]);
    b.extend_from_slice(&index.to_le_bytes());
    b.extend_from_slice(&[0u8; 8]);
    b.extend_from_slice(&attr);
    b
}

#[test]
fn setup_runs_every_step_in_order() {
    let mut s = ChildSetup::new(1000, 100);
    assert_eq!(s.stage(), Stage::NamespacesCreated);
    let mut actions = Vec::new();
    loop {
        let a = s.action();
        actions.push(a);
        let event = match a {
            Action::Finished => break,
            Action::GetIndex { link: Link::Loopback } => Event::Reply(link_reply(1, "lo")),
            Action::GetIndex { link: Link::Tunnel } => Event::Reply(link_reply(5, "onion0")),
            Action::AddAddress { .. } | Action::SetUp { .. } | Action::SetDefaultGateway { .. } => {
                Event::Reply(ack())
            }
            _ => Event::Done,
        };
        assert_eq!(s.advance(&event), Ok(()));
    }
    let expected = vec![
        Action::MountRoot,
        Action::MountProc,
        Action::Setgroups { allow: false },
        Action::UidMap { inner: 1000, outer: 1000 },
        Action::GidMap { inner: 100, outer: 100 },
        Action::Resolver,
        Action::GetIndex { link: Link::Loopback },
        Action::AddAddress { index: 1, addr: IpAddress::V4([127, 0, 0, 1]), prefix_len: 8 },
        Action::AddAddress {
            index: 1,
            addr: IpAddress::V6([0, 0, 0, 0, 0, 0, 0, 0, 0, 0, 0, 0, 0, 0, 0, 1]),
            prefix_len: 128,
        },
        Action::SetUp { index: 1 },
        Action::OpenTunnel,
        Action::GetIndex { link: Link::Tunnel },
        Action::AddAddress { index: 5, addr: IpAddress::V4([169, 254, 42, 1]), prefix_len: 24 },
        Action::AddAddress {
            index: 5,
            addr: IpAddress::V6([0xfe, 0x80, 0, 0, 0, 0, 0, 0, 0, 0, 0, 0, 0, 0, 0, 1]),
            prefix_len: 96,
        },
        Action::SetUp { index: 5 },
        Action::SetDefaultGateway { index: 5, af: AddressFamily::Inet },
        Action::SetDefaultGateway { index: 5, af: AddressFamily::Inet6 },
        Action::DropPrivileges,
        Action::SendDescriptor,
        Action::Grace { millis: 100 },
        Action::Spawn,
        Action::Finished,
    ];
    assert_eq!(actions, expected);
    assert_eq!(s.stage(), Stage::Exited);
    assert_eq!(s.advance(&Event::Done), Err(SetupError::Finished));
}

#[test]
fn setup_stops_on_missing_interface() {
    let mut s = ChildSetup::new(0, 0);
    for _ in 0..6 {
        assert_eq!(s.advance(&Event::Done), Ok(()));
    }
    assert_eq!(s.action(), Action::GetIndex { link: Link::Loopback });
    let r = s.advance(&Event::Reply(link_reply(3, "eth0")));
    assert_eq!(
        r,
        Err(SetupError::Netlink(NetlinkError::MissingInterface { name: "lo".to_string() }))
    );
    assert_eq!(s.step, 6);
}

#[test]
fn setup_stops_on_refused_request() {
    let mut s = ChildSetup::new(0, 0);
    for _ in 0..6 {
        s.advance(&Event::Done).unwrap();
    }
    s.advance(&Event::Reply(link_reply(1, "lo"))).unwrap();
    let mut refused = ack();
    refused[16..20].copy_from_slice(&(-17i32).to_le_bytes());
    let r = s.advance(&Event::Reply(refused.clone()));
    assert_eq!(
        r,
        Err(SetupError::Netlink(NetlinkError::Rejected { code: -17, response: refused }))
    );
    assert_eq!(s.step, 7);
    assert_eq!(s.stage(), Stage::IdentityMapped);
}

#[test]
fn setup_refuses_event_of_wrong_kind() {
    let mut s = ChildSetup::new(0, 0);
    assert_eq!(s.advance(&Event::Reply(ack())), Err(SetupError::UnexpectedEvent));
    assert_eq!(s.step, 0);
    for _ in 0..6 {
        s.advance(&Event::Done).unwrap();
    }
    assert_eq!(s.advance(&Event::Done), Err(SetupError::UnexpectedEvent));
    assert_eq!(s.step, 6);
}

#[test]
fn handoff_takes_exactly_one_descriptor() {
    assert_eq!(handoff(1, &[5]), Ok(5));
    assert_eq!(handoff(1, &[5, -1]), Ok(5));
}

#[test]
fn handoff_zero_or_two_descriptors() {
    assert_eq!(handoff(0, &[-1, -1]), Err(HandoffError::ProtocolViolation { received: 0 }));
    assert_eq!(handoff(2, &[5, 6]), Err(HandoffError::ProtocolViolation { received: 2 }));
    assert_eq!(handoff(1, &[-1]), Err(HandoffError::ProtocolViolation { received: 1 }));
}

#[test]
fn true_command_exits_zero() {
    let child = child_exit_code(CommandOutcome::Exited(0));
    assert_eq!(exit_code(ChildStatus::Exited(child)), 0);
}

#[test]
fn exit_seven_propagates() {
    let child = child_exit_code(CommandOutcome::Exited(7));
    assert_eq!(child, 7);
    assert_eq!(exit_code(ChildStatus::Exited(child)), 7);
}

#[test]
fn abnormal_termination_gives_fallback() {
    assert_eq!(exit_code(ChildStatus::Signaled), 1);
    assert_eq!(child_exit_code(CommandOutcome::Killed), 1);
    assert_eq!(child_exit_code(CommandOutcome::SetupFailed), 127);
    assert_eq!(exit_code(ChildStatus::Exited(127)), 127);
    assert_eq!(exit_code(ChildStatus::Exited(300)), 1);
    assert_eq!(exit_code(ChildStatus::Exited(-2)), 1);
}

#[test]
fn resolver_file_has_two_nameserver_lines() {
    let conf = resolv_conf();
    assert_eq!(conf, "nameserver 169.254.42.53\nnameserver fe80::53\n");
    let lines: Vec<&str> = conf.lines().collect();
    assert_eq!(lines, vec!["nameserver 169.254.42.53", "nameserver fe80::53"]);
}

#[test]
fn mount_requests() {
    let root = init_namespace();
    assert_eq!((root.source.as_str(), root.target.as_str(), root.fstype.as_str()), ("", "/", ""));
    assert_eq!(root.flags, MS_REC | MS_PRIVATE);
    assert_eq!(root.flags, 0x44000);
    let proc = procfs("/proc");
    assert_eq!((proc.source.as_str(), proc.target.as_str(), proc.fstype.as_str()), ("proc", "/proc", "proc"));
    assert_eq!(proc.flags, 0);
    let b = bind("/tmp/x", "/etc/resolv.conf");
    assert_eq!((b.source.as_str(), b.target.as_str(), b.fstype.as_str()), ("/tmp/x", "/etc/resolv.conf", ""));
    assert_eq!(b.flags, MS_BIND);
    assert_eq!(b.data, "");
}

#[test]
fn identity_map_writes() {
    let u = uid_map(1000, 1000);
    assert_eq!(u.path, "/proc/self/uid_map");
    assert_eq!(u.contents, b"1000\t1000\t1\n".to_vec());
    let g = gid_map(0, 4294967295);
    assert_eq!(g.path, "/proc/self/gid_map");
    assert_eq!(g.contents, b"0\t4294967295\t1\n".to_vec());
    assert_eq!(setgroups(false).contents, b"deny\n".to_vec());
    assert_eq!(setgroups(true).contents, b"allow\n".to_vec());
    assert_eq!(setgroups(true).path, "/proc/self/setgroups");
}

#[test]
fn stack_is_zeroed() {
    let s = gen_stack();
    assert_eq!(s.len(), 8_000_000);
    assert!(s.iter().all(|b| *b == 0));
}
