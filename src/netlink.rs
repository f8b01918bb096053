//! A minimal client of the kernel's route-configuration netlink protocol.
//!
//! Each operation has two halves: `*_request` builds the exact bytes of the
//! request, and the function of the operation's own name interprets the
//! kernel's reply. The caller opens a fresh socket for every exchange, sends
//! the request, and hands the received bytes back.

use vstd::prelude::*;
use vstd::string::{StringSliceAdditionalSpecFns, StringExecFns};
use crate::wire::{le16, le32, read16, read32, zeros, push_u16, push_u32, push_bytes, push_zeros, read_u16, read_u32};

verus! {

/// What can go wrong in a netlink exchange.
#[derive(Clone, Debug, PartialEq, Eq)]
pub enum NetlinkError {
    /// The socket took fewer bytes than the request holds.
    Send { expected: usize, found: usize },
    /// The reply is not a well-formed netlink message; it is kept whole for
    /// diagnostics.
    Decode { response: Vec<u8> },
    /// The kernel answered with an error record of a non-zero code; the
    /// reply is kept whole for diagnostics.
    Rejected { code: i32, response: Vec<u8> },
    /// The reply is well formed but is not the answer the request asks for;
    /// it is kept whole for diagnostics.
    Unexpected { response: Vec<u8> },
    /// The kernel knows no interface of that name.
    MissingInterface { name: String },
}

/// Message type of an error record; a zero code is the acknowledgment.
pub const NLMSG_ERROR: u16 = 2;

pub const RTM_NEWLINK: u16 = 16;
pub const RTM_GETLINK: u16 = 18;
pub const RTM_SETLINK: u16 = 19;
pub const RTM_NEWADDR: u16 = 20;
pub const RTM_NEWROUTE: u16 = 24;

pub const NLM_F_REQUEST: u16 = 1;
pub const NLM_F_ACK: u16 = 4;
pub const NLM_F_EXCL: u16 = 512;
pub const NLM_F_CREATE: u16 = 1024;

/// `REQUEST | ACK | EXCL | CREATE`: the flags of every modifying request.
pub const MODIFY_FLAGS: u16 = NLM_F_REQUEST + NLM_F_ACK + NLM_F_EXCL + NLM_F_CREATE;

pub const IFLA_IFNAME: u16 = 3;
pub const IFA_ADDRESS: u16 = 1;
pub const IFA_LOCAL: u16 = 2;
pub const RTA_OIF: u16 = 4;

/// The mask that strips the nested and byte-order bits from an attribute type.
pub const NLA_TYPE_MASK: u16 = 16383;

/// The `UP` flag of a link.
pub const IFF_UP: u32 = 1;

pub const AF_INET: u8 = 2;
pub const AF_INET6: u8 = 10;

pub const RT_TABLE_MAIN: u8 = 254;
pub const RTPROT_STATIC: u8 = 4;
pub const RT_SCOPE_UNIVERSE: u8 = 0;
pub const RTN_UNICAST: u8 = 1;

/// The longest interface name whose attribute length fits in 16 bits.
pub const MAX_NAME_LEN: usize = 65530;

/// An IP address, as its bytes in network order.
#[derive(Clone, Copy, Debug, PartialEq, Eq)]
pub enum IpAddress {
    V4([u8; 4]),
    V6([u8; 16]),
}

/// The address family of a route.
#[derive(Clone, Copy, Debug, PartialEq, Eq)]
pub enum AddressFamily {
    Inet,
    Inet6,
}

impl IpAddress {
    pub open spec fn octets(self) -> Seq<u8> {
        match self {
            IpAddress::V4(a) => a@,
            IpAddress::V6(a) => a@,
        }
    }

    /// The address family that the address belongs to.
    pub open spec fn family(self) -> u8 {
        match self {
            IpAddress::V4(_) => AF_INET,
            IpAddress::V6(_) => AF_INET6,
        }
    }
}

impl AddressFamily {
    pub open spec fn spec_code(self) -> u8 {
        match self {
            AddressFamily::Inet => AF_INET,
            AddressFamily::Inet6 => AF_INET6,
        }
    }

    /// The kernel's number for the family.
    pub fn code(&self) -> (r: u8)
        ensures
            r == self.spec_code(),
    {
        match self {
            AddressFamily::Inet => AF_INET,
            AddressFamily::Inet6 => AF_INET6,
        }
    }
}

/// The padding that aligns `n` bytes to four.
pub open spec fn pad_len(n: nat) -> nat {
    ((4 - n % 4) % 4) as nat
}

/// A route attribute (`rtattr`): length, type, payload, padding.
pub open spec fn nla(kind: u16, payload: Seq<u8>) -> Seq<u8> {
    le16(4 + payload.len() as int) + le16(kind as int) + payload + zeros(pad_len(payload.len()))
}

/// A netlink message: the header, with the length of the whole message and a
/// port of zero, followed by `body`.
pub open spec fn nlmsg(kind: u16, flags: u16, seq: u32, body: Seq<u8>) -> Seq<u8> {
    le32(16 + body.len() as int) + le16(kind as int) + le16(flags as int) + le32(seq as int) + le32(0)
        + body
}

/// A link header of family "unspecified" and device type zero.
pub open spec fn ifinfomsg(index: u32, flags: u32, change: u32) -> Seq<u8> {
    seq![0u8, 0u8] + le16(0) + le32(index as int) + le32(flags as int) + le32(change as int)
}

/// An address header with no flags and universe scope.
pub open spec fn ifaddrmsg(family: u8, prefix_len: u8, index: u32) -> Seq<u8> {
    seq![family, prefix_len, 0u8, 0u8] + le32(index as int)
}

/// A unicast, static route header of the main table, with universe scope and
/// no prefix.
pub open spec fn rtmsg(family: u8) -> Seq<u8> {
    seq![family, 0u8, 0u8, 0u8, RT_TABLE_MAIN, RTPROT_STATIC, RT_SCOPE_UNIVERSE, RTN_UNICAST]
        + le32(0)
}

/// The bytes of the `GetLink` request for the interface named `name`.
pub open spec fn get_index_message(name: Seq<u8>) -> Seq<u8> {
    nlmsg(RTM_GETLINK, NLM_F_REQUEST, 1, ifinfomsg(0, 0, 0) + nla(IFLA_IFNAME, name.push(0u8)))
}

/// The bytes of the `SetLink` request that sets link `index` up.
pub open spec fn set_up_message(index: u32) -> Seq<u8> {
    nlmsg(RTM_SETLINK, MODIFY_FLAGS, 0, ifinfomsg(index, IFF_UP, IFF_UP))
}

/// The bytes of the `NewAddress` request that adds `addr/prefix_len` to link
/// `index`, as both its address and its local address.
pub open spec fn add_address_message(index: u32, addr: IpAddress, prefix_len: u8) -> Seq<u8> {
    nlmsg(
        RTM_NEWADDR,
        MODIFY_FLAGS,
        0,
        ifaddrmsg(addr.family(), prefix_len, index) + nla(IFA_ADDRESS, addr.octets()) + nla(
            IFA_LOCAL,
            addr.octets(),
        ),
    )
}

/// The bytes of the `NewRoute` request of a default route of family `af`
/// through link `index`.
pub open spec fn set_default_gateway_message(index: u32, af: AddressFamily) -> Seq<u8> {
    nlmsg(RTM_NEWROUTE, MODIFY_FLAGS, 0, rtmsg(af.spec_code()) + nla(RTA_OIF, le32(index as int)))
}

fn push_header(buf: &mut Vec<u8>, len: u32, kind: u16, flags: u16, seq: u32)
    ensures
        final(buf)@ == old(buf)@ + le32(len as int) + le16(kind as int) + le16(flags as int)
            + le32(seq as int) + le32(0),
{
    push_u32(buf, len);
    push_u16(buf, kind);
    push_u16(buf, flags);
    push_u32(buf, seq);
    push_u32(buf, 0);
}

fn push_ifinfo(buf: &mut Vec<u8>, index: u32, flags: u32, change: u32)
    ensures
        final(buf)@ == old(buf)@ + ifinfomsg(index, flags, change),
{
    let ghost start = buf@;
    buf.push(0u8);
    buf.push(0u8);
    push_u16(buf, 0);
    push_u32(buf, index);
    push_u32(buf, flags);
    push_u32(buf, change);
    assert(buf@ =~= start + ifinfomsg(index, flags, change));
}

fn push_attribute(buf: &mut Vec<u8>, kind: u16, payload: &[u8])
    requires
        payload@.len() + 4 < 65536,
    ensures
        final(buf)@ == old(buf)@ + nla(kind, payload@),
{
    let ghost start = buf@;
    let n = payload.len();
    push_u16(buf, (n + 4) as u16);
    push_u16(buf, kind);
    push_bytes(buf, payload);
    push_zeros(buf, (4 - n % 4) % 4);
    assert(buf@ =~= start + nla(kind, payload@));
}

/// The bytes of the request that looks up the interface named `name`.
pub fn get_index_request(name: &str) -> (r: Vec<u8>)
    requires
        name.spec_bytes().len() <= MAX_NAME_LEN,
    ensures
        r@ == get_index_message(name.spec_bytes()),
{
    let bytes = name.as_bytes();
    let mut payload: Vec<u8> = Vec::new();
    push_bytes(&mut payload, bytes);
    payload.push(0u8);
    let n = payload.len();
    let len = (32 + 4 + n + (4 - n % 4) % 4) as u32;
    let mut r: Vec<u8> = Vec::new();
    push_header(&mut r, len, RTM_GETLINK, NLM_F_REQUEST, 1);
    push_ifinfo(&mut r, 0, 0, 0);
    push_attribute(&mut r, IFLA_IFNAME, payload.as_slice());
    assert(payload@ =~= name.spec_bytes().push(0u8));
    assert(r@ =~= get_index_message(name.spec_bytes()));
    r
}

/// The bytes of the request that sets link `index` up, with `UP` as the
/// exact change mask.
pub fn set_up_request(index: u32) -> (r: Vec<u8>)
    ensures
        r@ == set_up_message(index),
{
    let mut r: Vec<u8> = Vec::new();
    push_header(&mut r, 32, RTM_SETLINK, MODIFY_FLAGS, 0);
    push_ifinfo(&mut r, index, IFF_UP, IFF_UP);
    assert(r@ =~= set_up_message(index));
    r
}

/// The bytes of the request that adds `addr` with `prefix_len` to link
/// `index`; the family follows from the address.
pub fn add_address_request(index: u32, addr: &IpAddress, prefix_len: u8) -> (r: Vec<u8>)
    ensures
        r@ == add_address_message(index, *addr, prefix_len),
{
    let (family, octets): (u8, &[u8]) = match addr {
        IpAddress::V4(a) => (AF_INET, a.as_slice()),
        IpAddress::V6(a) => (AF_INET6, a.as_slice()),
    };
    let n = octets.len();
    let len = (24 + 2 * (4 + n)) as u32;
    let mut r: Vec<u8> = Vec::new();
    push_header(&mut r, len, RTM_NEWADDR, MODIFY_FLAGS, 0);
    r.push(family);
    r.push(prefix_len);
    r.push(0u8);
    r.push(0u8);
    push_u32(&mut r, index);
    push_attribute(&mut r, IFA_ADDRESS, octets);
    push_attribute(&mut r, IFA_LOCAL, octets);
    assert(r@ =~= add_address_message(index, *addr, prefix_len));
    r
}

/// The bytes of the request that adds a default route of family `af` whose
/// output interface is link `index`.
pub fn set_default_gateway_request(index: u32, af: AddressFamily) -> (r: Vec<u8>)
    ensures
        r@ == set_default_gateway_message(index, af),
{
    let mut r: Vec<u8> = Vec::new();
    push_header(&mut r, 36, RTM_NEWROUTE, MODIFY_FLAGS, 0);
    r.push(af.code());
    r.push(0u8);
    r.push(0u8);
    r.push(0u8);
    r.push(RT_TABLE_MAIN);
    r.push(RTPROT_STATIC);
    r.push(RT_SCOPE_UNIVERSE);
    r.push(RTN_UNICAST);
    push_u32(&mut r, 0);
    let mut oif: Vec<u8> = Vec::new();
    push_u32(&mut oif, index);
    push_attribute(&mut r, RTA_OIF, oif.as_slice());
    assert(r@ =~= set_default_gateway_message(index, af));
    r
}

/// The length field of the message in `b`.
pub open spec fn msg_len(b: Seq<u8>) -> int {
    read32(b, 0)
}

/// The type field of the message in `b`.
pub open spec fn msg_type(b: Seq<u8>) -> int {
    read16(b, 4)
}

/// `b` holds a whole netlink header, and its length field covers at least
/// the header and at most the bytes received.
pub open spec fn framed(b: Seq<u8>) -> bool {
    b.len() >= 16 && 16 <= msg_len(b) <= b.len()
}

/// A 32-bit pattern read as a two's complement number.
pub open spec fn signed32(u: int) -> int {
    if u < 0x8000_0000 {
        u
    } else {
        u - 0x1_0000_0000
    }
}

/// `b` is an error record that carries its code.
pub open spec fn is_error_record(b: Seq<u8>) -> bool {
    framed(b) && msg_type(b) == NLMSG_ERROR as int && msg_len(b) >= 20
}

/// The code of the error record in `b`.
pub open spec fn error_code(b: Seq<u8>) -> int {
    signed32(read32(b, 16))
}

/// `b` is the acknowledgment: an error record whose code is zero.
pub open spec fn is_ack(b: Seq<u8>) -> bool {
    is_error_record(b) && error_code(b) == 0
}

/// The error that a reply other than the acknowledgment gives to a request
/// that asks for one.
pub open spec fn ack_failure(b: Seq<u8>, e: NetlinkError) -> bool {
    if !framed(b) || (msg_type(b) == NLMSG_ERROR as int && msg_len(b) < 20) {
        e matches NetlinkError::Decode { response } && response@ == b
    } else if is_error_record(b) {
        e matches NetlinkError::Rejected { code, response } && code == error_code(b) as i32
            && response@ == b
    } else {
        e matches NetlinkError::Unexpected { response } && response@ == b
    }
}

/// The outcome of a request that asks for an acknowledgment, given the
/// reply: success exactly on the acknowledgment, and otherwise the error
/// that `ack_failure` names.
pub open spec fn ack_outcome(b: Seq<u8>, r: Result<(), NetlinkError>) -> bool {
    match r {
        Ok(()) => is_ack(b),
        Err(e) => !is_ack(b) && ack_failure(b, e),
    }
}

/// A copy of the reply, kept in an error.
fn raw(b: &[u8]) -> (r: Vec<u8>)
    ensures
        r@ == b@,
{
    let mut r: Vec<u8> = Vec::new();
    push_bytes(&mut r, b);
    assert(r@ =~= b@);
    r
}

fn is_framed(b: &[u8]) -> (r: bool)
    ensures
        r == framed(b@),
{
    if b.len() < 16 {
        return false;
    }
    let len = read_u32(b, 0) as usize;
    16 <= len && len <= b.len()
}

/// Read `u` as a two's complement number.
fn to_signed(u: u32) -> (r: i32)
    ensures
        r as int == signed32(u as int),
{
    if u < 0x8000_0000 {
        u as i32
    } else {
        (u as i64 - 0x1_0000_0000i64) as i32
    }
}

/// Interpret the reply to a request that asks for an acknowledgment. Only
/// an error record whose code is zero is success.
pub fn check_ack(reply: &[u8]) -> (r: Result<(), NetlinkError>)
    ensures
        ack_outcome(reply@, r),
{
    if !is_framed(reply) {
        return Err(NetlinkError::Decode { response: raw(reply) });
    }
    let len = read_u32(reply, 0);
    let kind = read_u16(reply, 4);
    if kind == NLMSG_ERROR {
        if len < 20 {
            return Err(NetlinkError::Decode { response: raw(reply) });
        }
        let code = to_signed(read_u32(reply, 16));
        if code == 0 {
            Ok(())
        } else {
            Err(NetlinkError::Rejected { code, response: raw(reply) })
        }
    } else {
        Err(NetlinkError::Unexpected { response: raw(reply) })
    }
}

/// Check that the socket took the whole request.
pub fn check_sent(expected: usize, found: usize) -> (r: Result<(), NetlinkError>)
    ensures
        expected == found ==> r is Ok,
        expected != found ==> r == Err::<(), NetlinkError>(NetlinkError::Send { expected, found }),
{
    if expected == found {
        Ok(())
    } else {
        Err(NetlinkError::Send { expected, found })
    }
}

/// The name that an interface-name attribute's payload holds: the payload
/// without one trailing NUL, if it ends in one.
pub open spec fn ifname_of(p: Seq<u8>) -> Seq<u8> {
    if p.len() > 0 && p.last() == 0u8 {
        p.drop_last()
    } else {
        p
    }
}

/// Walk the attributes that lie between `off` and `end` in `b`. `None` when
/// one of them is malformed (fewer than four bytes left, or a length that is
/// under four or runs past `end`); otherwise whether one of them is an
/// interface-name attribute that holds `name`.
pub open spec fn scan_names(b: Seq<u8>, off: int, end: int, name: Seq<u8>) -> Option<bool>
    decreases end - off,
{
    if off >= end {
        Some(false)
    } else if end - off < 4 {
        None
    } else {
        let len = read16(b, off);
        if len < 4 || len > end - off {
            None
        } else {
            let here = read16(b, off + 2) % 16384 == IFLA_IFNAME as int && ifname_of(
                b.subrange(off + 4, off + len),
            ) == name;
            let next = off + len + pad_len(len as nat);
            let rest = if next >= end {
                Some(false)
            } else {
                scan_names(b, next, end, name)
            };
            match rest {
                None => None,
                Some(f) => Some(here || f),
            }
        }
    }
}

/// What the reply `b` to the lookup of the interface `name` gives:
/// `None` when the reply is malformed, `Some(None)` when it names no such
/// interface, and `Some(Some(index))` when it is a link notification that
/// holds the name.
pub open spec fn lookup(b: Seq<u8>, name: Seq<u8>) -> Option<Option<u32>> {
    if !framed(b) {
        None
    } else if msg_type(b) != RTM_NEWLINK as int {
        Some(None)
    } else if msg_len(b) < 32 {
        None
    } else {
        match scan_names(b, 32, msg_len(b), name) {
            None => None,
            Some(false) => Some(None),
            Some(true) => Some(Some(read32(b, 20) as u32)),
        }
    }
}

/// The result that `get_index` owes for the reply `b` and the name `name`.
pub open spec fn get_index_outcome(b: Seq<u8>, name: &str, r: Result<u32, NetlinkError>) -> bool {
    match lookup(b, name.spec_bytes()) {
        None => r matches Err(NetlinkError::Decode { response }) && response@ == b,
        Some(None) => r matches Err(NetlinkError::MissingInterface { name: n }) && n@ == name@,
        Some(Some(i)) => r == Ok::<u32, NetlinkError>(i),
    }
}

/// Whether the bytes `b[start..stop]`, without one trailing NUL, are `name`.
fn ifname_matches(b: &[u8], start: usize, stop: usize, name: &[u8]) -> (r: bool)
    requires
        start <= stop <= b@.len(),
    ensures
        r == (ifname_of(b@.subrange(start as int, stop as int)) == name@),
{
    let ghost p = b@.subrange(start as int, stop as int);
    let mut last = stop;
    if last > start && b[last - 1] == 0 {
        last = last - 1;
    }
    assert(ifname_of(p) =~= b@.subrange(start as int, last as int));
    if last - start != name.len() {
        assert(b@.subrange(start as int, last as int).len() != name@.len());
        return false;
    }
    let mut i: usize = 0;
    while i < name.len()
        invariant
            start + name@.len() == last <= b@.len(),
            ifname_of(p) == b@.subrange(start as int, last as int),
            p == b@.subrange(start as int, stop as int),
            i <= name@.len(),
            forall|j: int| 0 <= j < i ==> b@[start + j] == name@[j],
        decreases name@.len() - i,
    {
        if b[start + i] != name[i] {
            assert(b@.subrange(start as int, last as int)[i as int] != name@[i as int]);
            return false;
        }
        i = i + 1;
    }
    assert(b@.subrange(start as int, last as int) =~= name@);
    true
}

/// Interpret the reply to the lookup of the interface named `name`: the
/// index of the link, if the reply is a link notification that holds the
/// name; `MissingInterface` for any other well-formed reply; `Decode` for a
/// malformed one.
pub fn get_index(name: &str, reply: &[u8]) -> (r: Result<u32, NetlinkError>)
    ensures
        get_index_outcome(reply@, name, r),
{
    let ghost nb = name.spec_bytes();
    if !is_framed(reply) {
        return Err(NetlinkError::Decode { response: raw(reply) });
    }
    if read_u16(reply, 4) != RTM_NEWLINK {
        return Err(NetlinkError::MissingInterface { name: String::from_str(name) });
    }
    let end = read_u32(reply, 0) as usize;
    if end < 32 {
        return Err(NetlinkError::Decode { response: raw(reply) });
    }
    let bytes = name.as_bytes();
    let mut off: usize = 32;
    let mut found = false;
    while off < end
        invariant
            32 <= off,
            framed(reply@),
            msg_type(reply@) == RTM_NEWLINK as int,
            end <= reply@.len(),
            end as int == msg_len(reply@),
            bytes@ == nb,
            nb == name.spec_bytes(),
            scan_names(reply@, 32, end as int, nb) == match scan_names(
                reply@,
                off as int,
                end as int,
                nb,
            ) {
                None => None,
                Some(f) => Some(found || f),
            },
        decreases end - off,
    {
        if end - off < 4 {
            assert(scan_names(reply@, off as int, end as int, nb) is None);
            return Err(NetlinkError::Decode { response: raw(reply) });
        }
        let len = read_u16(reply, off) as usize;
        if len < 4 || len > end - off {
            assert(scan_names(reply@, off as int, end as int, nb) is None);
            return Err(NetlinkError::Decode { response: raw(reply) });
        }
        let ghost prev_off = off as int;
        let ghost prev_found = found;
        let here = read_u16(reply, off + 2) % 16384 == IFLA_IFNAME && ifname_matches(
            reply,
            off + 4,
            off + len,
            bytes,
        );
        if here {
            found = true;
        }
        let pad = (4 - len % 4) % 4;
        let ghost next = prev_off + len + pad_len(len as nat);
        assert(pad as int == pad_len(len as nat));
        if pad >= end - off - len {
            off = end;
            assert(scan_names(reply@, next, end as int, nb) == Some(false));
        } else {
            off = off + len + pad;
        }
        assert(scan_names(reply@, off as int, end as int, nb) == scan_names(
            reply@,
            next,
            end as int,
            nb,
        ));
        assert(scan_names(reply@, prev_off, end as int, nb) == match scan_names(
            reply@,
            next,
            end as int,
            nb,
        ) {
            None => None,
            Some(f) => Some(here || f),
        });
    }
    if found {
        Ok(read_u32(reply, 20))
    } else {
        Err(NetlinkError::MissingInterface { name: String::from_str(name) })
    }
}

/// Interpret the reply to the request of `set_up_request`.
pub fn set_up(reply: &[u8]) -> (r: Result<(), NetlinkError>)
    ensures
        ack_outcome(reply@, r),
{
    check_ack(reply)
}

/// Interpret the reply to the request of `add_address_request`. An address
/// that the link holds already is refused by the kernel (the request is
/// exclusive), which gives `Rejected`.
pub fn add_address(reply: &[u8]) -> (r: Result<(), NetlinkError>)
    ensures
        ack_outcome(reply@, r),
{
    check_ack(reply)
}

/// Interpret the reply to the request of `set_default_gateway_request`.
pub fn set_default_gateway(reply: &[u8]) -> (r: Result<(), NetlinkError>)
    ensures
        ack_outcome(reply@, r),
{
    check_ack(reply)
}

/// A reply to a request that asks for an acknowledgment, other than an
/// error record of code zero, never comes out as success: a malformed reply
/// is `Decode`, an error record of a non-zero code is `Rejected` with that
/// code, and any other message is `Unexpected`; each keeps the reply whole.
pub proof fn non_ack_reply_fails(reply: Seq<u8>, r: Result<(), NetlinkError>)
    requires
        ack_outcome(reply, r),
        !is_ack(reply),
    ensures
        r is Err,
        !framed(reply) ==> (r matches Err(NetlinkError::Decode { response }) && response@
            == reply),
        is_error_record(reply) ==> (r matches Err(NetlinkError::Rejected { code, response })
            && code == error_code(reply) as i32 && response@ == reply),
        framed(reply) && msg_type(reply) != NLMSG_ERROR as int ==> (r matches Err(
            NetlinkError::Unexpected { response },
        ) && response@ == reply),
{
}

/// The request that adds an address asks the kernel to create it and to
/// refuse it when the link holds it already (its flags hold `CREATE` and
/// `EXCL`); that refusal, an error record of a non-zero code, comes back as
/// `Rejected` with the code and the reply.
pub proof fn add_address_is_exclusive(
    index: u32,
    addr: IpAddress,
    prefix_len: u8,
    reply: Seq<u8>,
    r: Result<(), NetlinkError>,
)
    requires
        ack_outcome(reply, r),
        is_error_record(reply),
        error_code(reply) != 0,
    ensures
        read16(add_address_message(index, addr, prefix_len), 6) == MODIFY_FLAGS as int,
        (MODIFY_FLAGS as int / NLM_F_EXCL as int) % 2 == 1,
        (MODIFY_FLAGS as int / NLM_F_CREATE as int) % 2 == 1,
        r matches Err(NetlinkError::Rejected { code, response }) && code == error_code(reply)
            as i32 && response@ == reply,
{
}

} // verus!
