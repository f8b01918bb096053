//! The capability governor: checks that the privileges the sandbox needs are
//! there, narrows the process to exactly those, and drops them all once the
//! sandbox is built. Every change is confirmed by reading the sets back.

use vstd::prelude::*;

verus! {

/// Kernel index of the network-administration capability.
pub const CAP_NET_ADMIN: u8 = 12;

/// Kernel index of the system- (and namespace-) administration capability.
pub const CAP_SYS_ADMIN: u8 = 21;

/// The four capability sets that the kernel tracks for a thread and that
/// the governor manages.
#[derive(Clone, Copy, Debug, PartialEq, Eq)]
pub enum CapSetKind {
    Permitted,
    Effective,
    Inheritable,
    Ambient,
}

/// The privileges that building the sandbox takes.
#[derive(Clone, Copy, Debug, PartialEq, Eq)]
pub enum Privilege {
    NamespaceAdmin,
    NetworkAdmin,
}

#[derive(Clone, Copy, Debug, PartialEq, Eq)]
pub enum PrivilegeError {
    /// A required privilege is missing from the permitted set.
    InsufficientPrivilege,
    /// The kernel refused to report or to change a set.
    Kernel { set: CapSetKind },
    /// Read back after the change, a set is not what was written.
    Mismatch { set: CapSetKind },
}

/// One change of a capability set.
#[derive(Clone, Copy, Debug, PartialEq, Eq)]
pub enum CapRequest {
    /// Empty the set.
    Clear(CapSetKind),
    /// Make the set hold exactly the required privileges.
    SetRequired(CapSetKind),
}

impl CapRequest {
    /// The set that the change is about.
    pub open spec fn set(self) -> CapSetKind {
        match self {
            CapRequest::Clear(s) => s,
            CapRequest::SetRequired(s) => s,
        }
    }
}

/// The four sets of the thread as read from the kernel, each as a list of
/// capability indices.
pub struct CapState {
    pub permitted: Vec<u8>,
    pub effective: Vec<u8>,
    pub inheritable: Vec<u8>,
    pub ambient: Vec<u8>,
}

/// The capabilities that building the sandbox takes.
pub open spec fn required() -> Set<u8> {
    set![CAP_SYS_ADMIN, CAP_NET_ADMIN]
}

impl Privilege {
    pub open spec fn index(self) -> u8 {
        match self {
            Privilege::NamespaceAdmin => CAP_SYS_ADMIN,
            Privilege::NetworkAdmin => CAP_NET_ADMIN,
        }
    }
}

impl CapState {
    /// Permitted and effective hold exactly the required capabilities;
    /// inheritable and ambient are empty.
    pub open spec fn is_minimized(&self) -> bool {
        &&& self.permitted@.to_set() == required()
        &&& self.effective@.to_set() == required()
        &&& self.inheritable@.len() == 0
        &&& self.ambient@.len() == 0
    }

    /// All four sets are empty.
    pub open spec fn is_cleared(&self) -> bool {
        &&& self.permitted@.len() == 0
        &&& self.effective@.len() == 0
        &&& self.inheritable@.len() == 0
        &&& self.ambient@.len() == 0
    }
}

/// Relies on caps::read: the capabilities that one set of the calling thread
/// holds, each given by its kernel index (`Capability::index`).
#[verifier::external_body]
fn read_set(set: CapSetKind) -> (r: Result<Vec<u8>, caps::errors::CapsError>) {
    let set = match set {
        CapSetKind::Permitted => caps::CapSet::Permitted,
        CapSetKind::Effective => caps::CapSet::Effective,
        CapSetKind::Inheritable => caps::CapSet::Inheritable,
        CapSetKind::Ambient => caps::CapSet::Ambient,
    };
    caps::read(None, set).map(|s| s.iter().map(|c| c.index()).collect())
}

/// Relies on caps::set: asks the kernel to make one set of the calling
/// thread hold exactly `privileges`.
#[verifier::external_body]
fn write_set(set: CapSetKind, privileges: &[Privilege]) -> (r: Result<(), caps::errors::CapsError>) {
    let set = match set {
        CapSetKind::Permitted => caps::CapSet::Permitted,
        CapSetKind::Effective => caps::CapSet::Effective,
        CapSetKind::Inheritable => caps::CapSet::Inheritable,
        CapSetKind::Ambient => caps::CapSet::Ambient,
    };
    let value = privileges.iter().map(|p| match p {
        Privilege::NamespaceAdmin => caps::Capability::CAP_SYS_ADMIN,
        Privilege::NetworkAdmin => caps::Capability::CAP_NET_ADMIN,
    }).collect();
    caps::set(None, set, &value)
}

/// Relies on caps::clear: asks the kernel to empty one set of the calling
/// thread.
#[verifier::external_body]
fn clear_set(set: CapSetKind) -> (r: Result<(), caps::errors::CapsError>) {
    let set = match set {
        CapSetKind::Permitted => caps::CapSet::Permitted,
        CapSetKind::Effective => caps::CapSet::Effective,
        CapSetKind::Inheritable => caps::CapSet::Inheritable,
        CapSetKind::Ambient => caps::CapSet::Ambient,
    };
    caps::clear(None, set)
}

/// The error of the caps crate (`caps::errors::CapsError`), carried opaque:
/// only that a call failed is used.
#[verifier::external_type_specification]
#[verifier::external_body]
pub struct ExCapsError(caps::errors::CapsError);

/// Whether `caps` holds every required capability.
pub fn holds_required(caps: &Vec<u8>) -> (r: bool)
    ensures
        r == required().subset_of(caps@.to_set()),
{
    let mut sys = false;
    let mut net = false;
    for i in 0..caps.len()
        invariant
            sys == (exists|j: int| 0 <= j < i && caps@[j] == CAP_SYS_ADMIN),
            net == (exists|j: int| 0 <= j < i && caps@[j] == CAP_NET_ADMIN),
    {
        if caps[i] == CAP_SYS_ADMIN {
            sys = true;
        }
        if caps[i] == CAP_NET_ADMIN {
            net = true;
        }
    }
    proof {
        if sys && net {
            assert forall|c: u8| required().contains(c) implies caps@.to_set().contains(c) by {
                assert(caps@.contains(c));
            }
        }
        if !sys {
            assert(required().contains(CAP_SYS_ADMIN));
            assert(!caps@.to_set().contains(CAP_SYS_ADMIN));
        }
        if !net {
            assert(required().contains(CAP_NET_ADMIN));
            assert(!caps@.to_set().contains(CAP_NET_ADMIN));
        }
    }
    sys && net
}

/// Whether `caps` holds the required capabilities and nothing else.
pub fn holds_exactly_required(caps: &Vec<u8>) -> (r: bool)
    ensures
        r == (caps@.to_set() == required()),
{
    if !holds_required(caps) {
        return false;
    }
    for i in 0..caps.len()
        invariant
            required().subset_of(caps@.to_set()),
            forall|j: int| 0 <= j < i ==> required().contains(#[trigger] caps@[j]),
    {
        if caps[i] != CAP_SYS_ADMIN && caps[i] != CAP_NET_ADMIN {
            assert(caps@.to_set().contains(caps@[i as int]));
            assert(!required().contains(caps@[i as int]));
            return false;
        }
    }
    assert(caps@.to_set() =~= required());
    true
}

/// Success when the state is minimized; otherwise the mismatch of the first
/// set (in the order permitted, effective, inheritable, ambient) that is not
/// as it should be.
pub open spec fn minimized_outcome(state: &CapState) -> Result<(), PrivilegeError> {
    if state.permitted@.to_set() != required() {
        Err(PrivilegeError::Mismatch { set: CapSetKind::Permitted })
    } else if state.effective@.to_set() != required() {
        Err(PrivilegeError::Mismatch { set: CapSetKind::Effective })
    } else if state.inheritable@.len() != 0 {
        Err(PrivilegeError::Mismatch { set: CapSetKind::Inheritable })
    } else if state.ambient@.len() != 0 {
        Err(PrivilegeError::Mismatch { set: CapSetKind::Ambient })
    } else {
        Ok(())
    }
}

/// Success when all four sets are empty; otherwise the mismatch of the
/// first set (in the order permitted, effective, inheritable, ambient) that
/// is not.
pub open spec fn cleared_outcome(state: &CapState) -> Result<(), PrivilegeError> {
    if state.permitted@.len() != 0 {
        Err(PrivilegeError::Mismatch { set: CapSetKind::Permitted })
    } else if state.effective@.len() != 0 {
        Err(PrivilegeError::Mismatch { set: CapSetKind::Effective })
    } else if state.inheritable@.len() != 0 {
        Err(PrivilegeError::Mismatch { set: CapSetKind::Inheritable })
    } else if state.ambient@.len() != 0 {
        Err(PrivilegeError::Mismatch { set: CapSetKind::Ambient })
    } else {
        Ok(())
    }
}

/// Confirm that the sets read back are the minimized ones; the first set
/// (in the order permitted, effective, inheritable, ambient) that is not is
/// reported.
pub fn confirm_minimized(state: &CapState) -> (r: Result<(), PrivilegeError>)
    ensures
        r == minimized_outcome(state),
{
    if !holds_exactly_required(&state.permitted) {
        Err(PrivilegeError::Mismatch { set: CapSetKind::Permitted })
    } else if !holds_exactly_required(&state.effective) {
        Err(PrivilegeError::Mismatch { set: CapSetKind::Effective })
    } else if state.inheritable.len() != 0 {
        Err(PrivilegeError::Mismatch { set: CapSetKind::Inheritable })
    } else if state.ambient.len() != 0 {
        Err(PrivilegeError::Mismatch { set: CapSetKind::Ambient })
    } else {
        Ok(())
    }
}

/// Confirm that the sets read back are all empty; the first set (in the
/// order permitted, effective, inheritable, ambient) that is not is
/// reported.
pub fn confirm_cleared(state: &CapState) -> (r: Result<(), PrivilegeError>)
    ensures
        r == cleared_outcome(state),
{
    if state.permitted.len() != 0 {
        Err(PrivilegeError::Mismatch { set: CapSetKind::Permitted })
    } else if state.effective.len() != 0 {
        Err(PrivilegeError::Mismatch { set: CapSetKind::Effective })
    } else if state.inheritable.len() != 0 {
        Err(PrivilegeError::Mismatch { set: CapSetKind::Inheritable })
    } else if state.ambient.len() != 0 {
        Err(PrivilegeError::Mismatch { set: CapSetKind::Ambient })
    } else {
        Ok(())
    }
}

fn read(set: CapSetKind) -> (r: Result<Vec<u8>, PrivilegeError>)
    ensures
        r matches Err(e) ==> e == (PrivilegeError::Kernel { set }),
{
    match read_set(set) {
        Ok(v) => Ok(v),
        Err(_) => Err(PrivilegeError::Kernel { set }),
    }
}

fn read_all() -> (r: Result<CapState, PrivilegeError>)
    ensures
        r matches Err(e) ==> e is Kernel,
{
    let permitted = read(CapSetKind::Permitted)?;
    let effective = read(CapSetKind::Effective)?;
    let inheritable = read(CapSetKind::Inheritable)?;
    let ambient = read(CapSetKind::Ambient)?;
    Ok(CapState { permitted, effective, inheritable, ambient })
}

fn clear(set: CapSetKind) -> (r: Result<(), PrivilegeError>)
    ensures
        r matches Err(e) ==> e == (PrivilegeError::Kernel { set }),
{
    match clear_set(set) {
        Ok(()) => Ok(()),
        Err(_) => Err(PrivilegeError::Kernel { set }),
    }
}

/// The permitted set read at start-up, if it holds both required
/// privileges; otherwise `InsufficientPrivilege`.
pub fn check_permitted(permitted: Vec<u8>) -> (r: Result<Vec<u8>, PrivilegeError>)
    ensures
        r == (if required().subset_of(permitted@.to_set()) {
            Ok::<Vec<u8>, PrivilegeError>(permitted)
        } else {
            Err::<Vec<u8>, PrivilegeError>(PrivilegeError::InsufficientPrivilege)
        }),
{
    if holds_required(&permitted) {
        Ok(permitted)
    } else {
        Err(PrivilegeError::InsufficientPrivilege)
    }
}

/// Read the permitted set and check that it holds both required
/// privileges; the set that was read is returned.
pub fn check_required() -> (r: Result<Vec<u8>, PrivilegeError>)
    ensures
        r matches Ok(p) ==> required().subset_of(p@.to_set()),
        r matches Err(e) ==> (e == PrivilegeError::InsufficientPrivilege || e
            == (PrivilegeError::Kernel { set: CapSetKind::Permitted })),
{
    let permitted = read(CapSetKind::Permitted)?;
    check_permitted(permitted)
}

/// The privileges that the minimized permitted and effective sets hold.
pub fn required_privileges() -> (r: Vec<Privilege>)
    ensures
        r@ == seq![Privilege::NamespaceAdmin, Privilege::NetworkAdmin],
{
    let r = vec![Privilege::NamespaceAdmin, Privilege::NetworkAdmin];
    assert(r@ =~= seq![Privilege::NamespaceAdmin, Privilege::NetworkAdmin]);
    r
}

/// The changes that minimize the privileges, in the order they are made:
/// ambient and inheritable are emptied first (the kernel keeps ambient
/// within inheritable), then effective and permitted are set to the
/// required privileges (effective first, while permitted still covers it).
pub fn minimize_requests() -> (r: Vec<CapRequest>)
    ensures
        r@ == seq![
            CapRequest::Clear(CapSetKind::Ambient),
            CapRequest::Clear(CapSetKind::Inheritable),
            CapRequest::SetRequired(CapSetKind::Effective),
            CapRequest::SetRequired(CapSetKind::Permitted),
        ],
{
    let r = vec![
        CapRequest::Clear(CapSetKind::Ambient),
        CapRequest::Clear(CapSetKind::Inheritable),
        CapRequest::SetRequired(CapSetKind::Effective),
        CapRequest::SetRequired(CapSetKind::Permitted),
    ];
    assert(r@ =~= seq![
        CapRequest::Clear(CapSetKind::Ambient),
        CapRequest::Clear(CapSetKind::Inheritable),
        CapRequest::SetRequired(CapSetKind::Effective),
        CapRequest::SetRequired(CapSetKind::Permitted),
    ]);
    r
}

/// The changes that drop every privilege, in the order they are made.
pub fn drop_requests() -> (r: Vec<CapRequest>)
    ensures
        r@ == seq![
            CapRequest::Clear(CapSetKind::Ambient),
            CapRequest::Clear(CapSetKind::Inheritable),
            CapRequest::Clear(CapSetKind::Effective),
            CapRequest::Clear(CapSetKind::Permitted),
        ],
{
    let r = vec![
        CapRequest::Clear(CapSetKind::Ambient),
        CapRequest::Clear(CapSetKind::Inheritable),
        CapRequest::Clear(CapSetKind::Effective),
        CapRequest::Clear(CapSetKind::Permitted),
    ];
    assert(r@ =~= seq![
        CapRequest::Clear(CapSetKind::Ambient),
        CapRequest::Clear(CapSetKind::Inheritable),
        CapRequest::Clear(CapSetKind::Effective),
        CapRequest::Clear(CapSetKind::Permitted),
    ]);
    r
}

/// Hand one change to the kernel: `Clear` empties the set, `SetRequired`
/// makes it hold exactly `required_privileges()`.
fn apply(request: CapRequest) -> (r: Result<(), PrivilegeError>)
    ensures
        r matches Err(e) ==> e == (PrivilegeError::Kernel { set: request.set() }),
{
    match request {
        CapRequest::Clear(set) => clear(set),
        CapRequest::SetRequired(set) => {
            let wanted = required_privileges();
            match write_set(set, wanted.as_slice()) {
                Ok(()) => Ok(()),
                Err(_) => Err(PrivilegeError::Kernel { set }),
            }
        },
    }
}

/// Hand the changes to the kernel one by one, in order, stopping at the
/// first that the kernel refuses.
pub fn apply_requests(requests: &Vec<CapRequest>) -> (r: Result<(), PrivilegeError>)
    ensures
        r matches Err(e) ==> exists|i: int|
            0 <= i < requests@.len() && e == (PrivilegeError::Kernel { set: #[trigger] requests@[i].set() }),
{
    for i in 0..requests.len() {
        match apply(requests[i]) {
            Ok(()) => {},
            Err(e) => {
                assert(e == PrivilegeError::Kernel { set: requests@[i as int].set() });
                return Err(e);
            },
        }
    }
    Ok(())
}

/// Narrow the thread to the required privileges by handing the kernel
/// `minimize_requests()`: permitted and effective become exactly them,
/// inheritable and ambient become empty. The four sets are then read back;
/// success is returned only with a state read back in which that holds, and
/// any other outcome is an error that the caller must treat as fatal.
pub fn minimize() -> (r: Result<CapState, PrivilegeError>)
    ensures
        r matches Ok(s) ==> s.is_minimized(),
        r matches Err(e) ==> (e is Kernel || e is Mismatch),
{
    let requests = minimize_requests();
    apply_requests(&requests)?;
    let state = read_all()?;
    confirm_minimized(&state)?;
    Ok(state)
}

/// Drop every privilege by handing the kernel `drop_requests()`: all four
/// sets become empty, which the process cannot undo. The sets are then read
/// back; success is returned only with a state read back in which all four
/// are empty.
pub fn drop_all() -> (r: Result<CapState, PrivilegeError>)
    ensures
        r matches Ok(s) ==> s.is_cleared(),
        r matches Err(e) ==> (e is Kernel || e is Mismatch),
{
    let requests = drop_requests();
    apply_requests(&requests)?;
    let state = read_all()?;
    confirm_cleared(&state)?;
    Ok(state)
}

/// A permitted set without the network-administration privilege does not
/// hold what the sandbox needs, so the preflight check fails before any
/// namespace is made.
pub proof fn missing_network_admin_fails(permitted: Seq<u8>)
    requires
        !permitted.contains(CAP_NET_ADMIN),
    ensures
        !required().subset_of(permitted.to_set()),
{
    assert(required().contains(CAP_NET_ADMIN));
}

} // verus!
