use oniux::privilege::{
    check_permitted, confirm_cleared, confirm_minimized, drop_requests, holds_exactly_required,
    holds_required, minimize_requests, required_privileges, CapRequest, CapSetKind, CapState,
    Privilege, PrivilegeError, CAP_NET_ADMIN, CAP_SYS_ADMIN,
};

fn state(p: &[u8], e: &[u8], i: &[u8], a: &[u8]) -> CapState {
    CapState {
        permitted: p.to_vec(),
        effective: e.to_vec(),
        inheritable: i.to_vec(),
        ambient: a.to_vec(),
    }
}

#[test]
fn capability_indices() {
    assert_eq!(CAP_NET_ADMIN, 12);
    assert_eq!(CAP_SYS_ADMIN, 21);
}

#[test]
fn required_privileges_present() {
    assert!(holds_required(&vec![21, 12]));
    assert!(holds_required(&vec![0, 12, 5, 21, 38]));
}

#[test]
fn missing_network_admin_is_insufficient() {
    assert!(!holds_required(&vec![21]));
    assert!(!holds_required(&vec![21, 0, 1, 2]));
    assert!(!holds_required(&vec![12]));
    assert!(!holds_required(&vec![]));
}

#[test]
fn exactly_required() {
    assert!(holds_exactly_required(&vec![12, 21]));
    assert!(holds_exactly_required(&vec![21, 12, 21]));
    assert!(!holds_exactly_required(&vec![12, 21, 0]));
    assert!(!holds_exactly_required(&vec![12]));
}

#[test]
fn minimized_state_is_confirmed() {
    assert_eq!(confirm_minimized(&state(&[21, 12], &[12, 21], &[], &[])), Ok(()));
}

#[test]
fn partial_minimization_is_refused() {
    let extra = state(&[21, 12, 7], &[21, 12], &[], &[]);
    assert_eq!(
        confirm_minimized(&extra),
        Err(PrivilegeError::Mismatch { set: CapSetKind::Permitted })
    );
    let weak = state(&[21, 12], &[21], &[], &[]);
    assert_eq!(
        confirm_minimized(&weak),
        Err(PrivilegeError::Mismatch { set: CapSetKind::Effective })
    );
    let inherit = state(&[21, 12], &[21, 12], &[12], &[]);
    assert_eq!(
        confirm_minimized(&inherit),
        Err(PrivilegeError::Mismatch { set: CapSetKind::Inheritable })
    );
    let ambient = state(&[21, 12], &[21, 12], &[], &[21]);
    assert_eq!(
        confirm_minimized(&ambient),
        Err(PrivilegeError::Mismatch { set: CapSetKind::Ambient })
    );
}

#[test]
fn cleared_state_is_confirmed() {
    assert_eq!(confirm_cleared(&state(&[], &[], &[], &[])), Ok(()));
    assert_eq!(
        confirm_cleared(&state(&[], &[], &[], &[3])),
        Err(PrivilegeError::Mismatch { set: CapSetKind::Ambient })
    );
    assert_eq!(
        confirm_cleared(&state(&[12], &[], &[], &[])),
        Err(PrivilegeError::Mismatch { set: CapSetKind::Permitted })
    );
}

#[test]
fn permitted_set_check() {
    assert_eq!(check_permitted(vec![12, 21, 3]), Ok(vec![12, 21, 3]));
    assert_eq!(check_permitted(vec![21]), Err(PrivilegeError::InsufficientPrivilege));
    assert_eq!(check_permitted(vec![]), Err(PrivilegeError::InsufficientPrivilege));
}

#[test]
fn minimize_changes_in_order() {
    assert_eq!(
        minimize_requests(),
        vec![
            CapRequest::Clear(CapSetKind::Ambient),
            CapRequest::Clear(CapSetKind::Inheritable),
            CapRequest::SetRequired(CapSetKind::Effective),
            CapRequest::SetRequired(CapSetKind::Permitted),
        ]
    );
    assert_eq!(required_privileges(), vec![Privilege::NamespaceAdmin, Privilege::NetworkAdmin]);
}

#[test]
fn drop_changes_in_order() {
    assert_eq!(
        drop_requests(),
        vec![
            CapRequest::Clear(CapSetKind::Ambient),
            CapRequest::Clear(CapSetKind::Inheritable),
            CapRequest::Clear(CapSetKind::Effective),
            CapRequest::Clear(CapSetKind::Permitted),
        ]
    );
}
