use auth_lib::manager::ManagerHandle;
use auth_lib::state::{AuthError, AuthMsg, AuthState, Call, Contract, Next, Output, Reply};

fn manager(with_protocol: bool) -> ManagerHandle {
    let ocpp = if with_protocol { Some("ocpp".to_string()) } else { None };
    ManagerHandle::new("scard".to_string(), ocpp, "engy".to_string())
}

fn expect_call(out: &Output) -> Call {
    match &out.next {
        Next::Call(c) => c.clone(),
        other => panic!("expected a request, got {:?}", other),
    }
}

fn expect_ok(out: Output) -> AuthState {
    match out.next {
        Next::Finish(Ok(s)) => s,
        other => panic!("expected success, got {:?}", other),
    }
}

fn expect_err(out: Output) -> AuthError {
    match out.next {
        Next::Finish(Err(e)) => e,
        other => panic!("expected an error, got {:?}", other),
    }
}

fn contract(imax: Option<u32>, pmax: Option<u32>, ocpp: Option<bool>) -> Contract {
    Contract { imax, pmax, ocpp }
}

/// Logs in on a protocol-confirmed contract and runs through every request.
fn logged_in_with_protocol(m: &mut ManagerHandle, tag: &str) {
    m.login();
    m.resume(Reply::TagId(tag.to_string()));
    m.resume(Reply::Contract(contract(None, None, Some(true))));
    m.resume(Reply::Authorized(true));
    m.resume(Reply::Ack);
    let out = m.resume(Reply::Ack);
    assert_eq!(expect_ok(out).auth, AuthMsg::Done);
}

#[test]
fn scenario_unchecked_contract() {
    let mut m = manager(true);
    let out = m.login();
    assert_eq!(out.publish, Some(AuthMsg::Pending));
    assert_eq!(expect_call(&out), Call::GetTagId);
    let out = m.resume(Reply::TagId("ABC123".to_string()));
    assert_eq!(out.publish, None);
    assert_eq!(expect_call(&out), Call::GetContract);
    let out = m.resume(Reply::Contract(contract(Some(20), Some(11), Some(false))));
    assert_eq!(out.publish, Some(AuthMsg::Done));
    let st = expect_ok(out);
    assert_eq!(st.auth, AuthMsg::Done);
    assert_eq!(st.tagid, "ABC123");
    assert_eq!(st.imax, 20);
    assert_eq!(st.pmax, 11);
    assert!(!st.ocpp_check);
    assert_eq!(m.get_state(), st);
}

#[test]
fn scenario_protocol_confirmed() {
    let mut m = manager(true);
    m.login();
    m.resume(Reply::TagId("XYZ".to_string()));
    let out = m.resume(Reply::Contract(contract(None, None, Some(true))));
    assert_eq!(expect_call(&out), Call::Authorize("XYZ".to_string()));
    assert_eq!(m.target(&expect_call(&out)), Some("ocpp".to_string()));
    let out = m.resume(Reply::Authorized(true));
    assert_eq!(out.publish, None);
    assert_eq!(expect_call(&out), Call::StartTransaction("XYZ".to_string()));
    assert_eq!(m.get_state().auth, AuthMsg::Done);
    let out = m.resume(Reply::Ack);
    assert_eq!(expect_call(&out), Call::Subscribe);
    assert_eq!(m.target(&Call::Subscribe), Some("engy".to_string()));
    let out = m.resume(Reply::Ack);
    assert_eq!(out.publish, Some(AuthMsg::Done));
    let st = expect_ok(out);
    assert_eq!(st.auth, AuthMsg::Done);
    assert_eq!(st.tagid, "XYZ");
    assert_eq!(st.imax, 32);
    assert_eq!(st.pmax, 22);
    assert!(st.ocpp_check);
}

#[test]
fn scenario_identity_failure() {
    let mut m = manager(true);
    m.login();
    let out = m.resume(Reply::Failed);
    assert_eq!(out.publish, Some(AuthMsg::Fail));
    assert_eq!(expect_err(out), AuthError::InvalidCredential);
    let st = m.get_state();
    assert_eq!(st.auth, AuthMsg::Fail);
    assert_eq!(st.tagid, "");
}

#[test]
fn empty_identity_is_an_invalid_credential() {
    let mut m = manager(false);
    m.login();
    let out = m.resume(Reply::TagId(String::new()));
    assert_eq!(expect_err(out), AuthError::InvalidCredential);
    assert_eq!(m.get_state().auth, AuthMsg::Fail);
}

#[test]
fn login_when_authorized_is_idempotent() {
    let mut m = manager(false);
    m.login();
    m.resume(Reply::TagId("ABC123".to_string()));
    let first = expect_ok(m.resume(Reply::Contract(contract(Some(16), None, None))));
    let out = m.login();
    assert_eq!(out.publish, Some(AuthMsg::Done));
    let again = expect_ok(out);
    assert_eq!(again, first);
    assert_eq!(m.get_state(), first);
}

#[test]
fn contract_failure_unbinds_the_credential() {
    let mut m = manager(true);
    m.login();
    m.resume(Reply::TagId("ABC123".to_string()));
    let out = m.resume(Reply::Failed);
    assert_eq!(out.publish, Some(AuthMsg::Fail));
    assert_eq!(expect_err(out), AuthError::InvalidContract);
    let st = m.get_state();
    assert_eq!(st.auth, AuthMsg::Fail);
    assert_eq!(st.tagid, "");
}

#[test]
fn contract_defaults_without_protocol_service() {
    let mut m = manager(false);
    m.login();
    m.resume(Reply::TagId("T1".to_string()));
    let out = m.resume(Reply::Contract(contract(None, None, None)));
    let st = expect_ok(out);
    assert_eq!(st.auth, AuthMsg::Done);
    assert_eq!(st.imax, 32);
    assert_eq!(st.pmax, 22);
    assert!(st.ocpp_check);
}

#[test]
fn negative_authorization_starts_no_transaction() {
    let mut m = manager(true);
    m.login();
    m.resume(Reply::TagId("XYZ".to_string()));
    m.resume(Reply::Contract(contract(None, None, None)));
    let out = m.resume(Reply::Authorized(false));
    assert_eq!(out.publish, Some(AuthMsg::Fail));
    assert_eq!(expect_err(out), AuthError::ProtocolRejected);
    assert_eq!(m.get_state().auth, AuthMsg::Fail);
}

#[test]
fn unreachable_protocol_service_fails_login() {
    let mut m = manager(true);
    m.login();
    m.resume(Reply::TagId("XYZ".to_string()));
    m.resume(Reply::Contract(contract(None, None, None)));
    let out = m.resume(Reply::Failed);
    assert_eq!(out.publish, Some(AuthMsg::Fail));
    assert_eq!(expect_err(out), AuthError::ProtocolUnreachable);
    assert_eq!(m.get_state().auth, AuthMsg::Fail);
}

#[test]
fn transaction_start_failure_keeps_authorization() {
    let mut m = manager(true);
    m.login();
    m.resume(Reply::TagId("XYZ".to_string()));
    m.resume(Reply::Contract(contract(None, None, None)));
    m.resume(Reply::Authorized(true));
    let out = m.resume(Reply::Failed);
    assert_eq!(out.publish, None);
    assert_eq!(expect_err(out), AuthError::PostAuthInfraFailure);
    assert_eq!(m.get_state().auth, AuthMsg::Done);
}

#[test]
fn subscribe_failure_keeps_authorization() {
    let mut m = manager(true);
    m.login();
    m.resume(Reply::TagId("XYZ".to_string()));
    m.resume(Reply::Contract(contract(None, None, None)));
    m.resume(Reply::Authorized(true));
    m.resume(Reply::Ack);
    let out = m.resume(Reply::Failed);
    assert_eq!(expect_err(out), AuthError::PostAuthInfraFailure);
    assert_eq!(m.get_state().auth, AuthMsg::Done);
}

#[test]
fn logout_when_idle_is_refused() {
    let mut m = manager(true);
    let before = m.get_state();
    let out = m.logout(7);
    assert_eq!(out.publish, None);
    assert_eq!(expect_err(out), AuthError::NotActive);
    assert_eq!(m.get_state(), before);
}

#[test]
fn logout_stop_failure_after_reset() {
    let mut m = manager(true);
    logged_in_with_protocol(&mut m, "XYZ");
    let out = m.logout(42);
    assert_eq!(out.publish, Some(AuthMsg::Idle));
    assert_eq!(expect_call(&out), Call::Unsubscribe);
    let out = m.resume(Reply::Ack);
    assert_eq!(expect_call(&out), Call::StopTransaction(42));
    let out = m.resume(Reply::Failed);
    assert_eq!(expect_err(out), AuthError::CleanupFailure);
    let st = m.get_state();
    assert_eq!(st.auth, AuthMsg::Idle);
    assert_eq!(st.tagid, "");
    assert_eq!(st.imax, 0);
    assert_eq!(st.pmax, 0);
}

#[test]
fn logout_with_protocol_cleanup() {
    let mut m = manager(true);
    logged_in_with_protocol(&mut m, "XYZ");
    m.logout(3);
    m.resume(Reply::Ack);
    let out = m.resume(Reply::Ack);
    assert_eq!(expect_call(&out), Call::SetAvailable);
    let out = m.resume(Reply::Ack);
    assert_eq!(out.publish, None);
    let st = expect_ok(out);
    assert_eq!(st.auth, AuthMsg::Idle);
    assert_eq!(st.tagid, "");
}

#[test]
fn logout_unsubscribe_failure() {
    let mut m = manager(true);
    logged_in_with_protocol(&mut m, "XYZ");
    m.logout(3);
    let out = m.resume(Reply::Failed);
    assert_eq!(expect_err(out), AuthError::CleanupFailure);
    assert_eq!(m.get_state().auth, AuthMsg::Idle);
}

#[test]
fn logout_availability_failure() {
    let mut m = manager(true);
    logged_in_with_protocol(&mut m, "XYZ");
    m.logout(3);
    m.resume(Reply::Ack);
    m.resume(Reply::Ack);
    let out = m.resume(Reply::Failed);
    assert_eq!(expect_err(out), AuthError::CleanupFailure);
    assert_eq!(m.get_state().auth, AuthMsg::Idle);
}

#[test]
fn logout_without_protocol_finishes_at_once() {
    let mut m = manager(false);
    m.login();
    m.resume(Reply::TagId("ABC".to_string()));
    m.resume(Reply::Contract(contract(Some(10), Some(7), None)));
    let out = m.logout(1);
    assert_eq!(out.publish, Some(AuthMsg::Idle));
    let st = expect_ok(out);
    assert_eq!(st.auth, AuthMsg::Idle);
    assert_eq!(st.tagid, "");
    assert_eq!(st.imax, 0);
    assert_eq!(st.pmax, 0);
}

#[test]
fn logout_after_failure() {
    let mut m = manager(true);
    m.login();
    m.resume(Reply::Failed);
    let out = m.logout(1);
    let st = expect_ok(out);
    assert_eq!(st.auth, AuthMsg::Idle);
}

#[test]
fn measurements_forwarded_only_with_protocol_service() {
    assert!(manager(true).update_engy_state());
    assert!(!manager(false).update_engy_state());
}

#[test]
fn requests_are_routed_to_their_service() {
    let m = manager(false);
    assert_eq!(m.target(&Call::GetTagId), Some("scard".to_string()));
    assert_eq!(m.target(&Call::GetContract), Some("scard".to_string()));
    assert_eq!(m.target(&Call::Unsubscribe), Some("engy".to_string()));
    assert_eq!(m.target(&Call::SetAvailable), None);
}

#[test]
fn contract_fields_fall_back_to_defaults() {
    let c = contract(Some(16), None, Some(false));
    assert_eq!(c.max_current(), 16);
    assert_eq!(c.max_power(), 22);
    assert!(!c.protocol_check());
    let d = contract(None, Some(7), None);
    assert_eq!(d.max_current(), 32);
    assert_eq!(d.max_power(), 7);
    assert!(d.protocol_check());
}

#[test]
fn new_manager_is_idle() {
    let st = manager(true).get_state();
    assert_eq!(st.auth, AuthMsg::Idle);
    assert_eq!(st.tagid, "");
    assert_eq!(st.imax, 0);
    assert_eq!(st.pmax, 0);
}

#[test]
fn measurement_goes_to_protocol_service() {
    assert_eq!(manager(true).target(&Call::PushMeasure), Some("ocpp".to_string()));
    assert_eq!(manager(false).target(&Call::PushMeasure), None);
}
