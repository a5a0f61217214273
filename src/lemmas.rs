//! Laws of the login and logout sequences, stated over the step relations
//! that the manager's operations satisfy.
use vstd::prelude::*;

use crate::manager::{ManagerHandle, Stage};
use crate::state::{AuthError, AuthMsg, Call, Output, Reply};

verus! {

/// Logging in on an authorized session asks nothing of the credential
/// validator, leaves the record unchanged and returns a snapshot of it.
pub proof fn lemma_login_when_authorized_is_idempotent(
    pre: ManagerHandle,
    post: ManagerHandle,
    out: Output,
)
    requires
        pre.wf(),
        pre.stage() == Stage::Ready,
        pre.state().auth == AuthMsg::Done,
        ManagerHandle::login_start(pre, post, out),
    ensures
        out.calls() is None,
        post.state() == pre.state(),
        post.stage() == Stage::Ready,
        out.finishes_with(pre.state()),
{
}

/// Whatever the failure of the identity request, the login ends failed
/// with no credential bound.
pub proof fn lemma_identity_failure_unbinds(
    pre: ManagerHandle,
    reply: Reply,
    post: ManagerHandle,
    out: Output,
)
    requires
        pre.stage() == Stage::AwaitTagId,
        reply.tag() is None,
        ManagerHandle::step(pre, reply, post, out),
    ensures
        post.state().auth == AuthMsg::Fail,
        post.state().tagid@.len() == 0,
        out.fails_with(AuthError::InvalidCredential),
{
}

/// Whatever the failure of the contract request, the login ends failed
/// with no credential bound, though the identity had been resolved.
pub proof fn lemma_contract_failure_unbinds(
    pre: ManagerHandle,
    reply: Reply,
    post: ManagerHandle,
    out: Output,
)
    requires
        pre.stage() == Stage::AwaitContract,
        reply.contract() is None,
        ManagerHandle::step(pre, reply, post, out),
    ensures
        post.state().auth == AuthMsg::Fail,
        post.state().tagid@.len() == 0,
        out.fails_with(AuthError::InvalidContract),
{
}

/// No step asks for a request to the protocol service when the session
/// needs no protocol confirmation, whether or not such a service is
/// configured.
pub proof fn lemma_unconfirmed_session_skips_protocol(
    pre: ManagerHandle,
    reply: Reply,
    post: ManagerHandle,
    out: Output,
)
    requires
        pre.wf(),
        ManagerHandle::step(pre, reply, post, out),
        !post.state().ocpp_check,
    ensures
        out.calls() matches Some(c) ==> !c.is_protocol(),
{
}

/// A negative authorization verdict ends the login failed, and no
/// transaction is started.
pub proof fn lemma_rejected_authorization_starts_nothing(
    pre: ManagerHandle,
    post: ManagerHandle,
    out: Output,
)
    requires
        pre.stage() == Stage::AwaitAuthorize,
        ManagerHandle::step(pre, Reply::Authorized(false), post, out),
    ensures
        post.state().auth == AuthMsg::Fail,
        post.stage() == Stage::Ready,
        out.calls() is None,
        out.fails_with(AuthError::ProtocolRejected),
{
}

/// Logging out of an idle session is refused: nothing changes and no
/// request is made.
pub proof fn lemma_logout_when_idle_is_refused(
    pre: ManagerHandle,
    session: i32,
    post: ManagerHandle,
    out: Output,
)
    requires
        pre.state().auth == AuthMsg::Idle,
        ManagerHandle::logout_start(pre, session, post, out),
    ensures
        post.state() == pre.state(),
        out.publish is None,
        out.calls() is None,
        out.fails_with(AuthError::NotActive),
{
}

/// When a confirmed session logs out, the metering unsubscription succeeds
/// and stopping the transaction fails, the record is already `Idle` and the
/// caller gets a cleanup failure.
pub proof fn lemma_logout_stop_failure_after_reset(
    pre: ManagerHandle,
    session: i32,
    mid1: ManagerHandle,
    out1: Output,
    mid2: ManagerHandle,
    out2: Output,
    reply3: Reply,
    post: ManagerHandle,
    out3: Output,
)
    requires
        pre.wf(),
        pre.stage() == Stage::Ready,
        pre.state().auth == AuthMsg::Done,
        pre.state().ocpp_check,
        pre.protocol_configured(),
        ManagerHandle::logout_start(pre, session, mid1, out1),
        ManagerHandle::step(mid1, Reply::Ack, mid2, out2),
        !(reply3 is Ack),
        ManagerHandle::step(mid2, reply3, post, out3),
    ensures
        out1.calls() == Some(Call::Unsubscribe),
        out2.calls() == Some(Call::StopTransaction(session)),
        post.state().auth == AuthMsg::Idle,
        post.state().tagid@.len() == 0,
        out3.fails_with(AuthError::CleanupFailure),
{
}

} // verus!
