use vstd::prelude::*;

use crate::state::{AuthError, AuthMsg, AuthState, Call, Next, Output, Reply};

verus! {

/// Where a login or logout sequence stands: which reply the manager waits for.
#[derive(Clone, Copy, Debug, PartialEq, Eq, Structural)]
pub enum Stage {
    /// No sequence is running.
    Ready,
    /// Login: waits for the tag identity.
    AwaitTagId,
    /// Login: waits for the subscription contract.
    AwaitContract,
    /// Login: waits for the protocol service's verdict.
    AwaitAuthorize,
    /// Login: waits for the transaction to start.
    AwaitStart,
    /// Login: waits for the metering subscription.
    AwaitSubscribe,
    /// Logout cleanup; the transaction to stop belongs to this session.
    AwaitUnsubscribe(i32),
    /// Logout cleanup: waits for the transaction to stop.
    AwaitStop,
    /// Logout cleanup: waits for the availability notice.
    AwaitAvailable,
}

/// Names of the three services the manager works with; the protocol
/// service may be absent.
#[derive(Clone, Debug, PartialEq)]
pub struct Services {
    pub scard_api: String,
    pub ocpp_api: Option<String>,
    pub engy_api: String,
}

/// The session manager of one charge point. It owns the authorization
/// record; a caller holds it exclusively for a whole login or logout
/// sequence, performs each request it asks for and hands back the reply.
pub struct ManagerHandle {
    data_set: AuthState,
    stage: Stage,
    services: Services,
}

impl ManagerHandle {
    /// The authorization record.
    pub closed spec fn state(self) -> AuthState {
        self.data_set
    }

    /// The sequence step the manager stands at.
    pub closed spec fn stage(self) -> Stage {
        self.stage
    }

    /// The configured service names.
    pub closed spec fn services(self) -> Services {
        self.services
    }

    /// Whether a charging-protocol service is configured.
    pub open spec fn protocol_configured(self) -> bool {
        self.services().ocpp_api is Some
    }

    /// The record invariants, and what each step of a sequence relies on.
    pub open spec fn wf(self) -> bool {
        let st = self.state();
        &&& st.wf()
        &&& match self.stage() {
            Stage::Ready => st.auth != AuthMsg::Pending,
            Stage::AwaitTagId => st.auth == AuthMsg::Pending,
            Stage::AwaitContract => st.auth == AuthMsg::Pending && st.tagid@.len() > 0,
            Stage::AwaitAuthorize => st.auth == AuthMsg::Pending && st.tagid@.len() > 0
                && st.ocpp_check && self.protocol_configured(),
            Stage::AwaitStart | Stage::AwaitSubscribe => st.auth == AuthMsg::Done
                && st.ocpp_check && self.protocol_configured(),
            Stage::AwaitUnsubscribe(_) | Stage::AwaitStop | Stage::AwaitAvailable => st.auth
                == AuthMsg::Idle && st.ocpp_check && self.protocol_configured(),
        }
    }

    /// A request to the protocol service is asked for only when the session
    /// needs protocol confirmation and such a service is configured.
    pub open spec fn protocol_guarded(self, out: Output) -> bool {
        match out.calls() {
            Some(c) => c.is_protocol() ==> self.state().ocpp_check && self.protocol_configured(),
            None => true,
        }
    }

    /// `post` and `out` end a sequence with error `e`.
    pub open spec fn ends_in_error(post: Self, out: Output, e: AuthError) -> bool {
        &&& post.stage() == Stage::Ready
        &&& out.fails_with(e)
    }

    /// `post` and `out` end a sequence successfully with a snapshot of the record.
    pub open spec fn ends_in_success(post: Self, out: Output) -> bool {
        &&& post.stage() == Stage::Ready
        &&& out.finishes_with(post.state())
    }

    /// A login step that failed: the record is marked failed and unbound.
    pub open spec fn rejected(pre: Self, post: Self, out: Output, e: AuthError) -> bool {
        &&& post.state().auth == AuthMsg::Fail
        &&& post.state().tagid@.len() == 0
        &&& post.state().imax == pre.state().imax
        &&& post.state().pmax == pre.state().pmax
        &&& post.state().ocpp_check == pre.state().ocpp_check
        &&& out.publish == Some(AuthMsg::Fail)
        &&& Self::ends_in_error(post, out, e)
    }

    /// The step taken on the reply to the identity request.
    pub open spec fn tagid_step(pre: Self, reply: Reply, post: Self, out: Output) -> bool {
        match reply.tag() {
            Some(t) => {
                &&& post.state().auth == AuthMsg::Pending
                &&& post.state().tagid@ == t
                &&& post.state().imax == crate::state::DEFAULT_IMAX
                &&& post.state().pmax == crate::state::DEFAULT_PMAX
                &&& post.state().ocpp_check
                &&& post.stage() == Stage::AwaitContract
                &&& out.publish is None
                &&& out.calls() == Some(Call::GetContract)
            },
            None => Self::rejected(pre, post, out, AuthError::InvalidCredential),
        }
    }

    /// The step taken on the reply to the contract request.
    pub open spec fn contract_step(pre: Self, reply: Reply, post: Self, out: Output) -> bool {
        match reply.contract() {
            Some(c) => {
                let confirm = c.spec_ocpp() && pre.protocol_configured();
                &&& post.state().tagid@ == pre.state().tagid@
                &&& post.state().imax == c.spec_imax()
                &&& post.state().pmax == c.spec_pmax()
                &&& post.state().ocpp_check == c.spec_ocpp()
                &&& if confirm {
                    &&& post.state().auth == AuthMsg::Pending
                    &&& post.stage() == Stage::AwaitAuthorize
                    &&& out.publish is None
                    &&& out.calls() matches Some(Call::Authorize(t)) && t@ == pre.state().tagid@
                } else {
                    &&& post.state().auth == AuthMsg::Done
                    &&& out.publish == Some(AuthMsg::Done)
                    &&& Self::ends_in_success(post, out)
                }
            },
            None => Self::rejected(pre, post, out, AuthError::InvalidContract),
        }
    }

    /// The step taken on the reply to the authorization request.
    pub open spec fn authorize_step(pre: Self, reply: Reply, post: Self, out: Output) -> bool {
        &&& post.state().tagid@ == pre.state().tagid@
        &&& post.state().imax == pre.state().imax
        &&& post.state().pmax == pre.state().pmax
        &&& post.state().ocpp_check == pre.state().ocpp_check
        &&& match reply.verdict() {
            Some(true) => {
                &&& post.state().auth == AuthMsg::Done
                &&& post.stage() == Stage::AwaitStart
                &&& out.publish is None
                &&& out.calls() matches Some(Call::StartTransaction(t)) && t@
                    == pre.state().tagid@
            },
            Some(false) => {
                &&& post.state().auth == AuthMsg::Fail
                &&& out.publish == Some(AuthMsg::Fail)
                &&& Self::ends_in_error(post, out, AuthError::ProtocolRejected)
            },
            None => {
                &&& post.state().auth == AuthMsg::Fail
                &&& out.publish == Some(AuthMsg::Fail)
                &&& Self::ends_in_error(post, out, AuthError::ProtocolUnreachable)
            },
        }
    }

    /// A step that leaves the record alone: on an acknowledgement the
    /// sequence goes on to `next`, or ends with `done` published when there
    /// is no next request; on anything else it ends with error `e`.
    pub open spec fn ack_step(
        pre: Self,
        reply: Reply,
        post: Self,
        out: Output,
        next: Option<(Call, Stage)>,
        done: Option<AuthMsg>,
        e: AuthError,
    ) -> bool {
        &&& post.state() == pre.state()
        &&& if reply is Ack {
            match next {
                Some((c, s)) => {
                    &&& post.stage() == s
                    &&& out.publish is None
                    &&& out.calls() == Some(c)
                },
                None => {
                    &&& out.publish == done
                    &&& Self::ends_in_success(post, out)
                },
            }
        } else {
            &&& out.publish is None
            &&& Self::ends_in_error(post, out, e)
        }
    }

    /// The first step of a login. An authorized session is kept as it is
    /// and its snapshot returned; otherwise the phase turns `Pending` and
    /// the tag identity is asked for.
    pub open spec fn login_start(pre: Self, post: Self, out: Output) -> bool {
        if pre.state().auth == AuthMsg::Done {
            &&& post.state() == pre.state()
            &&& out.publish == Some(AuthMsg::Done)
            &&& Self::ends_in_success(post, out)
        } else {
            &&& post.state().auth == AuthMsg::Pending
            &&& post.state().tagid == pre.state().tagid
            &&& post.state().imax == pre.state().imax
            &&& post.state().pmax == pre.state().pmax
            &&& post.state().ocpp_check == pre.state().ocpp_check
            &&& post.stage() == Stage::AwaitTagId
            &&& out.publish == Some(AuthMsg::Pending)
            &&& out.calls() == Some(Call::GetTagId)
        }
    }

    /// The first step of a logout of session `session`. Only an authorized
    /// or failed session can be logged out; it is reset to `Idle` before any
    /// cleanup request.
    pub open spec fn logout_start(pre: Self, session: i32, post: Self, out: Output) -> bool {
        if pre.state().auth != AuthMsg::Done && pre.state().auth != AuthMsg::Fail {
            &&& post.state() == pre.state()
            &&& out.publish is None
            &&& Self::ends_in_error(post, out, AuthError::NotActive)
        } else {
            &&& post.state().auth == AuthMsg::Idle
            &&& post.state().tagid@.len() == 0
            &&& post.state().imax == 0
            &&& post.state().pmax == 0
            &&& post.state().ocpp_check == pre.state().ocpp_check
            &&& out.publish == Some(AuthMsg::Idle)
            &&& if pre.state().ocpp_check && pre.protocol_configured() {
                &&& post.stage() == Stage::AwaitUnsubscribe(session)
                &&& out.calls() == Some(Call::Unsubscribe)
            } else {
                Self::ends_in_success(post, out)
            }
        }
    }

    /// The step taken on `reply` by a manager standing at `pre`.
    pub open spec fn step(pre: Self, reply: Reply, post: Self, out: Output) -> bool {
        match pre.stage() {
            Stage::Ready => false,
            Stage::AwaitTagId => Self::tagid_step(pre, reply, post, out),
            Stage::AwaitContract => Self::contract_step(pre, reply, post, out),
            Stage::AwaitAuthorize => Self::authorize_step(pre, reply, post, out),
            Stage::AwaitStart => Self::ack_step(
                pre,
                reply,
                post,
                out,
                Some((Call::Subscribe, Stage::AwaitSubscribe)),
                None,
                AuthError::PostAuthInfraFailure,
            ),
            Stage::AwaitSubscribe => Self::ack_step(
                pre,
                reply,
                post,
                out,
                None,
                Some(AuthMsg::Done),
                AuthError::PostAuthInfraFailure,
            ),
            Stage::AwaitUnsubscribe(session) => Self::ack_step(
                pre,
                reply,
                post,
                out,
                Some((Call::StopTransaction(session), Stage::AwaitStop)),
                None,
                AuthError::CleanupFailure,
            ),
            Stage::AwaitStop => Self::ack_step(
                pre,
                reply,
                post,
                out,
                Some((Call::SetAvailable, Stage::AwaitAvailable)),
                None,
                AuthError::CleanupFailure,
            ),
            Stage::AwaitAvailable => Self::ack_step(
                pre,
                reply,
                post,
                out,
                None,
                None,
                AuthError::CleanupFailure,
            ),
        }
    }

    /// A manager in the `Idle` phase with no sequence running.
    pub fn new(scard_api: String, ocpp_api: Option<String>, engy_api: String) -> (r: ManagerHandle)
        ensures
            r.wf(),
            r.stage() == Stage::Ready,
            r.state().auth == AuthMsg::Idle,
            r.state().tagid@.len() == 0,
            r.state().imax == 0,
            r.state().pmax == 0,
            !r.state().ocpp_check,
            r.services() == (Services { scard_api, ocpp_api, engy_api }),
    {
        ManagerHandle {
            data_set: AuthState::idle(),
            stage: Stage::Ready,
            services: Services { scard_api, ocpp_api, engy_api },
        }
    }

    /// Whether a login or logout sequence is waiting for a reply.
    pub fn in_sequence(&self) -> (r: bool)
        ensures
            r == (self.stage() != Stage::Ready),
    {
        self.stage != Stage::Ready
    }

    /// An independent snapshot of the authorization record.
    pub fn get_state(&self) -> (r: AuthState)
        ensures
            r.same(self.state()),
    {
        self.data_set.snapshot()
    }

    /// Whether a measurement update is to be forwarded to the protocol
    /// service: only when one is configured.
    pub fn update_engy_state(&self) -> (forward: bool)
        ensures
            forward == self.protocol_configured(),
    {
        self.services.ocpp_api.is_some()
    }

    /// The service that a request goes to; none for a protocol request when
    /// no protocol service is configured.
    pub fn target(&self, call: &Call) -> (r: Option<String>)
        ensures
            call.is_credential() ==> r == Some(self.services().scard_api),
            (call is Subscribe || call is Unsubscribe) ==> r == Some(self.services().engy_api),
            call.is_protocol() ==> r == self.services().ocpp_api,
    {
        match call {
            Call::GetTagId | Call::GetContract => Some(self.services.scard_api.clone()),
            Call::Subscribe | Call::Unsubscribe => Some(self.services.engy_api.clone()),
            _ => match &self.services.ocpp_api {
                Some(api) => Some(api.clone()),
                None => None,
            },
        }
    }

    /// Starts a login. An already authorized session is left as it is and
    /// its snapshot returned, without asking the credential validator again;
    /// otherwise the phase turns `Pending` and the tag identity is asked for.
    pub fn login(&mut self) -> (out: Output)
        requires
            old(self).wf(),
            old(self).stage() == Stage::Ready,
        ensures
            final(self).wf(),
            final(self).services() == old(self).services(),
            final(self).protocol_guarded(out),
            Self::login_start(*old(self), *final(self), out),
    {
        if self.data_set.auth == AuthMsg::Done {
            return Output { publish: Some(AuthMsg::Done), next: Next::Finish(Ok(self.get_state())) };
        }
        self.data_set.auth = AuthMsg::Pending;
        self.stage = Stage::AwaitTagId;
        Output { publish: Some(AuthMsg::Pending), next: Next::Call(Call::GetTagId) }
    }

    /// Starts a logout of the session `energy_session`. A session that is
    /// neither authorized nor failed is refused and left untouched.
    /// Otherwise the record is reset to `Idle` first; then, for a session
    /// under protocol confirmation with a protocol service configured, the
    /// metering subscription, the transaction and the availability notice
    /// are taken care of in turn.
    pub fn logout(&mut self, energy_session: i32) -> (out: Output)
        requires
            old(self).wf(),
            old(self).stage() == Stage::Ready,
        ensures
            final(self).wf(),
            final(self).services() == old(self).services(),
            final(self).protocol_guarded(out),
            Self::logout_start(*old(self), energy_session, *final(self), out),
    {
        if self.data_set.auth != AuthMsg::Done && self.data_set.auth != AuthMsg::Fail {
            return Output { publish: None, next: Next::Finish(Err(AuthError::NotActive)) };
        }
        self.data_set.tagid = String::new();
        self.data_set.auth = AuthMsg::Idle;
        self.data_set.imax = 0;
        self.data_set.pmax = 0;
        if self.data_set.ocpp_check && self.services.ocpp_api.is_some() {
            self.stage = Stage::AwaitUnsubscribe(energy_session);
            Output { publish: Some(AuthMsg::Idle), next: Next::Call(Call::Unsubscribe) }
        } else {
            Output { publish: Some(AuthMsg::Idle), next: Next::Finish(Ok(self.get_state())) }
        }
    }

    /// Ends the current login step as failed: the record is marked failed
    /// and unbound, and the failure published.
    fn reject(&mut self, e: AuthError) -> (out: Output)
        requires
            old(self).state().auth == AuthMsg::Pending,
        ensures
            final(self).wf(),
            final(self).services() == old(self).services(),
            Self::rejected(*old(self), *final(self), out, e),
            out.calls() is None,
    {
        self.data_set.tagid = String::new();
        self.data_set.auth = AuthMsg::Fail;
        self.stage = Stage::Ready;
        Output { publish: Some(AuthMsg::Fail), next: Next::Finish(Err(e)) }
    }

    /// Ends the current sequence with error `e`, publishing nothing.
    fn abort(&mut self, e: AuthError) -> (out: Output)
        requires
            old(self).wf(),
            old(self).state().auth != AuthMsg::Pending,
        ensures
            final(self).wf(),
            final(self).services() == old(self).services(),
            final(self).state() == old(self).state(),
            out.publish is None,
            Self::ends_in_error(*final(self), out, e),
    {
        self.stage = Stage::Ready;
        Output { publish: None, next: Next::Finish(Err(e)) }
    }

    /// Takes the reply to the identity request.
    fn on_tagid(&mut self, reply: Reply) -> (out: Output)
        requires
            old(self).wf(),
            old(self).stage() == Stage::AwaitTagId,
        ensures
            final(self).wf(),
            final(self).services() == old(self).services(),
            final(self).protocol_guarded(out),
            Self::tagid_step(*old(self), reply, *final(self), out),
    {
        match reply {
            Reply::TagId(tag) => {
                if tag.as_str().is_empty() {
                    self.reject(AuthError::InvalidCredential)
                } else {
                    self.data_set.tagid = tag;
                    self.data_set.imax = crate::state::DEFAULT_IMAX;
                    self.data_set.pmax = crate::state::DEFAULT_PMAX;
                    self.data_set.ocpp_check = true;
                    self.stage = Stage::AwaitContract;
                    Output { publish: None, next: Next::Call(Call::GetContract) }
                }
            },
            _ => self.reject(AuthError::InvalidCredential),
        }
    }

    /// Takes the reply to the contract request.
    fn on_contract(&mut self, reply: Reply) -> (out: Output)
        requires
            old(self).wf(),
            old(self).stage() == Stage::AwaitContract,
        ensures
            final(self).wf(),
            final(self).services() == old(self).services(),
            final(self).protocol_guarded(out),
            Self::contract_step(*old(self), reply, *final(self), out),
    {
        match reply {
            Reply::Contract(contract) => {
                self.data_set.imax = contract.max_current();
                self.data_set.pmax = contract.max_power();
                self.data_set.ocpp_check = contract.protocol_check();
                if self.data_set.ocpp_check && self.services.ocpp_api.is_some() {
                    self.stage = Stage::AwaitAuthorize;
                    Output {
                        publish: None,
                        next: Next::Call(Call::Authorize(self.data_set.tagid.clone())),
                    }
                } else {
                    self.data_set.auth = AuthMsg::Done;
                    self.stage = Stage::Ready;
                    Output { publish: Some(AuthMsg::Done), next: Next::Finish(Ok(self.get_state())) }
                }
            },
            _ => self.reject(AuthError::InvalidContract),
        }
    }

    /// Takes the reply to the authorization request.
    fn on_authorize(&mut self, reply: Reply) -> (out: Output)
        requires
            old(self).wf(),
            old(self).stage() == Stage::AwaitAuthorize,
        ensures
            final(self).wf(),
            final(self).services() == old(self).services(),
            final(self).protocol_guarded(out),
            Self::authorize_step(*old(self), reply, *final(self), out),
    {
        match reply {
            Reply::Authorized(true) => {
                self.data_set.auth = AuthMsg::Done;
                self.stage = Stage::AwaitStart;
                Output {
                    publish: None,
                    next: Next::Call(Call::StartTransaction(self.data_set.tagid.clone())),
                }
            },
            Reply::Authorized(false) => {
                self.data_set.auth = AuthMsg::Fail;
                self.stage = Stage::Ready;
                Output { publish: Some(AuthMsg::Fail), next: Next::Finish(Err(AuthError::ProtocolRejected)) }
            },
            _ => {
                self.data_set.auth = AuthMsg::Fail;
                self.stage = Stage::Ready;
                Output {
                    publish: Some(AuthMsg::Fail),
                    next: Next::Finish(Err(AuthError::ProtocolUnreachable)),
                }
            },
        }
    }

    /// Takes the reply to the request the manager waits for, and decides
    /// what comes next.
    pub fn resume(&mut self, reply: Reply) -> (out: Output)
        requires
            old(self).wf(),
            old(self).stage() != Stage::Ready,
        ensures
            final(self).wf(),
            final(self).services() == old(self).services(),
            final(self).protocol_guarded(out),
            Self::step(*old(self), reply, *final(self), out),
    {
        let acked = match reply {
            Reply::Ack => true,
            _ => false,
        };
        match self.stage {
            Stage::Ready => self.abort(AuthError::NotActive),
            Stage::AwaitTagId => self.on_tagid(reply),
            Stage::AwaitContract => self.on_contract(reply),
            Stage::AwaitAuthorize => self.on_authorize(reply),
            Stage::AwaitStart => if acked {
                self.stage = Stage::AwaitSubscribe;
                Output { publish: None, next: Next::Call(Call::Subscribe) }
            } else {
                self.abort(AuthError::PostAuthInfraFailure)
            },
            Stage::AwaitSubscribe => if acked {
                self.stage = Stage::Ready;
                Output { publish: Some(AuthMsg::Done), next: Next::Finish(Ok(self.get_state())) }
            } else {
                self.abort(AuthError::PostAuthInfraFailure)
            },
            Stage::AwaitUnsubscribe(session) => if acked {
                self.stage = Stage::AwaitStop;
                Output { publish: None, next: Next::Call(Call::StopTransaction(session)) }
            } else {
                self.abort(AuthError::CleanupFailure)
            },
            Stage::AwaitStop => if acked {
                self.stage = Stage::AwaitAvailable;
                Output { publish: None, next: Next::Call(Call::SetAvailable) }
            } else {
                self.abort(AuthError::CleanupFailure)
            },
            Stage::AwaitAvailable => if acked {
                self.stage = Stage::Ready;
                Output { publish: None, next: Next::Finish(Ok(self.get_state())) }
            } else {
                self.abort(AuthError::CleanupFailure)
            },
        }
    }
}

} // verus!
