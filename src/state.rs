use vstd::prelude::*;

verus! {

/// Default maximum current, used until a contract says otherwise.
pub const DEFAULT_IMAX: u32 = 32;

/// Default maximum power, used until a contract says otherwise.
pub const DEFAULT_PMAX: u32 = 22;

/// Authorization phase of a charging session.
#[derive(Clone, Copy, Debug, PartialEq, Eq, Structural)]
pub enum AuthMsg {
    Idle,
    Pending,
    Done,
    Fail,
}

/// The authorization record of one charge point.
#[derive(Clone, Debug, PartialEq)]
pub struct AuthState {
    /// Current authorization phase.
    pub auth: AuthMsg,
    /// Resolved credential identity; empty when no credential is bound.
    pub tagid: String,
    /// Negotiated maximum current; zero when unset.
    pub imax: u32,
    /// Negotiated maximum power; zero when unset.
    pub pmax: u32,
    /// Whether the session is confirmed and tracked by the charging protocol.
    pub ocpp_check: bool,
}

impl AuthState {
    /// Field-wise equality of two records.
    pub open spec fn same(self, o: AuthState) -> bool {
        &&& self.auth == o.auth
        &&& self.tagid@ == o.tagid@
        &&& self.imax == o.imax
        &&& self.pmax == o.pmax
        &&& self.ocpp_check == o.ocpp_check
    }

    /// The record invariants: an idle record is blank, an authorized one
    /// is bound to a credential.
    pub open spec fn wf(self) -> bool {
        &&& self.auth == AuthMsg::Idle ==> self.tagid@.len() == 0 && self.imax == 0
            && self.pmax == 0
        &&& self.auth == AuthMsg::Done ==> self.tagid@.len() > 0
    }

    /// A blank record in the `Idle` phase.
    pub fn idle() -> (r: AuthState)
        ensures
            r.auth == AuthMsg::Idle,
            r.tagid@.len() == 0,
            r.imax == 0,
            r.pmax == 0,
            !r.ocpp_check,
            r.wf(),
    {
        AuthState { auth: AuthMsg::Idle, tagid: String::new(), imax: 0, pmax: 0, ocpp_check: false }
    }

    /// An independent copy of the record.
    pub fn snapshot(&self) -> (r: AuthState)
        ensures
            r.same(*self),
    {
        AuthState {
            auth: self.auth,
            tagid: self.tagid.clone(),
            imax: self.imax,
            pmax: self.pmax,
            ocpp_check: self.ocpp_check,
        }
    }
}

/// A subscription contract as delivered by the credential validator; each
/// field is absent when the payload does not carry it.
#[derive(Clone, Copy, Debug, PartialEq, Eq, Structural)]
pub struct Contract {
    pub imax: Option<u32>,
    pub pmax: Option<u32>,
    pub ocpp: Option<bool>,
}

impl Contract {
    pub open spec fn spec_imax(self) -> u32 {
        match self.imax {
            Some(v) => v,
            None => DEFAULT_IMAX,
        }
    }

    pub open spec fn spec_pmax(self) -> u32 {
        match self.pmax {
            Some(v) => v,
            None => DEFAULT_PMAX,
        }
    }

    pub open spec fn spec_ocpp(self) -> bool {
        match self.ocpp {
            Some(v) => v,
            None => true,
        }
    }

    /// Maximum current of the contract, the default when absent.
    pub fn max_current(&self) -> (r: u32)
        ensures
            r == self.spec_imax(),
    {
        match self.imax {
            Some(v) => v,
            None => DEFAULT_IMAX,
        }
    }

    /// Maximum power of the contract, the default when absent.
    pub fn max_power(&self) -> (r: u32)
        ensures
            r == self.spec_pmax(),
    {
        match self.pmax {
            Some(v) => v,
            None => DEFAULT_PMAX,
        }
    }

    /// Whether the contract asks for protocol confirmation; yes when absent.
    pub fn protocol_check(&self) -> (r: bool)
        ensures
            r == self.spec_ocpp(),
    {
        match self.ocpp {
            Some(v) => v,
            None => true,
        }
    }
}

/// Why a login, a logout or a forwarded measurement failed.
#[derive(Clone, Copy, Debug, PartialEq, Eq, Structural)]
pub enum AuthError {
    /// The credential validator could not resolve an identity.
    InvalidCredential,
    /// The credential validator found no valid subscription contract.
    InvalidContract,
    /// The protocol service could not be reached to authorize.
    ProtocolUnreachable,
    /// The protocol service refused the credential.
    ProtocolRejected,
    /// Starting the transaction or the metering subscription failed after
    /// authorization succeeded.
    PostAuthInfraFailure,
    /// Logout was asked of a session that is neither authorized nor failed.
    NotActive,
    /// One of the downstream cleanup calls of a logout failed.
    CleanupFailure,
}

/// An outbound request that the manager asks its caller to perform.
#[derive(Clone, Debug, PartialEq)]
pub enum Call {
    /// Credential validator: resolve the presented tag identity.
    GetTagId,
    /// Credential validator: fetch the subscription contract.
    GetContract,
    /// Protocol service: authorize the tag.
    Authorize(String),
    /// Protocol service: start a transaction for the tag.
    StartTransaction(String),
    /// Metering service: subscribe to measurements.
    Subscribe,
    /// Metering service: unsubscribe from measurements.
    Unsubscribe,
    /// Protocol service: stop the transaction of the given session.
    StopTransaction(i32),
    /// Protocol service: announce that the charge point is available.
    SetAvailable,
    /// Protocol service: forward a measurement update.
    PushMeasure,
}

impl Call {
    /// Whether the request goes to the charging-protocol service.
    pub open spec fn is_protocol(self) -> bool {
        ||| self is Authorize
        ||| self is StartTransaction
        ||| self is StopTransaction
        ||| self is SetAvailable
        ||| self is PushMeasure
    }

    /// Whether the request goes to the credential validator.
    pub open spec fn is_credential(self) -> bool {
        self is GetTagId || self is GetContract
    }
}

/// The reply to a performed request.
#[derive(Clone, Debug, PartialEq)]
pub enum Reply {
    /// The request failed, whatever the reason.
    Failed,
    /// A resolved tag identity.
    TagId(String),
    /// A subscription contract.
    Contract(Contract),
    /// An authorization verdict.
    Authorized(bool),
    /// A plain acknowledgement.
    Ack,
}

impl Reply {
    /// The identity carried by a successful identity reply; an empty one
    /// resolves no credential.
    pub open spec fn tag(self) -> Option<Seq<char>> {
        match self {
            Reply::TagId(t) => if t@.len() > 0 {
                Some(t@)
            } else {
                None
            },
            _ => None,
        }
    }

    /// The contract carried by a successful contract reply.
    pub open spec fn contract(self) -> Option<Contract> {
        match self {
            Reply::Contract(c) => Some(c),
            _ => None,
        }
    }

    /// The verdict carried by a successful authorization reply.
    pub open spec fn verdict(self) -> Option<bool> {
        match self {
            Reply::Authorized(b) => Some(b),
            _ => None,
        }
    }
}

/// What to do once a step has been decided.
#[derive(Debug, PartialEq)]
pub enum Next {
    /// Perform this request and hand its reply back.
    Call(Call),
    /// The sequence is over, with this result.
    Finish(Result<AuthState, AuthError>),
}

/// The outcome of one step: a phase to publish first, if any, then what
/// comes next.
#[derive(Debug, PartialEq)]
pub struct Output {
    pub publish: Option<AuthMsg>,
    pub next: Next,
}

impl Output {
    /// The request the step asks for, if any.
    pub open spec fn calls(self) -> Option<Call> {
        match self.next {
            Next::Call(c) => Some(c),
            _ => None,
        }
    }

    /// The step ends the sequence with a snapshot equal to `st`.
    pub open spec fn finishes_with(self, st: AuthState) -> bool {
        match self.next {
            Next::Finish(Ok(s)) => s.same(st),
            _ => false,
        }
    }

    /// The step ends the sequence with error `e`.
    pub open spec fn fails_with(self, e: AuthError) -> bool {
        match self.next {
            Next::Finish(Err(x)) => x == e,
            _ => false,
        }
    }
}

} // verus!
