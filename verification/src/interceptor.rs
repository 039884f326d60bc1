//! The interceptor: a policy adapted into a request-processing stage.
//!
//! [`AuthService`] is the factory a route registers; it hands each wrapped
//! handler an [`AuthMiddleware`]. Per request, the host adapter resolves the
//! caller's identity and asks [`AuthMiddleware::call`] for a [`Directive`]:
//! forward the request to the wrapped handler unchanged, or short-circuit
//! with a [`TerminalResponse`]. The host performs the directive; every
//! decision is made here, as a pure function of the policy and the resolved
//! identity's presence.

use vstd::prelude::*;

use crate::identity::User;
use crate::policy::{
    ActionModel, AuthPolicy, AuthPolicyAction, AuthPolicyCondition, Outcome, OutcomeModel,
    PolicyModel,
};

verus! {

/// The status of a terminal response the interceptor produces: "unauthorized" for
/// a plain rejection, "found" for a redirection.
#[derive(Clone, Copy, Debug, PartialEq, Eq, Structural)]
pub enum Status {
    Unauthorized,
    Found,
}

/// A terminal response that short-circuits the wrapped handler. Its body is
/// always empty; a redirection carries the target URL for the `Location`
/// header.
#[derive(Debug, PartialEq)]
pub struct TerminalResponse {
    pub status: Status,
    pub location: Option<String>,
}

/// Mathematical model of a terminal response.
pub struct ResponseModel {
    pub status: Status,
    pub location: Option<Seq<char>>,
}

impl View for TerminalResponse {
    type V = ResponseModel;

    open spec fn view(&self) -> ResponseModel {
        ResponseModel {
            status: self.status,
            location: match &self.location {
                Some(url) => Some(url@),
                None => None,
            },
        }
    }
}

/// What the host adapter must do with the request: delegate to the wrapped
/// handler and return its response unchanged, or answer with a terminal
/// response and never invoke the handler.
#[derive(Debug, PartialEq)]
pub enum Directive {
    Forward,
    Respond(TerminalResponse),
}

/// Mathematical model of a directive.
pub enum DirectiveModel {
    Forward,
    Respond(ResponseModel),
}

impl View for Directive {
    type V = DirectiveModel;

    open spec fn view(&self) -> DirectiveModel {
        match self {
            Directive::Forward => DirectiveModel::Forward,
            Directive::Respond(response) => DirectiveModel::Respond(response@),
        }
    }
}

/// The terminal response a violated action prescribes: "unauthorized" with
/// no location, or "found" with the redirect target as the location.
pub open spec fn reject_model(action: ActionModel) -> ResponseModel {
    match action {
        ActionModel::Unauthorized => ResponseModel { status: Status::Unauthorized, location: None },
        ActionModel::Redirect(url) => ResponseModel { status: Status::Found, location: Some(url) },
    }
}

/// The decision for one request: forward when the policy's condition is
/// satisfied, otherwise respond with the action's terminal response.
pub open spec fn directive_model(policy: PolicyModel, logged_in: bool) -> DirectiveModel {
    match policy.eval(logged_in) {
        OutcomeModel::Forward => DirectiveModel::Forward,
        OutcomeModel::Reject(action) => DirectiveModel::Respond(reject_model(action)),
    }
}

impl AuthPolicyAction {
    /// The terminal response produced when this action fires.
    pub fn reject_response(&self) -> (response: TerminalResponse)
        ensures
            response@ == reject_model(self@),
    {
        match self {
            AuthPolicyAction::Unauthorized => TerminalResponse {
                status: Status::Unauthorized,
                location: None,
            },
            AuthPolicyAction::HTTPRedirect(url) => TerminalResponse {
                status: Status::Found,
                location: Some(url.clone()),
            },
        }
    }
}

impl AuthPolicy {
    /// Apply this policy to one request's login state: evaluate the
    /// condition and turn a rejection into its terminal response. The
    /// wrapped handler runs exactly when the directive is `Forward`.
    pub fn implement(&self, logged_in: bool) -> (directive: Directive)
        ensures
            directive@ == directive_model(self@, logged_in),
    {
        match self.evaluate(logged_in) {
            Outcome::Forward => Directive::Forward,
            Outcome::Reject(action) => Directive::Respond(action.reject_response()),
        }
    }
}

/// The factory a route registers: it carries the route's policy and equips
/// each wrapped handler with an [`AuthMiddleware`] enforcing that policy.
#[derive(Debug, PartialEq)]
pub struct AuthService {
    pub policy: AuthPolicy,
}

impl AuthService {
    /// A factory enforcing the given policy.
    pub fn new(policy: AuthPolicy) -> (service: AuthService)
        ensures
            service.policy == policy,
    {
        AuthService { policy }
    }

    /// The middleware stage for one wrapped handler. The handler itself
    /// stays with the host adapter; the stage carries the policy across
    /// unchanged.
    pub fn new_transform(&self) -> (middleware: AuthMiddleware)
        ensures
            middleware.policy == self.policy,
    {
        AuthMiddleware { policy: self.policy.clone() }
    }
}

impl Clone for AuthService {
    fn clone(&self) -> (cloned: Self)
        ensures
            cloned == *self,
    {
        AuthService { policy: self.policy.clone() }
    }
}

impl Default for AuthService {
    /// A factory enforcing the default policy: login required, violations
    /// answered "unauthorized".
    fn default() -> (service: AuthService)
        ensures
            service.policy@ == (PolicyModel {
                condition: AuthPolicyCondition::Require,
                action: ActionModel::Unauthorized,
            }),
    {
        AuthService { policy: AuthPolicy::default() }
    }
}

/// The per-handler interception stage: the policy attached to one wrapped
/// handler. Immutable and freely shareable; it never mutates policy or
/// identity state.
#[derive(Debug, PartialEq)]
pub struct AuthMiddleware {
    pub policy: AuthPolicy,
}

impl AuthMiddleware {
    /// A stage enforcing the given policy.
    pub fn new(policy: AuthPolicy) -> (middleware: AuthMiddleware)
        ensures
            middleware.policy == policy,
    {
        AuthMiddleware { policy }
    }

    /// Decide one request, given the resolved identity: the caller counts
    /// as logged in exactly when an identity is present, and the directive
    /// is the policy's decision for that state.
    pub fn call(&self, current_user: &Option<User>) -> (directive: Directive)
        ensures
            directive@ == directive_model(self.policy@, current_user is Some),
    {
        self.policy.implement(current_user.is_some())
    }
}

impl Clone for AuthMiddleware {
    fn clone(&self) -> (cloned: Self)
        ensures
            cloned == *self,
    {
        AuthMiddleware { policy: self.policy.clone() }
    }
}

/// Why identity resolution can fail: the identity store was unreachable, or
/// the request carried a malformed session.
#[derive(Clone, Copy, Debug, PartialEq, Eq, Structural)]
pub enum ResolveError {
    StoreUnreachable,
    MalformedSession,
}

/// The interceptor fails closed: a resolution failure is collapsed to "no
/// identity" rather than surfaced, so a `Require` policy denies access on
/// failure. The failure's cause never reaches the caller.
pub fn resolved_user(resolution: Result<Option<User>, ResolveError>) -> (current_user: Option<
    User,
>)
    ensures
        current_user == (match resolution {
            Ok(user) => user,
            Err(_) => Option::<User>::None,
        }),
{
    match resolution {
        Ok(user) => user,
        Err(_) => None,
    }
}

/// Handling is memoryless: any two decisions for the same policy and the
/// same resolution state are the same directive, and in particular agree on
/// whether the wrapped handler runs.
pub proof fn lemma_call_repeatable(
    policy: PolicyModel,
    logged_in: bool,
    first: DirectiveModel,
    second: DirectiveModel,
)
    requires
        first == directive_model(policy, logged_in),
        second == directive_model(policy, logged_in),
    ensures
        first == second,
        first is Forward <==> second is Forward,
{
}

} // verus!
