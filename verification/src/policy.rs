//! Declarative access policies and their evaluation.
//!
//! An [`AuthPolicy`] pairs a *condition* (login required, or login forbidden)
//! with an *action* to take when the condition is violated (answer
//! "unauthorized", or redirect to a URL). Policies are immutable values: the
//! derivation operations return a new policy with one field replaced, so a
//! base policy can be specialized per route and shared freely across
//! concurrent requests.

use vstd::prelude::*;
use vstd::string::StringExecFns;

verus! {

/// Whether a route requires the caller to be logged in, or forbids it.
#[derive(Clone, Copy, Debug, PartialEq, Eq, Structural)]
pub enum AuthPolicyCondition {
    Disallow,
    Require,
}

/// What the interceptor does when a policy's condition is violated.
#[derive(Debug, PartialEq)]
pub enum AuthPolicyAction {
    /// Answer with a terminal "unauthorized" response, empty body.
    Unauthorized,
    /// Answer with a terminal redirection response pointing at the URL.
    HTTPRedirect(String),
}

/// Mathematical model of an action: the redirect target as a character
/// sequence.
pub enum ActionModel {
    Unauthorized,
    Redirect(Seq<char>),
}

impl View for AuthPolicyAction {
    type V = ActionModel;

    open spec fn view(&self) -> ActionModel {
        match self {
            AuthPolicyAction::Unauthorized => ActionModel::Unauthorized,
            AuthPolicyAction::HTTPRedirect(url) => ActionModel::Redirect(url@),
        }
    }
}

impl Clone for AuthPolicyAction {
    fn clone(&self) -> (cloned: Self)
        ensures
            cloned == *self,
    {
        match self {
            AuthPolicyAction::Unauthorized => AuthPolicyAction::Unauthorized,
            AuthPolicyAction::HTTPRedirect(url) => AuthPolicyAction::HTTPRedirect(url.clone()),
        }
    }
}

/// An immutable access-control rule for one route: a condition and the
/// action taken when the condition is violated. Both fields are always
/// present, so no operation can construct an incomplete policy.
#[derive(Debug, PartialEq)]
pub struct AuthPolicy {
    pub action: AuthPolicyAction,
    pub condition: AuthPolicyCondition,
}

impl Clone for AuthPolicy {
    fn clone(&self) -> (cloned: Self)
        ensures
            cloned == *self,
    {
        AuthPolicy { action: self.action.clone(), condition: self.condition }
    }
}

/// Mathematical model of a policy.
pub struct PolicyModel {
    pub condition: AuthPolicyCondition,
    pub action: ActionModel,
}

impl View for AuthPolicy {
    type V = PolicyModel;

    open spec fn view(&self) -> PolicyModel {
        PolicyModel { condition: self.condition, action: self.action@ }
    }
}

/// What evaluating a policy against a login state decides: let the request
/// through, or reject it with the policy's action.
#[derive(Debug, PartialEq)]
pub enum Outcome {
    Forward,
    Reject(AuthPolicyAction),
}

/// Mathematical model of an evaluation outcome.
pub enum OutcomeModel {
    Forward,
    Reject(ActionModel),
}

impl View for Outcome {
    type V = OutcomeModel;

    open spec fn view(&self) -> OutcomeModel {
        match self {
            Outcome::Forward => OutcomeModel::Forward,
            Outcome::Reject(action) => OutcomeModel::Reject(action@),
        }
    }
}

impl PolicyModel {
    /// The policy with its condition replaced by `Require`.
    pub open spec fn require(self) -> PolicyModel {
        PolicyModel { condition: AuthPolicyCondition::Require, action: self.action }
    }

    /// The policy with its condition replaced by `Disallow`.
    pub open spec fn disallow(self) -> PolicyModel {
        PolicyModel { condition: AuthPolicyCondition::Disallow, action: self.action }
    }

    /// The policy with its action replaced by a redirect to `url`.
    pub open spec fn redirect(self, url: Seq<char>) -> PolicyModel {
        PolicyModel { condition: self.condition, action: ActionModel::Redirect(url) }
    }

    /// The policy with its action replaced by `Unauthorized`.
    pub open spec fn unauthorized(self) -> PolicyModel {
        PolicyModel { condition: self.condition, action: ActionModel::Unauthorized }
    }

    /// The full truth table of policy evaluation: a violated condition
    /// rejects with the policy's action, a satisfied one forwards.
    pub open spec fn eval(self, logged_in: bool) -> OutcomeModel {
        match self.condition {
            AuthPolicyCondition::Require => if logged_in {
                OutcomeModel::Forward
            } else {
                OutcomeModel::Reject(self.action)
            },
            AuthPolicyCondition::Disallow => if logged_in {
                OutcomeModel::Reject(self.action)
            } else {
                OutcomeModel::Forward
            },
        }
    }
}

impl Default for AuthPolicy {
    /// The default rule: login required; violations answered "unauthorized".
    fn default() -> (policy: AuthPolicy)
        ensures
            policy@ == (PolicyModel {
                condition: AuthPolicyCondition::Require,
                action: ActionModel::Unauthorized,
            }),
    {
        AuthPolicy { action: AuthPolicyAction::Unauthorized, condition: AuthPolicyCondition::Require }
    }
}

impl AuthPolicy {
    /// A copy of this policy whose condition is `Disallow`; the action is
    /// kept.
    pub fn disallow(&self) -> (derived: AuthPolicy)
        ensures
            derived@ == self@.disallow(),
    {
        AuthPolicy { action: self.action.clone(), condition: AuthPolicyCondition::Disallow }
    }

    /// A copy of this policy whose condition is `Require`; the action is
    /// kept.
    pub fn require(&self) -> (derived: AuthPolicy)
        ensures
            derived@ == self@.require(),
    {
        AuthPolicy { action: self.action.clone(), condition: AuthPolicyCondition::Require }
    }

    /// A copy of this policy whose action is a redirect to `url`; the
    /// condition is kept.
    pub fn redirect(&self, url: &str) -> (derived: AuthPolicy)
        ensures
            derived@ == self@.redirect(url@),
    {
        AuthPolicy {
            action: AuthPolicyAction::HTTPRedirect(String::from_str(url)),
            condition: self.condition,
        }
    }

    /// A copy of this policy whose action is `Unauthorized`; the condition
    /// is kept.
    pub fn unauthorized(&self) -> (derived: AuthPolicy)
        ensures
            derived@ == self@.unauthorized(),
    {
        AuthPolicy { action: AuthPolicyAction::Unauthorized, condition: self.condition }
    }

    /// Evaluate this policy against the caller's login state. Total and
    /// side-effect free: the outcome depends on the condition, the action
    /// and `logged_in` alone, row by row of the truth table.
    pub fn evaluate(&self, logged_in: bool) -> (outcome: Outcome)
        ensures
            outcome@ == self@.eval(logged_in),
    {
        let satisfied: bool = match self.condition {
            AuthPolicyCondition::Require => logged_in,
            AuthPolicyCondition::Disallow => !logged_in,
        };
        if satisfied {
            Outcome::Forward
        } else {
            Outcome::Reject(self.action.clone())
        }
    }
}

/// Evaluation matches the truth table exactly, for every action and both
/// login states: `Require` forwards exactly the logged-in caller and
/// `Disallow` exactly the anonymous one; every rejection carries the
/// policy's own action.
pub proof fn lemma_eval_truth_table(policy: PolicyModel)
    ensures
        policy.condition == AuthPolicyCondition::Require ==> policy.eval(true)
            == OutcomeModel::Forward,
        policy.condition == AuthPolicyCondition::Require ==> policy.eval(false)
            == OutcomeModel::Reject(policy.action),
        policy.condition == AuthPolicyCondition::Disallow ==> policy.eval(true)
            == OutcomeModel::Reject(policy.action),
        policy.condition == AuthPolicyCondition::Disallow ==> policy.eval(false)
            == OutcomeModel::Forward,
{
}

/// Condition derivations are idempotent and the last one wins: deriving
/// `require` after any chain of condition derivations is the same as
/// deriving it once from the base policy, and symmetrically for `disallow`.
pub proof fn lemma_condition_derivation_last_wins(policy: PolicyModel)
    ensures
        policy.require().disallow().require() == policy.require(),
        policy.disallow().require().disallow() == policy.disallow(),
        policy.require().require() == policy.require(),
        policy.disallow().disallow() == policy.disallow(),
{
}

/// Action derivations pin the action and never touch the condition:
/// `redirect(url)` always yields the action `Redirect(url)`, `unauthorized`
/// always yields `Unauthorized`, and both keep the condition.
pub proof fn lemma_action_derivation(policy: PolicyModel, url: Seq<char>)
    ensures
        policy.redirect(url).action == ActionModel::Redirect(url),
        policy.redirect(url).condition == policy.condition,
        policy.unauthorized().action == ActionModel::Unauthorized,
        policy.unauthorized().condition == policy.condition,
{
}

} // verus!
