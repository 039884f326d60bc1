use authgate::identity::{Email, Method, Provider, User};
use authgate::interceptor::{
    resolved_user, AuthMiddleware, AuthService, Directive, ResolveError, Status, TerminalResponse,
};
use authgate::policy::AuthPolicy;

fn password_user() -> User {
    User {
        id: 0x0123_4567_89ab_cdef_0123_4567_89ab_cdef,
        username: "alice".to_string(),
        method: Method::Password("correct horse battery staple".to_string()),
        email: Some(Email::new("alice@example.org".to_string(), true)),
    }
}

fn oauth_user() -> User {
    User {
        id: 42,
        username: "bob".to_string(),
        method: Method::OAuth(Provider::Discord, "token".to_string()),
        email: None,
    }
}

fn gate(policy: AuthPolicy) -> AuthMiddleware {
    AuthService::new(policy).new_transform()
}

#[test]
fn scenario_require_unauthorized_without_identity_rejects() {
    let middleware = gate(AuthPolicy::default());
    let directive = middleware.call(&None);
    assert_eq!(
        directive,
        Directive::Respond(TerminalResponse { status: Status::Unauthorized, location: None })
    );
}

#[test]
fn scenario_require_unauthorized_with_identity_forwards() {
    let middleware = gate(AuthPolicy::default());
    let directive = middleware.call(&Some(password_user()));
    assert_eq!(directive, Directive::Forward);
}

#[test]
fn scenario_disallow_redirect_with_identity_redirects_home() {
    let middleware = gate(AuthPolicy::default().disallow().redirect("/home"));
    let directive = middleware.call(&Some(oauth_user()));
    assert_eq!(
        directive,
        Directive::Respond(TerminalResponse {
            status: Status::Found,
            location: Some("/home".to_string()),
        })
    );
}

#[test]
fn scenario_disallow_redirect_without_identity_forwards() {
    let middleware = gate(AuthPolicy::default().disallow().redirect("/home"));
    let directive = middleware.call(&None);
    assert_eq!(directive, Directive::Forward);
}

#[test]
fn repeated_calls_with_the_same_state_decide_alike() {
    let middleware = gate(AuthPolicy::default().redirect("/login"));
    let user = Some(password_user());
    assert_eq!(middleware.call(&user), middleware.call(&user));
    assert_eq!(middleware.call(&None), middleware.call(&None));
}

#[test]
fn implement_mirrors_evaluation() {
    let policy = AuthPolicy::default().redirect("/login");
    assert_eq!(policy.implement(true), Directive::Forward);
    assert_eq!(
        policy.implement(false),
        Directive::Respond(TerminalResponse {
            status: Status::Found,
            location: Some("/login".to_string()),
        })
    );
}

#[test]
fn reject_response_of_each_action() {
    let unauthorized = AuthPolicy::default().unauthorized().action.reject_response();
    assert_eq!(unauthorized.status, Status::Unauthorized);
    assert_eq!(unauthorized.location, None);
    let redirect = AuthPolicy::default().redirect("/home").action.reject_response();
    assert_eq!(redirect.status, Status::Found);
    assert_eq!(redirect.location, Some("/home".to_string()));
}

#[test]
fn resolution_failure_collapses_to_anonymous() {
    assert_eq!(resolved_user(Err(ResolveError::StoreUnreachable)), None);
    assert_eq!(resolved_user(Err(ResolveError::MalformedSession)), None);
    assert_eq!(resolved_user(Ok(None)), None);
    assert_eq!(
        resolved_user(Ok(Some(password_user()))),
        Some(password_user())
    );
}

#[test]
fn failed_resolution_is_denied_under_require_and_admitted_under_disallow() {
    let require = gate(AuthPolicy::default());
    let failed = resolved_user(Err(ResolveError::StoreUnreachable));
    assert_eq!(
        require.call(&failed),
        Directive::Respond(TerminalResponse { status: Status::Unauthorized, location: None })
    );
    let disallow = gate(AuthPolicy::default().disallow());
    assert_eq!(disallow.call(&failed), Directive::Forward);
}

#[test]
fn default_service_enforces_the_default_policy() {
    let service = AuthService::default();
    assert_eq!(service.policy, AuthPolicy::default());
    let directive = service.new_transform().call(&None);
    assert_eq!(
        directive,
        Directive::Respond(TerminalResponse { status: Status::Unauthorized, location: None })
    );
}

#[test]
fn service_and_middleware_carry_the_policy() {
    let policy = AuthPolicy::default().disallow().redirect("/home");
    let service = AuthService::new(policy.clone());
    assert_eq!(service.policy, policy);
    assert_eq!(service.new_transform().policy, policy);
    assert_eq!(AuthMiddleware::new(policy.clone()).policy, policy);
    assert_eq!(service.clone().policy, policy);
}

#[test]
fn identity_records_clone_and_inspect() {
    let user = password_user();
    assert_eq!(user.clone(), user);
    let email = Email::new("alice@example.org".to_string(), true);
    assert_eq!(email.address(), "alice@example.org");
    assert!(email.verified());
    assert_eq!(Email::new("bob@example.org".to_string(), false).verified(), false);
    let method = Method::OAuth(Provider::Google, "token".to_string());
    assert_eq!(method.clone(), method);
}
