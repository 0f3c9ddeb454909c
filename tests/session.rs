use snekverse::{Failure, ProviderFault, RequestConfig, Session, SupernovaClient};

fn anonymous() -> Session {
    Session::new(RequestConfig::standard())
}

#[test]
fn new_session_is_anonymous() {
    let s = anonymous();
    assert!(!s.is_authenticated());
    assert_eq!(s.token(), None);
    assert!(!s.config().evade_cache);
}

#[test]
fn session_keeps_its_config() {
    let s = Session::new(RequestConfig { evade_cache: true });
    assert!(s.config().evade_cache);
}

#[test]
fn successful_login_authenticates() {
    let mut s = anonymous();
    let r = s.apply_login(Ok("tok-123".to_string()));
    assert_eq!(r, Ok("tok-123".to_string()));
    assert!(s.is_authenticated());
    assert_eq!(s.token(), Some("tok-123".to_string()));
}

#[test]
fn rejected_login_stays_anonymous() {
    let mut s = anonymous();
    let r = s.apply_login(Err(ProviderFault::Authentication));
    assert_eq!(r, Err(Failure::Credential(ProviderFault::Authentication)));
    assert!(!s.is_authenticated());
    assert_eq!(s.token(), None);
}

#[test]
fn rejected_second_login_keeps_authentication() {
    let mut s = anonymous();
    s.apply_login(Ok("first".to_string())).unwrap();
    let r = s.apply_login(Err(ProviderFault::Network));
    assert_eq!(r, Err(Failure::Credential(ProviderFault::Network)));
    assert_eq!(s.token(), Some("first".to_string()));
}

#[test]
fn logout_after_login_is_anonymous() {
    let mut s = anonymous();
    s.apply_login(Ok("tok".to_string())).unwrap();
    assert_eq!(s.apply_logout(Ok(())), Ok(()));
    assert!(!s.is_authenticated());
    assert_eq!(s.token(), None);
}

#[test]
fn failed_logout_keeps_state() {
    let mut s = anonymous();
    s.apply_login(Ok("tok".to_string())).unwrap();
    let r = s.apply_logout(Err(ProviderFault::Server));
    assert_eq!(r, Err(Failure::Operation(ProviderFault::Server)));
    assert_eq!(s.token(), Some("tok".to_string()));
}

#[test]
fn accepted_token_authenticates() {
    let mut s = anonymous();
    assert_eq!(s.apply_token("external".to_string(), Ok(())), Ok(()));
    assert_eq!(s.token(), Some("external".to_string()));
}

#[test]
fn rejected_token_is_token_failure() {
    let mut s = anonymous();
    let r = s.apply_token("bad".to_string(), Err(ProviderFault::Authentication));
    assert_eq!(r, Err(Failure::Token(ProviderFault::Authentication)));
    assert!(!s.is_authenticated());
}

#[test]
fn failure_kinds_and_detail() {
    let op = Failure::Operation(ProviderFault::Parsing("bad json".to_string()));
    assert!(op.is_operation());
    assert_eq!(op.fault(), &ProviderFault::Parsing("bad json".to_string()));
    let cred = Failure::Credential(ProviderFault::Authentication);
    assert!(!cred.is_operation());
    assert_eq!(cred.fault(), &ProviderFault::Authentication);
    assert!(!Failure::Token(ProviderFault::Client).is_operation());
}

#[test]
fn new_client_is_anonymous() {
    let c = SupernovaClient::new();
    assert!(!c.is_authenticated());
    assert!(!c.session().config().evade_cache);
    let d = SupernovaClient::with_config(RequestConfig { evade_cache: true });
    assert!(d.session().config().evade_cache);
}
