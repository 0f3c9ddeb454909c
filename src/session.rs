use vstd::prelude::*;
use crate::error::{Failure, ProviderFault};

verus! {

/// Parameters threaded into top-level collection fetches; unrelated to
/// authentication.
#[derive(Clone, Copy, Debug, PartialEq, Eq, Structural)]
pub struct RequestConfig {
    /// Ask the provider to bypass its cache.
    pub evade_cache: bool,
}

impl RequestConfig {
    /// The configuration used when none is given: the provider may use its cache.
    pub fn standard() -> (r: RequestConfig)
        ensures
            !r.evade_cache,
    {
        RequestConfig { evade_cache: false }
    }
}

/// The authentication state of a session: anonymous, or authenticated with
/// the token the provider issued or accepted.
pub struct SessionView {
    pub token: Option<Seq<char>>,
    pub config: RequestConfig,
}

/// Authentication state and request configuration of one client.
pub struct Session {
    token: Option<String>,
    config: RequestConfig,
}

/// The state after a login attempt: authenticated with the issued token on
/// success, unchanged on failure.
pub open spec fn login_next(s: SessionView, o: Result<String, ProviderFault>) -> SessionView {
    match o {
        Ok(t) => SessionView { token: Some(t@), ..s },
        Err(_) => s,
    }
}

/// What a login attempt reports: the token, or a credential failure.
pub open spec fn login_reply(o: Result<String, ProviderFault>) -> Result<String, Failure> {
    match o {
        Ok(t) => Ok(t),
        Err(f) => Err(Failure::Credential(f)),
    }
}

/// The state after offering `token`: authenticated with it if the provider
/// accepted it, unchanged otherwise.
pub open spec fn token_next(s: SessionView, token: Seq<char>, o: Result<(), ProviderFault>) -> SessionView {
    match o {
        Ok(_) => SessionView { token: Some(token), ..s },
        Err(_) => s,
    }
}

/// What offering a token reports: nothing, or a token failure.
pub open spec fn token_reply(o: Result<(), ProviderFault>) -> Result<(), Failure> {
    match o {
        Ok(_) => Ok(()),
        Err(f) => Err(Failure::Token(f)),
    }
}

/// The state after a logout: anonymous on success, unchanged on failure.
pub open spec fn logout_next(s: SessionView, o: Result<(), ProviderFault>) -> SessionView {
    match o {
        Ok(_) => SessionView { token: None, ..s },
        Err(_) => s,
    }
}

/// What a logout reports: nothing, or an operation failure.
pub open spec fn logout_reply(o: Result<(), ProviderFault>) -> Result<(), Failure> {
    match o {
        Ok(_) => Ok(()),
        Err(f) => Err(Failure::Operation(f)),
    }
}

impl View for Session {
    type V = SessionView;

    closed spec fn view(&self) -> SessionView {
        SessionView {
            token: match self.token {
                Some(t) => Some(t@),
                None => None,
            },
            config: self.config,
        }
    }
}

impl Session {
    /// A new, anonymous session using `config` for every collection fetch.
    pub fn new(config: RequestConfig) -> (r: Session)
        ensures
            r@.token is None,
            r@.config == config,
    {
        Session { token: None, config }
    }

    pub fn is_authenticated(&self) -> (r: bool)
        ensures
            r <==> self@.token is Some,
    {
        self.token.is_some()
    }

    /// The token currently held, if authenticated.
    pub fn token(&self) -> (r: Option<String>)
        ensures
            r is Some <==> self@.token is Some,
            r is Some ==> r->Some_0@ == self@.token->Some_0,
    {
        match &self.token {
            Some(t) => Some(t.clone()),
            None => None,
        }
    }

    pub fn config(&self) -> (r: RequestConfig)
        ensures
            r == self@.config,
    {
        self.config
    }

    /// Records the provider's answer to a login attempt. A failed login never
    /// downgrades the current state.
    pub fn apply_login(&mut self, o: Result<String, ProviderFault>) -> (r: Result<String, Failure>)
        ensures
            final(self)@ == login_next(old(self)@, o),
            r == login_reply(o),
    {
        match o {
            Ok(t) => {
                self.token = Some(t.clone());
                Ok(t)
            },
            Err(f) => Err(Failure::Credential(f)),
        }
    }

    /// Records the provider's answer to an externally issued `token`.
    pub fn apply_token(&mut self, token: String, o: Result<(), ProviderFault>) -> (r: Result<(), Failure>)
        ensures
            final(self)@ == token_next(old(self)@, token@, o),
            r == token_reply(o),
    {
        match o {
            Ok(_) => {
                self.token = Some(token);
                Ok(())
            },
            Err(f) => Err(Failure::Token(f)),
        }
    }

    /// Records the provider's answer to a logout: on success the held token
    /// is dropped.
    pub fn apply_logout(&mut self, o: Result<(), ProviderFault>) -> (r: Result<(), Failure>)
        ensures
            final(self)@ == logout_next(old(self)@, o),
            r == logout_reply(o),
    {
        match o {
            Ok(_) => {
                self.token = None;
                Ok(())
            },
            Err(f) => Err(Failure::Operation(f)),
        }
    }
}

/// A successful login authenticates the session with the issued token and
/// reports that token, whatever the state before.
pub proof fn lemma_login_success(s: SessionView, t: String)
    ensures
        login_next(s, Ok(t)).token == Some(t@),
        login_next(s, Ok(t)).config == s.config,
        login_reply(Ok(t)) == Ok::<String, Failure>(t),
{
}

/// A rejected login reports a credential failure and leaves the state as it
/// was: an anonymous session stays anonymous, an authenticated one stays
/// authenticated.
pub proof fn lemma_login_failure_keeps_state(s: SessionView, f: ProviderFault)
    ensures
        login_next(s, Err(f)) == s,
        login_reply(Err(f)) == Err::<String, Failure>(Failure::Credential(f)),
{
}

/// Logging out after a successful login returns the session to anonymous.
pub proof fn lemma_logout_after_login(s: SessionView, t: String)
    ensures
        logout_next(login_next(s, Ok(t)), Ok(())).token is None,
        logout_next(login_next(s, Ok(t)), Ok(())).config == s.config,
        logout_reply(Ok(())) == Ok::<(), Failure>(()),
{
}

/// A rejected token reports a token failure and leaves the state as it was;
/// an accepted one authenticates the session with it.
pub proof fn lemma_token_transitions(s: SessionView, token: Seq<char>, f: ProviderFault)
    ensures
        token_next(s, token, Err(f)) == s,
        token_reply(Err(f)) == Err::<(), Failure>(Failure::Token(f)),
        token_next(s, token, Ok(())).token == Some(token),
{
}

} // verus!
