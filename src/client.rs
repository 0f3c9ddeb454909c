use vstd::prelude::*;
use std::sync::Arc;
use crate::error::Failure;
use crate::models::{BuildingEntity, CourseEntity, DepartmentEntity, PlaceEntity};
use crate::provider::{self, settle};
use crate::resolve::resolve_many;
use crate::session::{RequestConfig, Session, SessionView};

verus! {

/// The root of the graph: one provider client, owned together with the
/// session that tracks its authentication and request configuration.
pub struct SupernovaClient {
    client: Arc<iron_planet::Supernova>,
    session: Session,
}

impl View for SupernovaClient {
    type V = SessionView;

    closed spec fn view(&self) -> SessionView {
        self.session@
    }
}

impl SupernovaClient {
    /// An anonymous client with the standard request configuration.
    pub fn new() -> (r: SupernovaClient)
        ensures
            r@.token is None,
            !r@.config.evade_cache,
    {
        SupernovaClient { client: provider::new_client(), session: Session::new(RequestConfig::standard()) }
    }

    /// An anonymous client with the given request configuration.
    pub fn with_config(config: RequestConfig) -> (r: SupernovaClient)
        ensures
            r@.token is None,
            r@.config == config,
    {
        SupernovaClient { client: provider::new_client(), session: Session::new(config) }
    }

    pub fn is_authenticated(&self) -> (r: bool)
        ensures
            r <==> self@.token is Some,
    {
        self.session.is_authenticated()
    }

    pub fn session(&self) -> (r: &Session)
        ensures
            r@ == self@,
    {
        &self.session
    }

    /// Authenticates with a username and password. On success the session
    /// holds the issued token, which is returned; on failure it is a
    /// credential failure and the session is unchanged.
    pub fn login(&mut self, username: &str, password: &str) -> (r: Result<String, Failure>)
        ensures
            r is Ok ==> final(self)@.token == Some(r->Ok_0@) && final(self)@.config == old(self)@.config,
            r is Err ==> r->Err_0 is Credential && final(self)@ == old(self)@,
    {
        let outcome = settle(provider::login(&self.client, username, password));
        self.session.apply_login(outcome)
    }

    /// Authenticates with an externally issued token. On success the session
    /// holds it; on failure it is a token failure and the session is unchanged.
    pub fn set_auth_token(&mut self, token: String) -> (r: Result<(), Failure>)
        ensures
            r is Ok ==> final(self)@.token == Some(token@) && final(self)@.config == old(self)@.config,
            r is Err ==> r->Err_0 is Token && final(self)@ == old(self)@,
    {
        let outcome = settle(provider::set_auth_token(&self.client, token.clone()));
        self.session.apply_token(token, outcome)
    }

    /// Ends the session. On success the session is anonymous again; on
    /// failure it is an operation failure and the session is unchanged.
    pub fn logout(&mut self) -> (r: Result<(), Failure>)
        ensures
            r is Ok ==> final(self)@.token is None && final(self)@.config == old(self)@.config,
            r is Err ==> r->Err_0 is Operation && final(self)@ == old(self)@,
    {
        let outcome = settle(provider::logout(&self.client));
        self.session.apply_logout(outcome)
    }

    /// Every department, in the provider's order; all or nothing.
    pub fn departments(&self) -> (r: Result<Vec<DepartmentEntity>, Failure>)
        ensures
            r is Err ==> r->Err_0 is Operation,
    {
        let config = self.session.config();
        resolve_many(settle(provider::fetch_departments(&self.client, config.evade_cache)))
    }

    /// Every building, in the provider's order; all or nothing.
    pub fn buildings(&self) -> (r: Result<Vec<BuildingEntity>, Failure>)
        ensures
            r is Err ==> r->Err_0 is Operation,
    {
        let config = self.session.config();
        resolve_many(settle(provider::fetch_buildings(&self.client, config.evade_cache)))
    }

    /// Every place, in the provider's order; all or nothing.
    pub fn places(&self) -> (r: Result<Vec<PlaceEntity>, Failure>)
        ensures
            r is Err ==> r->Err_0 is Operation,
    {
        let config = self.session.config();
        resolve_many(settle(provider::fetch_places(&self.client, config.evade_cache)))
    }

    /// Every course, in the provider's order; all or nothing.
    pub fn courses(&self) -> (r: Result<Vec<CourseEntity>, Failure>)
        ensures
            r is Err ==> r->Err_0 is Operation,
    {
        let config = self.session.config();
        resolve_many(settle(provider::fetch_courses(&self.client, config.evade_cache)))
    }
}

} // verus!
