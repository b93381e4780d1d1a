//! The configuration of one call: what the auth orchestrator reads, and
//! what interceptors may leave for the rest of the call.

use crate::auth::{
    AuthOptionResolver, AuthOptionResolverParams, ConfiguredAuthOptionResolver, HttpAuthSchemes,
    StaticAuthOptionResolver,
};
use crate::date_time::DateTime;
use crate::identity::IdentityResolvers;
use vstd::prelude::*;
use vstd::string::StringExecFns;

verus! {

/// The plain entries of a configuration: what it holds beside its
/// resolvers and signers. It is the part of the configuration that these
/// are handed when they are called.
#[derive(Debug)]
pub struct Properties {
    pub auth_option_resolver_params: Option<AuthOptionResolverParams>,
    pub request_time: Option<DateTime>,
    pub invocation_id: Option<String>,
}

/// The configuration store of one call. Each call owns its own; nothing in
/// it is shared between calls.
pub struct ConfigBag {
    properties: Properties,
    auth_option_resolver: Option<ConfiguredAuthOptionResolver>,
    identity_resolvers: Option<IdentityResolvers>,
    http_auth_schemes: Option<HttpAuthSchemes>,
    interceptor_registrations: Vec<String>,
}

/// The texts of a list of strings.
pub open spec fn texts(strings: Seq<String>) -> Seq<Seq<char>> {
    Seq::new(strings.len(), |i: int| strings[i]@)
}

/// The model of a `ConfigBag`: what is set in it.
pub struct ConfigBagView {
    pub auth_option_resolver_params: Option<AuthOptionResolverParams>,
    pub auth_option_resolver: Option<ConfiguredAuthOptionResolver>,
    pub identity_resolvers: Option<IdentityResolvers>,
    pub http_auth_schemes: Option<HttpAuthSchemes>,
    pub request_time: Option<DateTime>,
    pub invocation_id: Option<String>,
    /// The names under which interceptors were asked to be registered, in
    /// the order of the asking.
    pub interceptor_registrations: Seq<Seq<char>>,
}

impl View for ConfigBag {
    type V = ConfigBagView;

    closed spec fn view(&self) -> ConfigBagView {
        ConfigBagView {
            auth_option_resolver_params: self.properties.auth_option_resolver_params,
            auth_option_resolver: self.auth_option_resolver,
            identity_resolvers: self.identity_resolvers,
            http_auth_schemes: self.http_auth_schemes,
            request_time: self.properties.request_time,
            invocation_id: self.properties.invocation_id,
            interceptor_registrations: texts(self.interceptor_registrations@),
        }
    }
}

impl ConfigBag {
    /// Whether all that the auth orchestrator reads has been set.
    pub open spec fn ready_for_auth(&self) -> bool {
        &&& self@.auth_option_resolver_params is Some
        &&& self@.auth_option_resolver is Some
        &&& self@.identity_resolvers is Some
        &&& self@.http_auth_schemes is Some
    }

    /// A configuration in which nothing is set.
    pub fn base() -> (r: Self)
        ensures
            r@ == (ConfigBagView {
                auth_option_resolver_params: None,
                auth_option_resolver: None,
                identity_resolvers: None,
                http_auth_schemes: None,
                request_time: None,
                invocation_id: None,
                interceptor_registrations: Seq::empty(),
            }),
    {
        let r = ConfigBag {
            properties: Properties {
                auth_option_resolver_params: None,
                request_time: None,
                invocation_id: None,
            },
            auth_option_resolver: None,
            identity_resolvers: None,
            http_auth_schemes: None,
            interceptor_registrations: Vec::new(),
        };
        assert(texts(r.interceptor_registrations@) =~= Seq::<Seq<char>>::empty());
        r
    }

    /// The plain entries of the configuration.
    pub fn properties(&self) -> (r: &Properties)
        ensures
            r.auth_option_resolver_params == self@.auth_option_resolver_params,
            r.request_time == self@.request_time,
            r.invocation_id == self@.invocation_id,
    {
        &self.properties
    }

    /// Whether all that the auth orchestrator reads has been set.
    pub fn is_ready_for_auth(&self) -> (r: bool)
        ensures
            r == self.ready_for_auth(),
    {
        self.properties.auth_option_resolver_params.is_some() && self.auth_option_resolver.is_some()
            && self.identity_resolvers.is_some() && self.http_auth_schemes.is_some()
    }

    /// The parameters for the auth option resolver.
    pub fn auth_option_resolver_params(&self) -> (r: &AuthOptionResolverParams)
        requires
            self@.auth_option_resolver_params is Some,
        ensures
            *r == self@.auth_option_resolver_params->0,
    {
        self.properties.auth_option_resolver_params.as_ref().unwrap()
    }

    /// Sets the parameters for the auth option resolver.
    pub fn set_auth_option_resolver_params(&mut self, params: AuthOptionResolverParams)
        ensures
            final(self)@ == (ConfigBagView {
                auth_option_resolver_params: Some(params),
                ..old(self)@
            }),
    {
        self.properties.auth_option_resolver_params = Some(params);
    }

    /// The auth option resolver.
    pub fn auth_option_resolver(&self) -> (r: &ConfiguredAuthOptionResolver)
        requires
            self@.auth_option_resolver is Some,
        ensures
            *r == self@.auth_option_resolver->0,
    {
        self.auth_option_resolver.as_ref().unwrap()
    }

    /// Sets the auth option resolver to a resolver of the caller's own.
    pub fn set_auth_option_resolver<R: AuthOptionResolver + 'static>(&mut self, resolver: R)
        ensures
            final(self)@.auth_option_resolver matches Some(
                ConfiguredAuthOptionResolver::Dynamic(_),
            ),
            final(self)@ == (ConfigBagView {
                auth_option_resolver: final(self)@.auth_option_resolver,
                ..old(self)@
            }),
    {
        let resolver: Box<dyn AuthOptionResolver> = Box::new(resolver);
        self.auth_option_resolver = Some(ConfiguredAuthOptionResolver::Dynamic(resolver));
    }

    /// Sets the auth option resolver to a fixed list of options.
    pub fn set_static_auth_option_resolver(&mut self, resolver: StaticAuthOptionResolver)
        ensures
            final(self)@ == (ConfigBagView {
                auth_option_resolver: Some(ConfiguredAuthOptionResolver::Static(resolver)),
                ..old(self)@
            }),
    {
        self.auth_option_resolver = Some(ConfiguredAuthOptionResolver::Static(resolver));
    }

    /// The registry of identity resolvers.
    pub fn identity_resolvers(&self) -> (r: &IdentityResolvers)
        requires
            self@.identity_resolvers is Some,
        ensures
            *r == self@.identity_resolvers->0,
    {
        self.identity_resolvers.as_ref().unwrap()
    }

    /// Sets the registry of identity resolvers.
    pub fn set_identity_resolvers(&mut self, identity_resolvers: IdentityResolvers)
        ensures
            final(self)@ == (ConfigBagView {
                identity_resolvers: Some(identity_resolvers),
                ..old(self)@
            }),
    {
        self.identity_resolvers = Some(identity_resolvers);
    }

    /// The registry of auth schemes.
    pub fn http_auth_schemes(&self) -> (r: &HttpAuthSchemes)
        requires
            self@.http_auth_schemes is Some,
        ensures
            *r == self@.http_auth_schemes->0,
    {
        self.http_auth_schemes.as_ref().unwrap()
    }

    /// Sets the registry of auth schemes.
    pub fn set_http_auth_schemes(&mut self, http_auth_schemes: HttpAuthSchemes)
        ensures
            final(self)@ == (ConfigBagView {
                http_auth_schemes: Some(http_auth_schemes),
                ..old(self)@
            }),
    {
        self.http_auth_schemes = Some(http_auth_schemes);
    }

    /// The time of the request, if it has been set.
    pub fn request_time(&self) -> (r: Option<DateTime>)
        ensures
            r == self@.request_time,
    {
        self.properties.request_time
    }

    /// Sets the time of the request.
    pub fn set_request_time(&mut self, request_time: DateTime)
        ensures
            final(self)@ == (ConfigBagView { request_time: Some(request_time), ..old(self)@ }),
    {
        self.properties.request_time = Some(request_time);
    }

    /// The identifier of the invocation, if it has been set.
    pub fn invocation_id(&self) -> (r: Option<&String>)
        ensures
            match r {
                Some(id) => self@.invocation_id == Some(*id),
                None => self@.invocation_id is None,
            },
    {
        self.properties.invocation_id.as_ref()
    }

    /// Sets the identifier of the invocation.
    pub fn set_invocation_id(&mut self, invocation_id: String)
        ensures
            final(self)@ == (ConfigBagView { invocation_id: Some(invocation_id), ..old(self)@ }),
    {
        self.properties.invocation_id = Some(invocation_id);
    }

    /// Asks for the interceptor that is offered under `name` to be
    /// registered. A hook may do so while a dispatch pass runs: the asking
    /// is kept here, and the pass under way is not touched by it.
    pub fn register_interceptor(&mut self, name: &str)
        ensures
            final(self)@ == (ConfigBagView {
                interceptor_registrations: old(self)@.interceptor_registrations.push(name@),
                ..old(self)@
            }),
    {
        self.interceptor_registrations.push(String::from_str(name));
        assert(texts(self.interceptor_registrations@) =~= texts(
            old(self).interceptor_registrations@,
        ).push(name@));
    }

    /// The names under which interceptors were asked to be registered and
    /// that have not been taken yet.
    pub fn interceptor_registrations(&self) -> (r: &Vec<String>)
        ensures
            texts(r@) == self@.interceptor_registrations,
    {
        &self.interceptor_registrations
    }

    /// Takes the names under which interceptors were asked to be
    /// registered: they are handed out, and none is left.
    pub fn take_interceptor_registrations(&mut self) -> (r: Vec<String>)
        ensures
            texts(r@) == old(self)@.interceptor_registrations,
            final(self)@ == (ConfigBagView {
                interceptor_registrations: Seq::empty(),
                ..old(self)@
            }),
    {
        let mut taken: Vec<String> = Vec::new();
        std::mem::swap(&mut taken, &mut self.interceptor_registrations);
        assert(texts(self.interceptor_registrations@) =~= Seq::<Seq<char>>::empty());
        taken
    }
}

} // verus!
