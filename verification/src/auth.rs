//! Auth schemes: their identifiers, the resolver that ranks them for a call,
//! the signers, and the registry of the schemes that a client supports.

use crate::config_bag::Properties;
use crate::http::Request;
use crate::identity::{first_index_of, Identity, IdentityResolvers, SharedIdentityResolver};
use crate::interceptors::error::BoxError;
use crate::type_erasure::TypeErasedBox;
use vstd::prelude::*;
use vstd::string::StringExecFns;

verus! {

/// The name of an auth scheme. It has no attributes beyond its identity: two
/// identifiers are the same scheme exactly when their names are equal.
#[derive(Debug)]
pub struct AuthSchemeId {
    name: String,
}

impl View for AuthSchemeId {
    type V = Seq<char>;

    /// The scheme's name.
    closed spec fn view(&self) -> Seq<char> {
        self.name@
    }
}

impl AuthSchemeId {
    /// The identifier of the scheme called `name`.
    pub fn new(name: &str) -> (r: Self)
        ensures
            r@ == name@,
    {
        AuthSchemeId { name: String::from_str(name) }
    }

    /// The scheme's name.
    pub fn as_str(&self) -> (r: &str)
        ensures
            r@ == self@,
    {
        self.name.as_str()
    }

    /// Whether `self` and `other` name the same scheme.
    pub fn is(&self, other: &AuthSchemeId) -> (r: bool)
        ensures
            r == (self@ == other@),
    {
        self.name == other.name
    }

    /// A copy of the identifier.
    pub fn duplicate(&self) -> (r: Self)
        ensures
            r@ == self@,
    {
        AuthSchemeId { name: self.name.clone() }
    }
}

/// The names of a list of identifiers.
pub open spec fn scheme_names(ids: Seq<AuthSchemeId>) -> Seq<Seq<char>> {
    Seq::new(ids.len(), |i: int| ids[i]@)
}

/// What the auth option resolver is given to decide by.
#[derive(Debug)]
pub struct AuthOptionResolverParams(pub TypeErasedBox);

/// Ranks the auth schemes that are acceptable for a call, best first.
/// Nothing is known of what an implementation returns: the orchestrator
/// handles every outcome.
pub trait AuthOptionResolver: Send + Sync {
    /// The acceptable schemes, in the order in which they are to be tried.
    fn resolve_auth_options(&self, params: &AuthOptionResolverParams) -> Result<
        Vec<AuthSchemeId>,
        BoxError,
    >;
}

/// An auth option resolver that gives the same list for every call.
#[derive(Debug)]
pub struct StaticAuthOptionResolver {
    auth_options: Vec<AuthSchemeId>,
}

impl StaticAuthOptionResolver {
    /// The resolver that always answers `auth_options`.
    pub fn new(auth_options: Vec<AuthSchemeId>) -> (r: Self)
        ensures
            r.spec_options() == scheme_names(auth_options@),
    {
        StaticAuthOptionResolver { auth_options }
    }

    /// The names of the schemes that the resolver answers.
    pub closed spec fn spec_options(&self) -> Seq<Seq<char>> {
        scheme_names(self.auth_options@)
    }
}

impl AuthOptionResolver for StaticAuthOptionResolver {
    fn resolve_auth_options(&self, params: &AuthOptionResolverParams) -> (r: Result<
        Vec<AuthSchemeId>,
        BoxError,
    >)
        ensures
            r matches Ok(options) && scheme_names(options@) == self.spec_options(),
    {
        let mut options: Vec<AuthSchemeId> = Vec::new();
        let mut i: usize = 0;
        while i < self.auth_options.len()
            invariant
                i <= self.auth_options.len(),
                options.len() == i,
                forall|j: int| 0 <= j < i ==> options[j]@ == self.auth_options[j]@,
            decreases self.auth_options.len() - i,
        {
            options.push(self.auth_options[i].duplicate());
            i += 1;
        }
        assert(scheme_names(options@) =~= scheme_names(self.auth_options@));
        Ok(options)
    }
}

/// The auth option resolver that a configuration holds: a fixed list of
/// options, of which the answer is known before it is asked, or a resolver
/// of the caller's own, of which it is not.
pub enum ConfiguredAuthOptionResolver {
    Static(StaticAuthOptionResolver),
    Dynamic(Box<dyn AuthOptionResolver>),
}

impl ConfiguredAuthOptionResolver {
    /// The names of the options that the resolver answers, where it is a
    /// fixed list.
    pub open spec fn static_options(&self) -> Option<Seq<Seq<char>>> {
        match self {
            ConfiguredAuthOptionResolver::Static(fixed) => Some(fixed.spec_options()),
            ConfiguredAuthOptionResolver::Dynamic(_) => None,
        }
    }

    /// The acceptable schemes, in the order in which they are to be tried. A
    /// fixed list answers its options and never fails.
    pub fn resolve_auth_options(&self, params: &AuthOptionResolverParams) -> (r: Result<
        Vec<AuthSchemeId>,
        BoxError,
    >)
        ensures
            self.static_options() matches Some(names) ==> r matches Ok(options) && scheme_names(
                options@,
            ) == names,
    {
        match self {
            ConfiguredAuthOptionResolver::Static(fixed) => fixed.resolve_auth_options(params),
            ConfiguredAuthOptionResolver::Dynamic(resolver) => resolver.resolve_auth_options(
                params,
            ),
        }
    }
}

/// Signs requests with identities of one auth scheme. Nothing is known of
/// what an implementation does to the request or returns: the orchestrator
/// handles every outcome.
pub trait HttpRequestSigner: Send + Sync {
    /// Signs `request` with `identity`, changing it in place. The signer is
    /// handed the plain entries of the configuration.
    fn sign_request(&self, request: &mut Request, identity: &Identity, cfg: &Properties) -> Result<
        (),
        BoxError,
    >;
}

/// An auth scheme: the identifier under which its identities are resolved,
/// and its signer.
pub struct HttpAuthScheme {
    scheme_id: AuthSchemeId,
    signer: Box<dyn HttpRequestSigner>,
}

impl HttpAuthScheme {
    /// The scheme called `scheme_id` that signs with `signer`.
    pub fn new<S: HttpRequestSigner + 'static>(scheme_id: AuthSchemeId, signer: S) -> (r: Self)
        ensures
            r.spec_scheme_id() == scheme_id@,
    {
        let signer: Box<dyn HttpRequestSigner> = Box::new(signer);
        HttpAuthScheme { scheme_id, signer }
    }

    /// The name under which the scheme's identities are resolved.
    pub closed spec fn spec_scheme_id(&self) -> Seq<char> {
        self.scheme_id@
    }

    /// The scheme's identifier.
    pub fn scheme_id(&self) -> (r: &AuthSchemeId)
        ensures
            r@ == self.spec_scheme_id(),
    {
        &self.scheme_id
    }

    /// The resolver of the scheme's identities: the one registered in
    /// `identity_resolvers` for the scheme's identifier; none where no
    /// source of credentials is configured for the scheme.
    pub fn identity_resolver<'a>(&self, identity_resolvers: &'a IdentityResolvers) -> (r: Option<
        &'a SharedIdentityResolver,
    >)
        ensures
            match first_index_of(identity_resolvers@, self.spec_scheme_id()) {
                Some(i) => r == Some(&identity_resolvers.spec_resolver(i)),
                None => r is None,
            },
    {
        identity_resolvers.identity_resolver(&self.scheme_id)
    }

    /// Has the scheme's signer sign `request` with `identity`.
    pub fn sign_request(&self, request: &mut Request, identity: &Identity, cfg: &Properties) -> Result<
        (),
        BoxError,
    > {
        self.signer.sign_request(request, identity, cfg)
    }
}

/// One entry of the registry of schemes: the identifier that auth options
/// are matched against, and the scheme.
pub struct HttpAuthSchemeEntry {
    pub scheme_id: AuthSchemeId,
    pub scheme: HttpAuthScheme,
}

/// The auth schemes that a client supports.
pub struct HttpAuthSchemes {
    entries: Vec<HttpAuthSchemeEntry>,
}

impl View for HttpAuthSchemes {
    type V = Seq<Seq<char>>;

    /// The identifiers under which schemes are registered, in the order of
    /// registration.
    closed spec fn view(&self) -> Seq<Seq<char>> {
        Seq::new(self.entries@.len(), |i: int| self.entries@[i].scheme_id@)
    }
}

impl HttpAuthSchemes {
    /// The scheme registered at `index`.
    pub closed spec fn spec_scheme(&self, index: int) -> HttpAuthScheme {
        self.entries@[index].scheme
    }

    /// A registry without schemes.
    pub fn new() -> (r: Self)
        ensures
            r@ == Seq::<Seq<char>>::empty(),
    {
        let r = HttpAuthSchemes { entries: Vec::new() };
        assert(r@ =~= Seq::<Seq<char>>::empty());
        r
    }

    /// Registers `scheme` under `scheme_id`, after those that are registered
    /// already.
    pub fn register(&mut self, scheme_id: AuthSchemeId, scheme: HttpAuthScheme)
        ensures
            final(self)@ == old(self)@.push(scheme_id@),
            final(self).spec_scheme(old(self)@.len() as int) == scheme,
            forall|i: int|
                0 <= i < old(self)@.len() ==> final(self).spec_scheme(i) == old(self).spec_scheme(
                    i,
                ),
    {
        self.entries.push(HttpAuthSchemeEntry { scheme_id, scheme });
        assert(self@ =~= old(self)@.push(scheme_id@));
    }

    /// The scheme registered under `scheme_id`: the first, where there are
    /// several.
    pub fn scheme(&self, scheme_id: &AuthSchemeId) -> (r: Option<&HttpAuthScheme>)
        ensures
            match first_index_of(self@, scheme_id@) {
                Some(i) => r == Some(&self.spec_scheme(i)),
                None => r is None,
            },
    {
        let mut i: usize = 0;
        assert(self@.skip(0) =~= self@);
        while i < self.entries.len()
            invariant
                i <= self.entries.len(),
                first_index_of(self@, scheme_id@) == match first_index_of(
                    self@.skip(i as int),
                    scheme_id@,
                ) {
                    Some(k) => Some(k + i),
                    None => None,
                },
            decreases self.entries.len() - i,
        {
            let ghost rest = self@.skip(i as int);
            assert(rest[0] == self.entries@[i as int].scheme_id@);
            assert(rest.drop_first() =~= self@.skip(i + 1));
            if self.entries[i].scheme_id.is(scheme_id) {
                return Some(&self.entries[i].scheme);
            }
            i += 1;
        }
        assert(self@.skip(i as int).len() == 0);
        None
    }
}

} // verus!
