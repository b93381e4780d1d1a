//! Identities: the credentials that requests are signed with, and the
//! registry of the sources that resolve them.

use crate::auth::AuthSchemeId;
use crate::config_bag::Properties;
use crate::date_time::DateTime;
use crate::interceptors::error::BoxError;
use crate::type_erasure::TypeErasedBox;
use std::sync::Arc;
use vstd::prelude::*;

verus! {

/// A resolved credential, usable by the signer of one auth scheme, and the
/// time at which it expires, if it does.
#[derive(Debug)]
pub struct Identity {
    data: TypeErasedBox,
    expiration: Option<DateTime>,
}

impl Identity {
    /// The identity made of `data`, valid until `expiration`.
    pub fn new(data: TypeErasedBox, expiration: Option<DateTime>) -> (r: Self)
        ensures
            r.spec_data() == data,
            r.spec_expiration() == expiration,
    {
        Identity { data, expiration }
    }

    /// The credential.
    pub closed spec fn spec_data(&self) -> TypeErasedBox {
        self.data
    }

    /// The time of expiry.
    pub closed spec fn spec_expiration(&self) -> Option<DateTime> {
        self.expiration
    }

    /// The credential.
    pub fn data(&self) -> (r: &TypeErasedBox)
        ensures
            *r == self.spec_data(),
    {
        &self.data
    }

    /// The time at which the identity expires; `None` if it does not.
    pub fn expiration(&self) -> (r: Option<DateTime>)
        ensures
            r == self.spec_expiration(),
    {
        self.expiration
    }
}

/// A source of identities. Nothing is known of what an implementation
/// returns: the orchestrator handles every outcome.
pub trait IdentityResolver: Send + Sync {
    /// Resolves the identity to sign with. The resolver is handed the plain
    /// entries of the configuration.
    fn resolve_identity(&self, cfg: &Properties) -> Result<Identity, BoxError>;
}

/// An identity resolver that many calls may share.
pub struct SharedIdentityResolver(Arc<Box<dyn IdentityResolver>>);

impl SharedIdentityResolver {
    /// Wraps `resolver` for sharing.
    pub fn new<R: IdentityResolver + 'static>(resolver: R) -> Self {
        let boxed: Box<dyn IdentityResolver> = Box::new(resolver);
        SharedIdentityResolver(Arc::new(boxed))
    }

    /// Asks the resolver for an identity.
    pub fn resolve_identity(&self, cfg: &Properties) -> Result<Identity, BoxError> {
        self.0.resolve_identity(cfg)
    }
}

/// One entry of the registry: the scheme that the resolver serves.
pub struct IdentityResolverEntry {
    pub scheme_id: AuthSchemeId,
    pub resolver: SharedIdentityResolver,
}

/// The registry of identity resolvers, each registered for one auth scheme.
pub struct IdentityResolvers {
    entries: Vec<IdentityResolverEntry>,
}

/// The index of the first of `ids` that equals `id`, if any does.
pub open spec fn first_index_of(ids: Seq<Seq<char>>, id: Seq<char>) -> Option<int>
    decreases ids.len(),
{
    if ids.len() == 0 {
        None
    } else if ids[0] == id {
        Some(0)
    } else {
        match first_index_of(ids.drop_first(), id) {
            Some(i) => Some(i + 1),
            None => None,
        }
    }
}

/// `first_index_of` finds an index of `id`, and the first one; it finds
/// none only where `id` does not occur.
pub proof fn lemma_first_index_of(ids: Seq<Seq<char>>, id: Seq<char>)
    ensures
        match first_index_of(ids, id) {
            Some(i) => 0 <= i < ids.len() && ids[i] == id && forall|j: int|
                0 <= j < i ==> ids[j] != id,
            None => forall|j: int| 0 <= j < ids.len() ==> ids[j] != id,
        },
    decreases ids.len(),
{
    if ids.len() > 0 && ids[0] != id {
        let rest = ids.drop_first();
        lemma_first_index_of(rest, id);
        match first_index_of(rest, id) {
            Some(i) => {
                assert forall|j: int| 0 <= j < i + 1 implies ids[j] != id by {
                    if j > 0 {
                        assert(ids[j] == rest[j - 1]);
                    }
                }
            },
            None => {
                assert forall|j: int| 0 <= j < ids.len() implies ids[j] != id by {
                    if j > 0 {
                        assert(ids[j] == rest[j - 1]);
                    }
                }
            },
        }
    }
}

impl View for IdentityResolvers {
    type V = Seq<Seq<char>>;

    /// The schemes for which a resolver is registered, in the order of
    /// registration.
    closed spec fn view(&self) -> Seq<Seq<char>> {
        Seq::new(self.entries@.len(), |i: int| self.entries@[i].scheme_id@)
    }
}

impl IdentityResolvers {
    /// The resolver registered at `index`.
    pub closed spec fn spec_resolver(&self, index: int) -> SharedIdentityResolver {
        self.entries@[index].resolver
    }

    /// A registry without resolvers.
    pub fn new() -> (r: Self)
        ensures
            r@ == Seq::<Seq<char>>::empty(),
    {
        let r = IdentityResolvers { entries: Vec::new() };
        assert(r@ =~= Seq::<Seq<char>>::empty());
        r
    }

    /// Registers `resolver` for the scheme `scheme_id`, after those that are
    /// registered already.
    pub fn register(&mut self, scheme_id: AuthSchemeId, resolver: SharedIdentityResolver)
        ensures
            final(self)@ == old(self)@.push(scheme_id@),
            final(self).spec_resolver(old(self)@.len() as int) == resolver,
            forall|i: int|
                0 <= i < old(self)@.len() ==> final(self).spec_resolver(i) == old(
                    self,
                ).spec_resolver(i),
    {
        self.entries.push(IdentityResolverEntry { scheme_id, resolver });
        assert(self@ =~= old(self)@.push(scheme_id@));
    }

    /// The resolver for the scheme `scheme_id`: the first registered for it.
    pub fn identity_resolver(&self, scheme_id: &AuthSchemeId) -> (r: Option<&SharedIdentityResolver>)
        ensures
            match first_index_of(self@, scheme_id@) {
                Some(i) => r == Some(&self.spec_resolver(i)),
                None => r is None,
            },
    {
        let mut i: usize = 0;
        assert(self@.skip(0) =~= self@);
        while i < self.entries.len()
            invariant
                i <= self.entries.len(),
                first_index_of(self@, scheme_id@) == match first_index_of(
                    self@.skip(i as int),
                    scheme_id@,
                ) {
                    Some(k) => Some(k + i),
                    None => None,
                },
            decreases self.entries.len() - i,
        {
            let ghost rest = self@.skip(i as int);
            assert(rest[0] == self.entries@[i as int].scheme_id@);
            assert(rest.drop_first() =~= self@.skip(i + 1));
            if self.entries[i].scheme_id.is(scheme_id) {
                return Some(&self.entries[i].resolver);
            }
            i += 1;
        }
        assert(self@.skip(i as int).len() == 0);
        None
    }
}

} // verus!
