//! Auth orchestration: picks the auth scheme of an attempt, resolves its
//! identity and signs the request.

use crate::auth::{scheme_names, AuthSchemeId, HttpAuthScheme, HttpAuthSchemes};
use crate::config_bag::{ConfigBag, Properties};
use crate::identity::{first_index_of, lemma_first_index_of, Identity, IdentityResolvers};
use crate::interceptors::context::{AttemptCheckpoint, ContextView, Error, Phase};
use crate::interceptors::error::BoxError;
use vstd::prelude::*;

verus! {

/// Why an attempt could not be authenticated. None of these is retried
/// within the attempt.
#[derive(Debug)]
pub enum AuthError {
    /// The auth options, or the identity, could not be resolved.
    ConstructionFailure(BoxError),
    /// No auth option has both a registered scheme and a source of
    /// identities. This is a fault of the configuration.
    NoAuthSchemeMatched,
    /// The signer of the selected scheme failed.
    Signing(BoxError),
}

impl AuthError {
    /// What the error says.
    pub fn message(&self) -> (r: &str)
        ensures
            match *self {
                AuthError::ConstructionFailure(source) => r@ == source@,
                AuthError::Signing(source) => r@ == source@,
                AuthError::NoAuthSchemeMatched => r@
                    == "no auth scheme matched auth options. This is a bug. Please file an issue."@,
            },
    {
        match self {
            AuthError::ConstructionFailure(source) => source.message(),
            AuthError::Signing(source) => source.message(),
            AuthError::NoAuthSchemeMatched => {
                "no auth scheme matched auth options. This is a bug. Please file an issue."
            },
        }
    }
}

/// An attempt that could not be authenticated: why, and the attempt. Where
/// the signer failed, the attempt holds the request as the signer left it;
/// otherwise it is the attempt as it was handed in.
#[derive(Debug)]
pub struct AuthFailure {
    pub error: AuthError,
    pub checkpoint: AttemptCheckpoint,
}

/// Whether `failure` hands back the attempt `checkpoint` as a failed
/// authentication does: unchanged, unless the signer failed; then with the
/// same checkpointed request and with nothing changed but what the signer
/// did to the request.
pub open spec fn handed_back(checkpoint: AttemptCheckpoint, failure: AuthFailure) -> bool {
    match failure.error {
        AuthError::Signing(_) => {
            &&& failure.checkpoint.wf()
            &&& failure.checkpoint.pristine() == checkpoint.pristine()
            &&& signed_from(checkpoint.spec_context()@, failure.checkpoint.spec_context()@)
        },
        _ => failure.checkpoint == checkpoint,
    }
}

/// The names of the auth options of `cfg`, best first, where `cfg` holds
/// them as a fixed list; `None` where it holds a resolver whose answer is
/// not known before it is asked.
pub open spec fn static_options(cfg: &ConfigBag) -> Option<Seq<Seq<char>>> {
    cfg@.auth_option_resolver->0.static_options()
}

/// Whether `after` is what signing makes of `before`: the same context,
/// but for what the signer did to the request.
pub open spec fn signed_from(before: ContextView, after: ContextView) -> bool {
    &&& after.request is Some
    &&& after == (ContextView { request: after.request, ..before })
}

/// Whether `after` is what a failed signing makes of `before`: the signer's
/// error stands in the place of the output, the context is in its last
/// phase, and nothing else has changed but what the signer did to the
/// request.
pub open spec fn signing_failed_from(before: ContextView, after: ContextView) -> bool {
    &&& after.request is Some
    &&& after.output_or_error matches Some(Err(Error::Auth(AuthError::Signing(_))))
    &&& after == (ContextView {
        phase: Phase::AfterDeserialization,
        request: after.request,
        output_or_error: after.output_or_error,
        ..before
    })
}

/// Whether the auth option `option` can be used: a scheme is registered
/// under it, and an identity resolver is registered for that scheme.
pub open spec fn usable(option: Seq<char>, schemes: &HttpAuthSchemes, resolvers: &IdentityResolvers) -> bool {
    match first_index_of(schemes@, option) {
        Some(k) => first_index_of(resolvers@, schemes.spec_scheme(k).spec_scheme_id()) is Some,
        None => false,
    }
}

/// The auth option that is selected: the first of `options`, in their
/// order, that can be used.
pub open spec fn selected(
    options: Seq<Seq<char>>,
    schemes: &HttpAuthSchemes,
    resolvers: &IdentityResolvers,
) -> Option<int>
    decreases options.len(),
{
    if options.len() == 0 {
        None
    } else if usable(options[0], schemes, resolvers) {
        Some(0)
    } else {
        match selected(options.drop_first(), schemes, resolvers) {
            Some(i) => Some(i + 1),
            None => None,
        }
    }
}

/// The selected option can be used and none before it can; no option is
/// selected only where none can be used. The order of the options alone
/// decides between those that can be used, not the order of registration.
pub proof fn lemma_selected(
    options: Seq<Seq<char>>,
    schemes: &HttpAuthSchemes,
    resolvers: &IdentityResolvers,
)
    ensures
        match selected(options, schemes, resolvers) {
            Some(i) => {
                &&& 0 <= i < options.len()
                &&& usable(options[i], schemes, resolvers)
                &&& forall|j: int| 0 <= j < i ==> !usable(options[j], schemes, resolvers)
            },
            None => forall|j: int| 0 <= j < options.len() ==> !usable(options[j], schemes, resolvers),
        },
    decreases options.len(),
{
    if options.len() > 0 && !usable(options[0], schemes, resolvers) {
        let rest = options.drop_first();
        lemma_selected(rest, schemes, resolvers);
        match selected(rest, schemes, resolvers) {
            Some(i) => {
                assert forall|j: int| 0 <= j < i + 1 implies !usable(
                    options[j],
                    schemes,
                    resolvers,
                ) by {
                    if j > 0 {
                        assert(options[j] == rest[j - 1]);
                    }
                }
            },
            None => {
                assert forall|j: int| 0 <= j < options.len() implies !usable(
                    options[j],
                    schemes,
                    resolvers,
                ) by {
                    if j > 0 {
                        assert(options[j] == rest[j - 1]);
                    }
                }
            },
        }
    }
}

/// Given the auth options `[first, second]`, with no scheme registered
/// under `first` and, under `second`, a scheme that has an identity
/// resolver, the second option is selected.
pub proof fn lemma_second_option_selected(
    first: Seq<char>,
    second: Seq<char>,
    schemes: &HttpAuthSchemes,
    resolvers: &IdentityResolvers,
)
    requires
        !schemes@.contains(first),
        usable(second, schemes, resolvers),
    ensures
        selected(seq![first, second], schemes, resolvers) == Some(1int),
{
    let options = seq![first, second];
    lemma_first_index_of(schemes@, first);
    lemma_selected(options, schemes, resolvers);
    assert(options[0] == first);
    assert(options[1] == second);
    assert(!usable(options[0], schemes, resolvers));
}

/// Where no scheme is registered under any of the auth options, none is
/// selected.
pub proof fn lemma_nothing_registered_nothing_selected(
    options: Seq<Seq<char>>,
    schemes: &HttpAuthSchemes,
    resolvers: &IdentityResolvers,
)
    requires
        forall|i: int| 0 <= i < options.len() ==> !schemes@.contains(#[trigger] options[i]),
    ensures
        selected(options, schemes, resolvers) is None,
{
    lemma_selected(options, schemes, resolvers);
    assert forall|i: int| 0 <= i < options.len() implies !usable(
        #[trigger] options[i],
        schemes,
        resolvers,
    ) by {
        lemma_first_index_of(schemes@, options[i]);
    }
}

/// Picks the auth option to use: the first of `options` under which a
/// scheme is registered whose identity resolver is registered too. Returns
/// its index in `options`.
pub fn select_auth_scheme(
    options: &Vec<AuthSchemeId>,
    schemes: &HttpAuthSchemes,
    resolvers: &IdentityResolvers,
) -> (r: Option<usize>)
    ensures
        match selected(scheme_names(options@), schemes, resolvers) {
            Some(i) => r == Some(i as usize) && 0 <= i < options.len(),
            None => r is None,
        },
        r matches Some(i) ==> i < options.len(),
{
    let ghost names = scheme_names(options@);
    let mut i: usize = 0;
    assert(names.skip(0) =~= names);
    while i < options.len()
        invariant
            i <= options.len(),
            names == scheme_names(options@),
            selected(names, schemes, resolvers) == match selected(
                names.skip(i as int),
                schemes,
                resolvers,
            ) {
                Some(k) => Some(k + i),
                None => None,
            },
        decreases options.len() - i,
    {
        let ghost rest = names.skip(i as int);
        assert(rest[0] == options[i as int]@);
        assert(rest.drop_first() =~= names.skip(i + 1));
        match schemes.scheme(&options[i]) {
            Some(scheme) => {
                if scheme.identity_resolver(resolvers).is_some() {
                    proof {
                        lemma_selected(rest, schemes, resolvers);
                    }
                    return Some(i);
                }
            },
            None => {},
        }
        i += 1;
    }
    assert(names.skip(i as int).len() == 0);
    None
}

/// What the orchestrator makes of the signer's return: a request that was
/// signed stays with the attempt, which goes on; a signer's error fails the
/// authentication, as a hook's error fails a dispatch pass.
pub fn settle_signing(checkpoint: AttemptCheckpoint, signed: Result<(), BoxError>) -> (r: Result<
    AttemptCheckpoint,
    AuthFailure,
>)
    ensures
        match signed {
            Ok(_) => r == Ok::<AttemptCheckpoint, AuthFailure>(checkpoint),
            Err(source) => r == Err::<AttemptCheckpoint, AuthFailure>(
                AuthFailure { error: AuthError::Signing(source), checkpoint },
            ),
        },
{
    match signed {
        Ok(_) => Ok(checkpoint),
        Err(source) => Err(AuthFailure { error: AuthError::Signing(source), checkpoint }),
    }
}

/// Signs the request of the attempt with `scheme`, given what resolving the
/// identity came to. An identity that could not be resolved is a
/// construction failure, and the signer is not called. Otherwise the signer
/// is handed the request held in the checkpoint, to change in place, and
/// `settle_signing` says what becomes of its return: the attempt with the
/// signed request, or the signer's error.
pub fn sign_with_identity(
    checkpoint: AttemptCheckpoint,
    scheme: &HttpAuthScheme,
    identity: Result<Identity, BoxError>,
    cfg: &Properties,
) -> (r: Result<AttemptCheckpoint, AuthFailure>)
    requires
        checkpoint.wf(),
    ensures
        match identity {
            Err(source) => r == Err::<AttemptCheckpoint, AuthFailure>(
                AuthFailure { error: AuthError::ConstructionFailure(source), checkpoint },
            ),
            Ok(_) => match r {
                Ok(signed) => {
                    &&& signed.wf()
                    &&& signed.pristine() == checkpoint.pristine()
                    &&& signed_from(checkpoint.spec_context()@, signed.spec_context()@)
                },
                Err(failure) => failure.error is Signing && handed_back(checkpoint, failure),
            },
        },
{
    match identity {
        Err(source) => Err(
            AuthFailure { error: AuthError::ConstructionFailure(source), checkpoint },
        ),
        Ok(identity) => {
            let mut checkpoint = checkpoint;
            let signed = scheme.sign_request(
                checkpoint.before_transmit().request_mut(),
                &identity,
                cfg,
            );
            settle_signing(checkpoint, signed)
        },
    }
}

/// Authenticates the attempt with the first of `options` that can be used.
/// Where none can, the attempt fails with `NoAuthSchemeMatched` and nothing
/// is resolved or signed. Otherwise the identity of the selected scheme is
/// resolved and `sign_with_identity` does the rest.
pub fn authenticate(checkpoint: AttemptCheckpoint, cfg: &ConfigBag, options: &Vec<AuthSchemeId>) -> (r:
    Result<AttemptCheckpoint, AuthFailure>)
    requires
        checkpoint.wf(),
        cfg.ready_for_auth(),
    ensures
        selected(
            scheme_names(options@),
            &cfg@.http_auth_schemes->0,
            &cfg@.identity_resolvers->0,
        ) is None ==> r == Err::<AttemptCheckpoint, AuthFailure>(
            AuthFailure { error: AuthError::NoAuthSchemeMatched, checkpoint },
        ),
        selected(
            scheme_names(options@),
            &cfg@.http_auth_schemes->0,
            &cfg@.identity_resolvers->0,
        ) is Some ==> !(r matches Err(failure) && failure.error is NoAuthSchemeMatched),
        r matches Err(failure) ==> handed_back(checkpoint, failure),
        r matches Ok(signed) ==> {
            &&& signed.wf()
            &&& signed.pristine() == checkpoint.pristine()
            &&& signed_from(checkpoint.spec_context()@, signed.spec_context()@)
        },
{
    let schemes = cfg.http_auth_schemes();
    let resolvers = cfg.identity_resolvers();
    proof {
        lemma_selected(scheme_names(options@), schemes, resolvers);
    }
    match select_auth_scheme(options, schemes, resolvers) {
        None => Err(AuthFailure { error: AuthError::NoAuthSchemeMatched, checkpoint }),
        Some(i) => {
            assert(scheme_names(options@)[i as int] == options[i as int]@);
            let scheme = schemes.scheme(&options[i]).unwrap();
            let resolver = scheme.identity_resolver(resolvers).unwrap();
            let identity = resolver.resolve_identity(cfg.properties());
            sign_with_identity(checkpoint, scheme, identity, cfg.properties())
        },
    }
}

/// Authenticates an attempt: resolves the auth options of the call, in
/// their order of preference, and hands them to `authenticate`.
///
/// Options that cannot be resolved are a construction failure with the
/// resolver's error. Where none of the resolved options can be used, the
/// attempt fails with `NoAuthSchemeMatched`; where one can, it does not:
/// with a fixed list of options the configuration alone decides which of
/// the two it is. A signer that fails fails the authentication with its
/// error. Every failure hands the attempt back: as it was, unless the
/// signer failed, and then as the signer left it. Where the authentication
/// succeeds, nothing of the attempt has changed but what the signer did to
/// the request.
pub fn orchestrate_auth(checkpoint: AttemptCheckpoint, cfg: &ConfigBag) -> (r: Result<
    AttemptCheckpoint,
    AuthFailure,
>)
    requires
        checkpoint.wf(),
        cfg.ready_for_auth(),
    ensures
        static_options(cfg) matches Some(names) ==> match selected(
            names,
            &cfg@.http_auth_schemes->0,
            &cfg@.identity_resolvers->0,
        ) {
            None => r == Err::<AttemptCheckpoint, AuthFailure>(
                AuthFailure { error: AuthError::NoAuthSchemeMatched, checkpoint },
            ),
            Some(_) => !(r matches Err(failure) && failure.error is NoAuthSchemeMatched),
        },
        r matches Err(failure) ==> handed_back(checkpoint, failure),
        r matches Ok(signed) ==> {
            &&& signed.wf()
            &&& signed.pristine() == checkpoint.pristine()
            &&& signed_from(checkpoint.spec_context()@, signed.spec_context()@)
        },
{
    let params = cfg.auth_option_resolver_params();
    let resolved = cfg.auth_option_resolver().resolve_auth_options(params);
    authenticate_resolved(checkpoint, cfg, resolved)
}

/// Authenticates an attempt, given what resolving the auth options came to:
/// an error is a construction failure that hands the attempt back as it
/// was; options are handed to `authenticate`.
pub fn authenticate_resolved(
    checkpoint: AttemptCheckpoint,
    cfg: &ConfigBag,
    resolved: Result<Vec<AuthSchemeId>, BoxError>,
) -> (r: Result<AttemptCheckpoint, AuthFailure>)
    requires
        checkpoint.wf(),
        cfg.ready_for_auth(),
    ensures
        match resolved {
            Err(source) => r == Err::<AttemptCheckpoint, AuthFailure>(
                AuthFailure { error: AuthError::ConstructionFailure(source), checkpoint },
            ),
            Ok(options) => match selected(
                scheme_names(options@),
                &cfg@.http_auth_schemes->0,
                &cfg@.identity_resolvers->0,
            ) {
                None => r == Err::<AttemptCheckpoint, AuthFailure>(
                    AuthFailure { error: AuthError::NoAuthSchemeMatched, checkpoint },
                ),
                Some(_) => !(r matches Err(failure) && failure.error is NoAuthSchemeMatched),
            },
        },
        r matches Err(failure) ==> handed_back(checkpoint, failure),
        r matches Ok(signed) ==> {
            &&& signed.wf()
            &&& signed.pristine() == checkpoint.pristine()
            &&& signed_from(checkpoint.spec_context()@, signed.spec_context()@)
        },
{
    match resolved {
        Err(source) => Err(
            AuthFailure { error: AuthError::ConstructionFailure(source), checkpoint },
        ),
        Ok(options) => authenticate(checkpoint, cfg, &options),
    }
}

} // verus!
