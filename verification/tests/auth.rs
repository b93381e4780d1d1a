use smithy_orchestrator::auth::{
    AuthOptionResolver, AuthOptionResolverParams, AuthSchemeId, ConfiguredAuthOptionResolver,
    HttpAuthScheme, HttpAuthSchemes, HttpRequestSigner, StaticAuthOptionResolver,
};
use smithy_orchestrator::config_bag::{ConfigBag, Properties};
use smithy_orchestrator::date_time::DateTime;
use smithy_orchestrator::http::Request;
use smithy_orchestrator::identity::{
    Identity, IdentityResolver, IdentityResolvers, SharedIdentityResolver,
};
use smithy_orchestrator::interceptors::context::{
    AttemptCheckpoint, Error, InterceptorContext, Phase,
};
use smithy_orchestrator::interceptors::error::BoxError;
use smithy_orchestrator::orchestrator::auth::{
    authenticate, authenticate_resolved, orchestrate_auth, select_auth_scheme, settle_signing,
    sign_with_identity, AuthError,
};
use smithy_orchestrator::type_erasure::TypeErasedBox;
use std::sync::atomic::{AtomicUsize, Ordering};
use std::sync::Arc;

const HTTP_BASIC: &str = "http-basic-auth";
const HTTP_BEARER: &str = "http-bearer-auth";
const LOGIN: u64 = 1;
const TOKEN: u64 = 2;

fn base64(input: &[u8]) -> String {
    let alphabet = b"ABCDEFGHIJKLMNOPQRSTUVWXYZabcdefghijklmnopqrstuvwxyz0123456789+/";
    let mut out = String::new();
    for chunk in input.chunks(3) {
        let b = [chunk[0], *chunk.get(1).unwrap_or(&0), *chunk.get(2).unwrap_or(&0)];
        let n = ((b[0] as u32) << 16) | ((b[1] as u32) << 8) | b[2] as u32;
        out.push(alphabet[(n >> 18) as usize & 63] as char);
        out.push(alphabet[(n >> 12) as usize & 63] as char);
        out.push(if chunk.len() > 1 { alphabet[(n >> 6) as usize & 63] as char } else { '=' });
        out.push(if chunk.len() > 2 { alphabet[n as usize & 63] as char } else { '=' });
    }
    out
}

struct BasicSigner;
impl HttpRequestSigner for BasicSigner {
    fn sign_request(
        &self,
        request: &mut Request,
        identity: &Identity,
        _: &Properties,
    ) -> Result<(), BoxError> {
        if identity.data().type_id() != LOGIN {
            return Err(BoxError::new("not a login"));
        }
        let value = format!("Basic {}", base64(identity.data().content()));
        request.set_header("Authorization", &value);
        Ok(())
    }
}

struct BearerSigner;
impl HttpRequestSigner for BearerSigner {
    fn sign_request(
        &self,
        request: &mut Request,
        identity: &Identity,
        _: &Properties,
    ) -> Result<(), BoxError> {
        if identity.data().type_id() != TOKEN {
            return Err(BoxError::new("not a token"));
        }
        let token = String::from_utf8(identity.data().content().clone()).unwrap();
        request.set_header("Authorization", &format!("Bearer {}", token));
        Ok(())
    }
}

struct FixedIdentity {
    type_id: u64,
    content: &'static str,
    calls: Arc<AtomicUsize>,
}
impl IdentityResolver for FixedIdentity {
    fn resolve_identity(&self, _: &Properties) -> Result<Identity, BoxError> {
        self.calls.fetch_add(1, Ordering::SeqCst);
        Ok(Identity::new(
            TypeErasedBox::new(self.type_id, self.content.as_bytes().to_vec()),
            None,
        ))
    }
}

struct NoIdentity;
impl IdentityResolver for NoIdentity {
    fn resolve_identity(&self, _: &Properties) -> Result<Identity, BoxError> {
        Err(BoxError::new("no credentials"))
    }
}

struct FailingOptions;
impl AuthOptionResolver for FailingOptions {
    fn resolve_auth_options(
        &self,
        _: &AuthOptionResolverParams,
    ) -> Result<Vec<AuthSchemeId>, BoxError> {
        Err(BoxError::new("no options"))
    }
}

fn login(user: &'static str) -> SharedIdentityResolver {
    SharedIdentityResolver::new(FixedIdentity {
        type_id: LOGIN,
        content: user,
        calls: Arc::new(AtomicUsize::new(0)),
    })
}

fn token(token: &'static str) -> SharedIdentityResolver {
    SharedIdentityResolver::new(FixedIdentity {
        type_id: TOKEN,
        content: token,
        calls: Arc::new(AtomicUsize::new(0)),
    })
}

fn both_schemes() -> HttpAuthSchemes {
    let mut schemes = HttpAuthSchemes::new();
    schemes.register(
        AuthSchemeId::new(HTTP_BASIC),
        HttpAuthScheme::new(AuthSchemeId::new(HTTP_BASIC), BasicSigner),
    );
    schemes.register(
        AuthSchemeId::new(HTTP_BEARER),
        HttpAuthScheme::new(AuthSchemeId::new(HTTP_BEARER), BearerSigner),
    );
    schemes
}

fn checkpoint() -> AttemptCheckpoint {
    let context = InterceptorContext::new(TypeErasedBox::new(1, b"doesnt-matter".to_vec()))
        .into_before_transmit(Request::new(vec![]));
    AttemptCheckpoint::new(context)
}

fn config(options: &[&str], schemes: HttpAuthSchemes, resolvers: IdentityResolvers) -> ConfigBag {
    let mut cfg = ConfigBag::base();
    assert!(!cfg.is_ready_for_auth());
    cfg.set_auth_option_resolver_params(AuthOptionResolverParams(TypeErasedBox::new(
        0,
        b"doesntmatter".to_vec(),
    )));
    cfg.set_static_auth_option_resolver(StaticAuthOptionResolver::new(
        options.iter().map(|name| AuthSchemeId::new(name)).collect(),
    ));
    cfg.set_identity_resolvers(resolvers);
    cfg.set_http_auth_schemes(schemes);
    assert!(cfg.is_ready_for_auth());
    cfg
}

fn authorization(checkpoint: &AttemptCheckpoint) -> Option<String> {
    checkpoint.context().request().header("Authorization").cloned()
}

#[test]
fn basic_case() {
    struct TestSigner;
    impl HttpRequestSigner for TestSigner {
        fn sign_request(
            &self,
            request: &mut Request,
            _: &Identity,
            _: &Properties,
        ) -> Result<(), BoxError> {
            request.set_header("Authorization", "success!");
            Ok(())
        }
    }
    let mut resolvers = IdentityResolvers::new();
    resolvers.register(AuthSchemeId::new("test-scheme"), login("doesntmatter"));
    let mut schemes = HttpAuthSchemes::new();
    schemes.register(
        AuthSchemeId::new("test-scheme"),
        HttpAuthScheme::new(AuthSchemeId::new("test-scheme"), TestSigner),
    );
    let cfg = config(&["test-scheme"], schemes, resolvers);

    let checkpoint = orchestrate_auth(checkpoint(), &cfg).expect("success");

    assert_eq!("success!", authorization(&checkpoint).unwrap());
    assert_eq!(checkpoint.context().phase(), Phase::BeforeTransmit);
}

#[test]
fn select_best_scheme_for_available_identity_resolvers() {
    // First, test the presence of a basic auth login and absence of a bearer token
    let mut resolvers = IdentityResolvers::new();
    resolvers.register(AuthSchemeId::new(HTTP_BASIC), login("a:b"));
    let cfg = config(&[HTTP_BASIC, HTTP_BEARER], both_schemes(), resolvers);

    let signed = orchestrate_auth(checkpoint(), &cfg).expect("success");
    assert_eq!(
        // "YTpi" == "a:b" in base64
        "Basic YTpi",
        authorization(&signed).unwrap()
    );

    // Next, test the presence of a bearer token and absence of basic auth
    let mut resolvers = IdentityResolvers::new();
    resolvers.register(AuthSchemeId::new(HTTP_BEARER), token("t"));
    let cfg = config(&[HTTP_BASIC, HTTP_BEARER], both_schemes(), resolvers);

    let signed = orchestrate_auth(checkpoint(), &cfg).expect("success");
    assert_eq!("Bearer t", authorization(&signed).unwrap());
}

#[test]
fn the_second_option_signs_where_only_it_has_scheme_and_identity() {
    // a scheme only for the second option, an identity resolver only for the second option
    let mut schemes = HttpAuthSchemes::new();
    schemes.register(
        AuthSchemeId::new(HTTP_BEARER),
        HttpAuthScheme::new(AuthSchemeId::new(HTTP_BEARER), BearerSigner),
    );
    let mut resolvers = IdentityResolvers::new();
    resolvers.register(AuthSchemeId::new(HTTP_BEARER), token("secret"));
    let options = vec![AuthSchemeId::new(HTTP_BASIC), AuthSchemeId::new(HTTP_BEARER)];
    assert_eq!(select_auth_scheme(&options, &schemes, &resolvers), Some(1));
    let cfg = config(&[HTTP_BASIC, HTTP_BEARER], schemes, resolvers);
    let signed = orchestrate_auth(checkpoint(), &cfg).unwrap();
    assert_eq!("Bearer secret", authorization(&signed).unwrap());
}

#[test]
fn the_order_of_the_options_decides_not_the_order_of_registration() {
    let mut resolvers = IdentityResolvers::new();
    resolvers.register(AuthSchemeId::new(HTTP_BASIC), login("a:b"));
    resolvers.register(AuthSchemeId::new(HTTP_BEARER), token("t"));
    // basic is registered first, bearer is listed first
    let options = vec![AuthSchemeId::new(HTTP_BEARER), AuthSchemeId::new(HTTP_BASIC)];
    assert_eq!(select_auth_scheme(&options, &both_schemes(), &resolvers), Some(0));
    let cfg = config(&[HTTP_BEARER, HTTP_BASIC], both_schemes(), resolvers);
    let signed = authenticate(checkpoint(), &cfg, &options).unwrap();
    assert_eq!("Bearer t", authorization(&signed).unwrap());

    // a scheme without an identity resolver is passed over
    let mut resolvers = IdentityResolvers::new();
    resolvers.register(AuthSchemeId::new(HTTP_BASIC), login("a:b"));
    assert_eq!(select_auth_scheme(&options, &both_schemes(), &resolvers), Some(1));
    assert_eq!(select_auth_scheme(&Vec::new(), &both_schemes(), &resolvers), None);
    assert_eq!(
        select_auth_scheme(&vec![AuthSchemeId::new(HTTP_BEARER)], &both_schemes(), &resolvers),
        None
    );
}

#[test]
fn no_registered_scheme_means_no_auth_scheme_matched() {
    let calls = Arc::new(AtomicUsize::new(0));
    let mut resolvers = IdentityResolvers::new();
    resolvers.register(
        AuthSchemeId::new(HTTP_BASIC),
        SharedIdentityResolver::new(FixedIdentity {
            type_id: LOGIN,
            content: "a:b",
            calls: calls.clone(),
        }),
    );
    let cfg = config(&[HTTP_BASIC], HttpAuthSchemes::new(), resolvers);
    let failure = orchestrate_auth(checkpoint(), &cfg).unwrap_err();
    assert_eq!(failure.checkpoint.context().phase(), Phase::BeforeTransmit);
    assert!(authorization(&failure.checkpoint).is_none());
    let error = failure.error;
    assert!(matches!(error, AuthError::NoAuthSchemeMatched));
    assert_eq!(
        error.message(),
        "no auth scheme matched auth options. This is a bug. Please file an issue."
    );
    // nothing was resolved
    assert_eq!(calls.load(Ordering::SeqCst), 0);

    // nor is there a match without any option
    let cfg = config(&[], both_schemes(), IdentityResolvers::new());
    assert!(matches!(
        orchestrate_auth(checkpoint(), &cfg).unwrap_err().error,
        AuthError::NoAuthSchemeMatched
    ));
}

#[test]
fn failures_to_resolve_are_construction_failures() {
    // the auth options cannot be resolved
    let mut cfg = config(&[HTTP_BASIC], both_schemes(), IdentityResolvers::new());
    cfg.set_auth_option_resolver(FailingOptions);
    match orchestrate_auth(checkpoint(), &cfg).unwrap_err().error {
        AuthError::ConstructionFailure(source) => assert_eq!(source.message(), "no options"),
        other => panic!("unexpected {:?}", other),
    }

    // the identity cannot be resolved
    let mut resolvers = IdentityResolvers::new();
    resolvers.register(AuthSchemeId::new(HTTP_BASIC), SharedIdentityResolver::new(NoIdentity));
    let cfg = config(&[HTTP_BASIC], both_schemes(), resolvers);
    let error = orchestrate_auth(checkpoint(), &cfg).unwrap_err().error;
    assert_eq!(error.message(), "no credentials");
    assert!(matches!(error, AuthError::ConstructionFailure(_)));

    let schemes = both_schemes();
    let scheme = schemes.scheme(&AuthSchemeId::new(HTTP_BASIC)).unwrap();
    let failure =
        sign_with_identity(checkpoint(), scheme, Err(BoxError::new("late")), cfg.properties())
            .unwrap_err();
    assert_eq!(failure.error.message(), "late");
    assert!(authorization(&failure.checkpoint).is_none());
}

#[test]
fn a_signer_failure_fails_the_authentication() {
    // the basic scheme is handed a token
    let mut resolvers = IdentityResolvers::new();
    resolvers.register(AuthSchemeId::new(HTTP_BASIC), token("t"));
    let cfg = config(&[HTTP_BASIC], both_schemes(), resolvers);
    let failure = orchestrate_auth(checkpoint(), &cfg).unwrap_err();
    match &failure.error {
        AuthError::Signing(source) => assert_eq!(source.message(), "not a login"),
        other => panic!("unexpected {:?}", other),
    }
    assert_eq!(failure.error.message(), "not a login");
    // the attempt comes back as the signer left it: in its phase, without a signature
    assert_eq!(failure.checkpoint.context().phase(), Phase::BeforeTransmit);
    assert!(failure.checkpoint.context().is_well_formed());
    assert!(authorization(&failure.checkpoint).is_none());

    // a signer that fails after it has begun to sign
    struct HalfSigner;
    impl HttpRequestSigner for HalfSigner {
        fn sign_request(
            &self,
            request: &mut Request,
            _: &Identity,
            _: &Properties,
        ) -> Result<(), BoxError> {
            request.set_header("Authorization", "half");
            Err(BoxError::new("gave up"))
        }
    }
    let scheme = HttpAuthScheme::new(AuthSchemeId::new("half"), HalfSigner);
    let identity = Identity::new(TypeErasedBox::new(TOKEN, vec![]), None);
    let failure =
        sign_with_identity(checkpoint(), &scheme, Ok(identity), cfg.properties()).unwrap_err();
    assert!(matches!(failure.error, AuthError::Signing(_)));
    assert_eq!(authorization(&failure.checkpoint).unwrap(), "half");
    // the checkpointed request is out of the signer's reach
    let rewound = failure.checkpoint.rewind();
    assert!(authorization(&rewound).is_none());

    let settled = settle_signing(checkpoint(), Ok(())).unwrap();
    assert_eq!(settled.context().phase(), Phase::BeforeTransmit);
    let failure = settle_signing(checkpoint(), Err(BoxError::new("bad key"))).unwrap_err();
    assert_eq!(failure.checkpoint.context().phase(), Phase::BeforeTransmit);
    match failure.error {
        AuthError::Signing(source) => assert_eq!(source.message(), "bad key"),
        other => panic!("unexpected {:?}", other),
    }
}

#[test]
fn signers_and_resolvers_are_handed_the_plain_entries_of_the_configuration() {
    struct TimeSigner;
    impl HttpRequestSigner for TimeSigner {
        fn sign_request(
            &self,
            request: &mut Request,
            _: &Identity,
            cfg: &Properties,
        ) -> Result<(), BoxError> {
            let time = cfg.request_time.ok_or_else(|| BoxError::new("no request time"))?;
            request.set_header("x-signed-at", &format!("{}", time.secs()));
            Ok(())
        }
    }
    struct NamedIdentity;
    impl IdentityResolver for NamedIdentity {
        fn resolve_identity(&self, cfg: &Properties) -> Result<Identity, BoxError> {
            match &cfg.invocation_id {
                Some(id) => Ok(Identity::new(TypeErasedBox::new(TOKEN, id.clone().into_bytes()), None)),
                None => Err(BoxError::new("no invocation id")),
            }
        }
    }
    let mut schemes = HttpAuthSchemes::new();
    schemes.register(
        AuthSchemeId::new("timed"),
        HttpAuthScheme::new(AuthSchemeId::new("timed"), TimeSigner),
    );
    let mut resolvers = IdentityResolvers::new();
    resolvers.register(AuthSchemeId::new("timed"), SharedIdentityResolver::new(NamedIdentity));
    let mut cfg = config(&["timed"], schemes, resolvers);
    assert_eq!(
        orchestrate_auth(checkpoint(), &cfg).unwrap_err().error.message(),
        "no invocation id"
    );
    cfg.set_invocation_id("call-1".to_string());
    assert_eq!(
        orchestrate_auth(checkpoint(), &cfg).unwrap_err().error.message(),
        "no request time"
    );
    cfg.set_request_time(DateTime::from_secs(1_576_540_098));
    assert_eq!(cfg.properties().invocation_id.as_deref(), Some("call-1"));
    let signed = orchestrate_auth(checkpoint(), &cfg).unwrap();
    assert_eq!(signed.context().request().header("x-signed-at").unwrap(), "1576540098");
}

#[test]
fn registries_find_the_first_entry_of_a_scheme() {
    let mut resolvers = IdentityResolvers::new();
    assert!(resolvers.identity_resolver(&AuthSchemeId::new(HTTP_BASIC)).is_none());
    resolvers.register(AuthSchemeId::new(HTTP_BASIC), login("first"));
    resolvers.register(AuthSchemeId::new(HTTP_BASIC), login("second"));
    let found = resolvers.identity_resolver(&AuthSchemeId::new(HTTP_BASIC)).unwrap();
    let cfg = ConfigBag::base();
    assert_eq!(
        found.resolve_identity(cfg.properties()).unwrap().data().content(),
        b"first"
    );
    assert!(resolvers.identity_resolver(&AuthSchemeId::new(HTTP_BEARER)).is_none());

    let schemes = both_schemes();
    let scheme = schemes.scheme(&AuthSchemeId::new(HTTP_BEARER)).unwrap();
    assert_eq!(scheme.scheme_id().as_str(), HTTP_BEARER);
    assert!(scheme.identity_resolver(&resolvers).is_none());
    assert!(schemes
        .scheme(&AuthSchemeId::new(HTTP_BASIC))
        .unwrap()
        .identity_resolver(&resolvers)
        .is_some());
    assert!(schemes.scheme(&AuthSchemeId::new("sigv4")).is_none());

    let id = AuthSchemeId::new("sigv4");
    assert!(id.is(&id.duplicate()));
    assert!(!id.is(&AuthSchemeId::new("sigv4a")));

    let options = StaticAuthOptionResolver::new(vec![AuthSchemeId::new("x"), AuthSchemeId::new("y")])
        .resolve_auth_options(&AuthOptionResolverParams(TypeErasedBox::new(0, vec![])))
        .unwrap();
    assert_eq!(options.iter().map(|o| o.as_str()).collect::<Vec<_>>(), vec!["x", "y"]);
}

#[test]
fn what_resolving_the_options_came_to_decides_how_authentication_goes() {
    let mut resolvers = IdentityResolvers::new();
    resolvers.register(AuthSchemeId::new(HTTP_BEARER), token("t"));
    let cfg = config(&[HTTP_BASIC], both_schemes(), resolvers);
    // whatever the configured resolver would have answered, these options are used
    let failure =
        authenticate_resolved(checkpoint(), &cfg, Err(BoxError::new("unresolved"))).unwrap_err();
    assert_eq!(failure.error.message(), "unresolved");
    assert!(matches!(failure.error, AuthError::ConstructionFailure(_)));
    assert!(authorization(&failure.checkpoint).is_none());
    let failure = authenticate_resolved(checkpoint(), &cfg, Ok(vec![AuthSchemeId::new(HTTP_BASIC)]))
        .unwrap_err();
    assert!(matches!(failure.error, AuthError::NoAuthSchemeMatched));
    let signed = authenticate_resolved(
        checkpoint(),
        &cfg,
        Ok(vec![AuthSchemeId::new(HTTP_BASIC), AuthSchemeId::new(HTTP_BEARER)]),
    )
    .unwrap();
    assert_eq!("Bearer t", authorization(&signed).unwrap());
    // signing changes the request and nothing else
    assert_eq!(signed.context().phase(), Phase::BeforeTransmit);
    assert!(!signed.context().has_input());
    assert!(signed.context().is_well_formed());
    // the configured resolver answers [basic], for which no identity is there
    let failure = orchestrate_auth(checkpoint(), &cfg).unwrap_err();
    assert!(matches!(failure.error, AuthError::NoAuthSchemeMatched));
}

#[test]
fn a_fixed_list_and_a_resolver_of_ones_own_are_asked_alike() {
    let params = AuthOptionResolverParams(TypeErasedBox::new(0, vec![]));
    let fixed = ConfiguredAuthOptionResolver::Static(StaticAuthOptionResolver::new(vec![
        AuthSchemeId::new(HTTP_BEARER),
        AuthSchemeId::new(HTTP_BASIC),
    ]));
    let answered = fixed.resolve_auth_options(&params).unwrap();
    assert_eq!(
        answered.iter().map(|o| o.as_str()).collect::<Vec<_>>(),
        vec![HTTP_BEARER, HTTP_BASIC]
    );
    let failing = ConfiguredAuthOptionResolver::Dynamic(Box::new(FailingOptions));
    assert_eq!(failing.resolve_auth_options(&params).unwrap_err().message(), "no options");

    // a list handed over as a resolver of one's own selects the same scheme
    let mut resolvers = IdentityResolvers::new();
    resolvers.register(AuthSchemeId::new(HTTP_BEARER), token("t"));
    let mut cfg = config(&[], both_schemes(), resolvers);
    cfg.set_auth_option_resolver(StaticAuthOptionResolver::new(vec![
        AuthSchemeId::new(HTTP_BASIC),
        AuthSchemeId::new(HTTP_BEARER),
    ]));
    assert!(matches!(cfg.auth_option_resolver(), ConfiguredAuthOptionResolver::Dynamic(_)));
    let signed = orchestrate_auth(checkpoint(), &cfg).unwrap();
    assert_eq!("Bearer t", authorization(&signed).unwrap());
}
