use smithy_orchestrator::config_bag::ConfigBag;
use smithy_orchestrator::date_time::DateTime;
use smithy_orchestrator::http::{Request, Response};
use smithy_orchestrator::interceptors::context::{Error, InterceptorContext, Phase};
use smithy_orchestrator::interceptors::dispatch::{absorb, conclude, kept_type, Absorbed};
use smithy_orchestrator::interceptors::error::{BoxError, InterceptorError};
use smithy_orchestrator::interceptors::hook::{ErrorPolicy, Hook, HookKind, Scope, Target};
use smithy_orchestrator::interceptors::{Interceptor, Interceptors, SharedInterceptor};
use smithy_orchestrator::type_erasure::TypeErasedBox;
use std::sync::{Arc, Mutex};

const ALL_HOOKS: [Hook; 19] = [
    Hook::ReadBeforeExecution,
    Hook::ModifyBeforeSerialization,
    Hook::ReadBeforeSerialization,
    Hook::ReadAfterSerialization,
    Hook::ModifyBeforeRetryLoop,
    Hook::ReadBeforeAttempt,
    Hook::ModifyBeforeSigning,
    Hook::ReadBeforeSigning,
    Hook::ReadAfterSigning,
    Hook::ModifyBeforeTransmit,
    Hook::ReadBeforeTransmit,
    Hook::ReadAfterTransmit,
    Hook::ModifyBeforeDeserialization,
    Hook::ReadBeforeDeserialization,
    Hook::ReadAfterDeserialization,
    Hook::ModifyBeforeAttemptCompletion,
    Hook::ReadAfterAttempt,
    Hook::ModifyBeforeCompletion,
    Hook::ReadAfterExecution,
];

/// What a test interceptor does at every hook point.
#[derive(Clone, Copy, PartialEq)]
enum Behaviour {
    Succeed,
    Fail,
    ChangeType,
    LeavePhase,
    StampTime,
}

/// An interceptor that writes its name into a shared log whenever one of its
/// hooks is called, and then behaves as told.
struct Recorder {
    name: &'static str,
    behaviour: Behaviour,
    log: Arc<Mutex<Vec<String>>>,
}

impl Recorder {
    fn read(&self, hook: &str, cfg: &mut ConfigBag) -> Result<(), BoxError> {
        self.log.lock().unwrap().push(format!("{}:{}", self.name, hook));
        match self.behaviour {
            Behaviour::Fail => Err(BoxError::new(self.name)),
            Behaviour::StampTime => {
                cfg.set_request_time(DateTime::from_secs(7));
                Ok(())
            }
            _ => Ok(()),
        }
    }

    fn modify(
        &self,
        hook: &str,
        context: &mut InterceptorContext,
        cfg: &mut ConfigBag,
    ) -> Result<(), BoxError> {
        match self.behaviour {
            Behaviour::ChangeType => {
                self.log.lock().unwrap().push(format!("{}:{}", self.name, hook));
                if context.has_input() {
                    *context.input_mut() = TypeErasedBox::new(4242, vec![]);
                } else if context.phase() == Phase::AfterDeserialization {
                    *context.output_or_error_mut() = Ok(TypeErasedBox::new(4242, vec![]));
                }
                Ok(())
            }
            Behaviour::LeavePhase => {
                self.log.lock().unwrap().push(format!("{}:{}", self.name, hook));
                *context = InterceptorContext::new(TypeErasedBox::new(1, vec![]))
                    .into_before_transmit(Request::new(vec![]))
                    .into_before_deserialization(Response::new(500, vec![]));
                Ok(())
            }
            _ => self.read(hook, cfg),
        }
    }
}

impl Interceptor for Recorder {
    fn read_before_execution(&self, _: &InterceptorContext, cfg: &mut ConfigBag) -> Result<(), BoxError> {
        self.read("read_before_execution", cfg)
    }
    fn modify_before_serialization(&self, context: &mut InterceptorContext, cfg: &mut ConfigBag) -> Result<(), BoxError> {
        self.modify("modify_before_serialization", context, cfg)
    }
    fn read_before_serialization(&self, _: &InterceptorContext, cfg: &mut ConfigBag) -> Result<(), BoxError> {
        self.read("read_before_serialization", cfg)
    }
    fn read_after_serialization(&self, _: &InterceptorContext, cfg: &mut ConfigBag) -> Result<(), BoxError> {
        self.read("read_after_serialization", cfg)
    }
    fn modify_before_retry_loop(&self, context: &mut InterceptorContext, cfg: &mut ConfigBag) -> Result<(), BoxError> {
        self.modify("modify_before_retry_loop", context, cfg)
    }
    fn read_before_attempt(&self, _: &InterceptorContext, cfg: &mut ConfigBag) -> Result<(), BoxError> {
        self.read("read_before_attempt", cfg)
    }
    fn modify_before_signing(&self, context: &mut InterceptorContext, cfg: &mut ConfigBag) -> Result<(), BoxError> {
        self.modify("modify_before_signing", context, cfg)
    }
    fn read_before_signing(&self, _: &InterceptorContext, cfg: &mut ConfigBag) -> Result<(), BoxError> {
        self.read("read_before_signing", cfg)
    }
    fn read_after_signing(&self, _: &InterceptorContext, cfg: &mut ConfigBag) -> Result<(), BoxError> {
        self.read("read_after_signing", cfg)
    }
    fn modify_before_transmit(&self, context: &mut InterceptorContext, cfg: &mut ConfigBag) -> Result<(), BoxError> {
        self.modify("modify_before_transmit", context, cfg)
    }
    fn read_before_transmit(&self, _: &InterceptorContext, cfg: &mut ConfigBag) -> Result<(), BoxError> {
        self.read("read_before_transmit", cfg)
    }
    fn read_after_transmit(&self, _: &InterceptorContext, cfg: &mut ConfigBag) -> Result<(), BoxError> {
        self.read("read_after_transmit", cfg)
    }
    fn modify_before_deserialization(&self, context: &mut InterceptorContext, cfg: &mut ConfigBag) -> Result<(), BoxError> {
        self.modify("modify_before_deserialization", context, cfg)
    }
    fn read_before_deserialization(&self, _: &InterceptorContext, cfg: &mut ConfigBag) -> Result<(), BoxError> {
        self.read("read_before_deserialization", cfg)
    }
    fn read_after_deserialization(&self, _: &InterceptorContext, cfg: &mut ConfigBag) -> Result<(), BoxError> {
        self.read("read_after_deserialization", cfg)
    }
    fn modify_before_attempt_completion(&self, context: &mut InterceptorContext, cfg: &mut ConfigBag) -> Result<(), BoxError> {
        self.modify("modify_before_attempt_completion", context, cfg)
    }
    fn read_after_attempt(&self, _: &InterceptorContext, cfg: &mut ConfigBag) -> Result<(), BoxError> {
        self.read("read_after_attempt", cfg)
    }
    fn modify_before_completion(&self, context: &mut InterceptorContext, cfg: &mut ConfigBag) -> Result<(), BoxError> {
        self.modify("modify_before_completion", context, cfg)
    }
    fn read_after_execution(&self, _: &InterceptorContext, cfg: &mut ConfigBag) -> Result<(), BoxError> {
        self.read("read_after_execution", cfg)
    }
}

/// An interceptor that overrides nothing.
struct Silent;
impl Interceptor for Silent {}

fn recorder(name: &'static str, behaviour: Behaviour, log: &Arc<Mutex<Vec<String>>>) -> SharedInterceptor {
    SharedInterceptor::new(Recorder { name, behaviour, log: log.clone() })
}

fn names_in(log: &Arc<Mutex<Vec<String>>>) -> Vec<String> {
    log.lock()
        .unwrap()
        .iter()
        .map(|entry| entry.split(':').next().unwrap().to_string())
        .collect()
}

/// A well-formed context in the phase of `hook`.
fn context_for(hook: Hook) -> InterceptorContext {
    let context = InterceptorContext::new(TypeErasedBox::new(1, vec![1, 2, 3]));
    match hook.phase() {
        Phase::BeforeSerialization => context,
        Phase::BeforeTransmit => context.into_before_transmit(Request::new(vec![9])),
        Phase::BeforeDeserialization => context
            .into_before_transmit(Request::new(vec![9]))
            .into_before_deserialization(Response::new(200, vec![8])),
        Phase::AfterDeserialization => context
            .into_before_transmit(Request::new(vec![9]))
            .into_before_deserialization(Response::new(200, vec![8]))
            .into_after_deserialization(Ok(TypeErasedBox::new(2, vec![7]))),
    }
}

fn snapshot(context: &InterceptorContext) -> String {
    format!("{:?}", context)
}

#[test]
fn no_interceptors_means_ok_and_nothing_changed() {
    for hook in ALL_HOOKS {
        let interceptors = Interceptors::new();
        let mut context = context_for(hook);
        let before = snapshot(&context);
        let mut cfg = ConfigBag::base();
        assert!(interceptors.dispatch(hook, &mut context, &mut cfg).is_ok());
        assert_eq!(snapshot(&context), before);
        assert_eq!(cfg.request_time(), None);
    }
}

#[test]
fn a_hook_that_does_nothing_alters_neither_context_nor_control_flow() {
    for hook in ALL_HOOKS {
        for place in 0..3 {
            // without the silent interceptor
            let log = Arc::new(Mutex::new(Vec::new()));
            let mut plain = Interceptors::new();
            plain.client_interceptors_mut().register(recorder("a", Behaviour::StampTime, &log));
            plain.operation_interceptors_mut().register(recorder("b", Behaviour::Fail, &log));
            let mut context = context_for(hook);
            let mut cfg = ConfigBag::base();
            let expected = plain.dispatch(hook, &mut context, &mut cfg);
            let expected_context = snapshot(&context);
            let expected_log = names_in(&log);

            // with it, at each place among the others
            let log = Arc::new(Mutex::new(Vec::new()));
            let mut with_silent = Interceptors::new();
            if place == 0 {
                with_silent.client_interceptors_mut().register(SharedInterceptor::new(Silent));
            }
            with_silent.client_interceptors_mut().register(recorder("a", Behaviour::StampTime, &log));
            if place == 1 {
                with_silent.client_interceptors_mut().register(SharedInterceptor::new(Silent));
            }
            with_silent.operation_interceptors_mut().register(recorder("b", Behaviour::Fail, &log));
            if place == 2 {
                with_silent.operation_interceptors_mut().register(SharedInterceptor::new(Silent));
            }
            let mut context = context_for(hook);
            let mut cfg = ConfigBag::base();
            let got = with_silent.dispatch(hook, &mut context, &mut cfg);
            assert_eq!(format!("{:?}", got), format!("{:?}", expected));
            assert_eq!(snapshot(&context), expected_context);
            assert_eq!(names_in(&log), expected_log);
            assert_eq!(cfg.request_time(), Some(DateTime::from_secs(7)));
        }
    }
}

#[test]
fn client_interceptors_run_before_operation_interceptors() {
    for hook in ALL_HOOKS {
        for (clients, operations) in [(0usize, 0usize), (0, 2), (2, 0), (1, 1), (3, 2)] {
            let log = Arc::new(Mutex::new(Vec::new()));
            let mut interceptors = Interceptors::new();
            let client_names = ["c0", "c1", "c2"];
            let operation_names = ["o0", "o1", "o2"];
            // operation interceptors are registered first, and run last all the same
            for name in operation_names.iter().take(operations) {
                interceptors
                    .operation_interceptors_mut()
                    .register(recorder(name, Behaviour::Succeed, &log));
            }
            for name in client_names.iter().take(clients) {
                interceptors
                    .client_interceptors_mut()
                    .register(recorder(name, Behaviour::Succeed, &log));
            }
            assert_eq!(interceptors.interceptors().len(), clients + operations);
            let mut context = context_for(hook);
            let mut cfg = ConfigBag::base();
            assert!(interceptors.dispatch(hook, &mut context, &mut cfg).is_ok());
            let mut expected: Vec<String> = Vec::new();
            expected.extend(client_names.iter().take(clients).map(|n| n.to_string()));
            expected.extend(operation_names.iter().take(operations).map(|n| n.to_string()));
            assert_eq!(names_in(&log), expected);
        }
    }
}

#[test]
fn an_interceptor_registered_twice_runs_twice() {
    let log = Arc::new(Mutex::new(Vec::new()));
    let shared = recorder("twice", Behaviour::Succeed, &log);
    let mut interceptors = Interceptors::new();
    interceptors.client_interceptors_mut().register(shared.clone());
    interceptors.operation_interceptors_mut().register(shared);
    let mut context = context_for(Hook::ReadBeforeExecution);
    let mut cfg = ConfigBag::base();
    interceptors
        .dispatch(Hook::ReadBeforeExecution, &mut context, &mut cfg)
        .unwrap();
    assert_eq!(names_in(&log), vec!["twice", "twice"]);
}

#[test]
fn collecting_groups_run_every_hook_and_keep_the_latest_error() {
    for hook in [
        Hook::ReadBeforeExecution,
        Hook::ReadBeforeAttempt,
        Hook::ReadAfterAttempt,
        Hook::ReadAfterExecution,
    ] {
        assert_eq!(hook.policy(), ErrorPolicy::CollectThenJump);
        let log = Arc::new(Mutex::new(Vec::new()));
        let mut interceptors = Interceptors::new();
        interceptors.client_interceptors_mut().register(recorder("first", Behaviour::Fail, &log));
        interceptors.client_interceptors_mut().register(recorder("second", Behaviour::Succeed, &log));
        interceptors.operation_interceptors_mut().register(recorder("third", Behaviour::Fail, &log));
        interceptors.operation_interceptors_mut().register(recorder("fourth", Behaviour::Succeed, &log));
        let mut context = context_for(hook);
        let mut cfg = ConfigBag::base();
        let error = interceptors.dispatch(hook, &mut context, &mut cfg).unwrap_err();
        assert_eq!(error.hook(), hook);
        assert!(!error.is_type_constraint());
        assert_eq!(error.source().unwrap().message(), "third");
        assert_eq!(names_in(&log), vec!["first", "second", "third", "fourth"]);
    }
}

#[test]
fn fail_fast_groups_stop_at_the_first_error() {
    for hook in ALL_HOOKS {
        if hook.policy() != ErrorPolicy::FailFast {
            continue;
        }
        let log = Arc::new(Mutex::new(Vec::new()));
        let mut interceptors = Interceptors::new();
        interceptors.client_interceptors_mut().register(recorder("first", Behaviour::Succeed, &log));
        interceptors.client_interceptors_mut().register(recorder("second", Behaviour::Fail, &log));
        interceptors.operation_interceptors_mut().register(recorder("third", Behaviour::Fail, &log));
        interceptors.operation_interceptors_mut().register(recorder("fourth", Behaviour::Succeed, &log));
        let mut context = context_for(hook);
        let mut cfg = ConfigBag::base();
        let error = interceptors.dispatch(hook, &mut context, &mut cfg).unwrap_err();
        assert_eq!(error.hook(), hook);
        assert_eq!(error.source().unwrap().message(), "second");
        assert_eq!(names_in(&log), vec!["first", "second"]);
    }
}

#[test]
fn a_modify_hook_that_changes_the_logical_type_fails_the_call_at_once() {
    for hook in [
        Hook::ModifyBeforeSerialization,
        Hook::ModifyBeforeAttemptCompletion,
        Hook::ModifyBeforeCompletion,
    ] {
        let log = Arc::new(Mutex::new(Vec::new()));
        let mut interceptors = Interceptors::new();
        interceptors.client_interceptors_mut().register(recorder("first", Behaviour::Succeed, &log));
        interceptors.client_interceptors_mut().register(recorder("second", Behaviour::ChangeType, &log));
        interceptors.operation_interceptors_mut().register(recorder("third", Behaviour::Succeed, &log));
        let mut context = context_for(hook);
        let mut cfg = ConfigBag::base();
        let error = interceptors.dispatch(hook, &mut context, &mut cfg).unwrap_err();
        assert!(error.is_type_constraint());
        assert_eq!(error.hook(), hook);
        assert!(error.source().is_none());
        assert!(matches!(error, InterceptorError::TypeConstraint { .. }));
        assert_eq!(names_in(&log), vec!["first", "second"]);
    }
}

#[test]
fn a_modify_hook_that_leaves_the_phase_fails_the_call_at_once() {
    for hook in ALL_HOOKS {
        let log = Arc::new(Mutex::new(Vec::new()));
        let mut interceptors = Interceptors::new();
        interceptors.client_interceptors_mut().register(recorder("first", Behaviour::LeavePhase, &log));
        interceptors.client_interceptors_mut().register(recorder("second", Behaviour::Succeed, &log));
        let mut context = context_for(hook);
        let before = snapshot(&context);
        let mut cfg = ConfigBag::base();
        let result = interceptors.dispatch(hook, &mut context, &mut cfg);
        match hook.kind() {
            HookKind::Read => {
                assert!(result.is_ok());
                assert_eq!(snapshot(&context), before);
            }
            HookKind::Modify(_) => {
                if hook.phase() == Phase::BeforeDeserialization {
                    // the context that the hook put in place is one of this phase
                    assert!(result.is_ok());
                } else {
                    assert!(result.unwrap_err().is_type_constraint());
                    assert_eq!(names_in(&log), vec!["first"]);
                }
            }
        }
    }
}

#[test]
fn a_modify_hook_may_replace_a_message_by_one_of_the_same_type() {
    struct SameType;
    impl Interceptor for SameType {
        fn modify_before_serialization(
            &self,
            context: &mut InterceptorContext,
            _: &mut ConfigBag,
        ) -> Result<(), BoxError> {
            let type_id = context.input().type_id();
            *context.input_mut() = TypeErasedBox::new(type_id, vec![42]);
            Ok(())
        }
        fn modify_before_signing(
            &self,
            context: &mut InterceptorContext,
            _: &mut ConfigBag,
        ) -> Result<(), BoxError> {
            context.request_mut().set_header("x-added", "yes");
            Ok(())
        }
        fn modify_before_attempt_completion(
            &self,
            context: &mut InterceptorContext,
            _: &mut ConfigBag,
        ) -> Result<(), BoxError> {
            *context.output_or_error_mut() = Err(Error::Collaborator(BoxError::new("replaced")));
            Ok(())
        }
    }
    let mut interceptors = Interceptors::new();
    interceptors.operation_interceptors_mut().register(SharedInterceptor::new(SameType));
    let mut cfg = ConfigBag::base();

    let mut context = context_for(Hook::ModifyBeforeSerialization);
    interceptors
        .dispatch(Hook::ModifyBeforeSerialization, &mut context, &mut cfg)
        .unwrap();
    assert_eq!(context.input().content(), &vec![42]);
    assert_eq!(context.input().type_id(), 1);

    let mut context = context_for(Hook::ModifyBeforeSigning);
    interceptors
        .dispatch(Hook::ModifyBeforeSigning, &mut context, &mut cfg)
        .unwrap();
    assert_eq!(context.request().header("x-added").unwrap(), "yes");

    let mut context = context_for(Hook::ModifyBeforeAttemptCompletion);
    interceptors
        .dispatch(Hook::ModifyBeforeAttemptCompletion, &mut context, &mut cfg)
        .unwrap();
    assert!(matches!(context.output_or_error(), Err(Error::Collaborator(_))));
}

#[test]
fn absorb_applies_the_policy_to_one_return() {
    // a hook that returned Ok changes nothing
    for hook in ALL_HOOKS {
        match absorb(hook, None, Ok(()), true) {
            Absorbed::Continue { pending } => assert!(pending.is_none()),
            Absorbed::Stop { .. } => panic!("stopped"),
        }
        match absorb(hook, Some(BoxError::new("kept")), Ok(()), true) {
            Absorbed::Continue { pending } => assert_eq!(pending.unwrap().message(), "kept"),
            Absorbed::Stop { .. } => panic!("stopped"),
        }
        // a hook that did not leave the context intact ends the pass, whatever it returned
        for result in [Ok(()), Err(BoxError::new("its own"))] {
            match absorb(hook, Some(BoxError::new("kept")), result, false) {
                Absorbed::Stop { error } => {
                    assert!(error.is_type_constraint());
                    assert_eq!(error.hook(), hook);
                }
                Absorbed::Continue { .. } => panic!("went on"),
            }
        }
        match (hook.policy(), absorb(hook, Some(BoxError::new("kept")), Err(BoxError::new("new")), true)) {
            (ErrorPolicy::CollectThenJump, Absorbed::Continue { pending }) => {
                assert_eq!(pending.unwrap().message(), "new")
            }
            (ErrorPolicy::FailFast, Absorbed::Stop { error }) => {
                assert_eq!(error.source().unwrap().message(), "new");
                assert_eq!(error.hook(), hook);
            }
            _ => panic!("policy not applied"),
        }
        assert!(conclude(hook, None).is_ok());
        let error = conclude(hook, Some(BoxError::new("kept"))).unwrap_err();
        assert_eq!(error.source().unwrap().message(), "kept");
        assert_eq!(error.hook(), hook);
    }
}

#[test]
fn kept_type_compares_what_has_a_type() {
    assert!(kept_type(Some(1), Some(1)));
    assert!(!kept_type(Some(1), Some(2)));
    assert!(kept_type(None, Some(2)));
    assert!(kept_type(Some(1), None));
    assert!(kept_type(None, None));
}

#[test]
fn the_hook_table() {
    let mut positions = Vec::new();
    let mut modify = 0;
    let mut collecting = 0;
    let mut attempt = 0;
    let mut last_phase = 0;
    for hook in ALL_HOOKS {
        positions.push(hook.position());
        assert!(hook.phase().rank() >= last_phase);
        last_phase = hook.phase().rank();
        if let HookKind::Modify(_) = hook.kind() {
            modify += 1;
            assert_eq!(hook.policy(), ErrorPolicy::FailFast);
        }
        if hook.policy() == ErrorPolicy::CollectThenJump {
            collecting += 1;
        }
        if hook.scope() == Scope::Attempt {
            attempt += 1;
        }
        if let Some(after) = hook.paired_after() {
            assert!(after.position() > hook.position());
            assert_eq!(after.kind(), HookKind::Read);
        }
    }
    assert_eq!(positions, (0..19).collect::<Vec<u8>>());
    assert_eq!(modify, 7);
    assert_eq!(collecting, 4);
    assert_eq!(attempt, 12);
    assert_eq!(Hook::ModifyBeforeSerialization.kind(), HookKind::Modify(Target::Input));
    assert_eq!(Hook::ModifyBeforeRetryLoop.kind(), HookKind::Modify(Target::Request));
    assert_eq!(Hook::ModifyBeforeDeserialization.kind(), HookKind::Modify(Target::Response));
    assert_eq!(Hook::ModifyBeforeCompletion.kind(), HookKind::Modify(Target::OutputOrError));
    assert_eq!(Hook::ReadBeforeExecution.phase(), Phase::BeforeSerialization);
    assert_eq!(Hook::ReadAfterSerialization.phase(), Phase::BeforeTransmit);
    assert_eq!(Hook::ReadAfterTransmit.phase(), Phase::BeforeDeserialization);
    assert_eq!(Hook::ReadAfterDeserialization.phase(), Phase::AfterDeserialization);
    assert_eq!(Hook::ReadBeforeExecution.paired_after(), Some(Hook::ReadAfterExecution));
    assert_eq!(Hook::ModifyBeforeSigning.paired_after(), None);
}

#[test]
fn the_context_moves_through_its_phases() {
    let context = InterceptorContext::new(TypeErasedBox::new(1, vec![1]));
    assert_eq!(context.phase(), Phase::BeforeSerialization);
    assert!(context.is_well_formed());
    assert!(context.has_input());
    assert_eq!(context.message_type(Target::Input), Some(1));
    assert_eq!(context.message_type(Target::Request), None);
    let mut request = Request::new(vec![2]);
    request.set_header("a", "1");
    let mut context = context.into_before_transmit(request);
    assert_eq!(context.phase(), Phase::BeforeTransmit);
    assert!(context.is_well_formed());
    assert!(!context.has_input());
    assert_eq!(context.message_type(Target::Input), None);
    context.request_mut().set_header("a", "2");
    assert_eq!(context.request().header("a").unwrap(), "2");
    assert_eq!(context.request().body(), &vec![2]);
    let mut context = context.into_before_deserialization(Response::new(200, vec![3]));
    assert_eq!(context.phase(), Phase::BeforeDeserialization);
    assert!(context.is_well_formed());
    context.response_mut().set_header("b", "3");
    assert_eq!(context.response().status(), 200);
    assert_eq!(context.response().header("b").unwrap(), "3");
    assert!(context.response().header("c").is_none());
    let context = context.into_after_deserialization(Ok(TypeErasedBox::new(5, vec![4])));
    assert_eq!(context.phase(), Phase::AfterDeserialization);
    assert!(context.is_well_formed());
    assert_eq!(context.message_type(Target::OutputOrError), Some(5));
    assert!(context.is_intact(Phase::AfterDeserialization, Target::OutputOrError, Some(5)));
    assert!(!context.is_intact(Phase::AfterDeserialization, Target::OutputOrError, Some(6)));
    assert!(!context.is_intact(Phase::BeforeTransmit, Target::OutputOrError, Some(5)));
    assert_eq!(context.finalize().unwrap().into_content(), vec![4]);
}

#[test]
fn a_failure_takes_the_context_to_the_last_phase_from_any_phase() {
    for hook in ALL_HOOKS {
        let context = context_for(hook).fail(Error::Collaborator(BoxError::new("broken")));
        assert_eq!(context.phase(), Phase::AfterDeserialization);
        assert!(context.is_well_formed());
        assert_eq!(context.message_type(Target::OutputOrError), None);
        assert_eq!(context.has_input(), hook.phase() == Phase::BeforeSerialization);
        match context.finalize() {
            Err(Error::Collaborator(error)) => assert_eq!(error.message(), "broken"),
            other => panic!("unexpected {:?}", other),
        }
    }
}

#[test]
fn a_later_header_replaces_an_earlier_one() {
    let mut request = Request::new(vec![]);
    assert!(request.header("Authorization").is_none());
    request.set_header("Authorization", "first");
    request.set_header("Other", "x");
    request.set_header("Authorization", "second");
    assert_eq!(request.header("Authorization").unwrap(), "second");
    assert_eq!(request.header("Other").unwrap(), "x");
    assert!(request.header("authorization").is_none());
    let copy = request.duplicate();
    request.set_header("Other", "y");
    request.set_body(vec![1]);
    assert_eq!(copy.header("Other").unwrap(), "x");
    assert_eq!(copy.header("Authorization").unwrap(), "second");
    assert_eq!(copy.body(), &Vec::<u8>::new());
}
