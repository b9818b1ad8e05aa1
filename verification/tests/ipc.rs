use webview_ipc::ipc::{
    callback_reference, CallbackFn, InvokeError, InvokeResolver, InvokeResponse, Reply,
};

fn resolver() -> InvokeResolver<&'static str> {
    InvokeResolver::new("responder", "doStuff".to_string(), CallbackFn(11), CallbackFn(12))
}

fn payload(reply: &Reply<&'static str>) -> (bool, String) {
    match &reply.response {
        InvokeResponse::Resolved(value) => (true, value.clone()),
        InvokeResponse::Rejected(error) => (false, error.0.clone()),
    }
}

#[test]
fn callback_reference_names_the_callback() {
    assert_eq!(callback_reference(CallbackFn(0)), "window['_0']");
    assert_eq!(callback_reference(CallbackFn(42)), "window['_42']");
    assert_eq!(callback_reference(CallbackFn(u32::MAX)), "window['_4294967295']");
}

#[test]
fn message_becomes_a_json_string() {
    assert_eq!(InvokeError::from_message("Command doStuff not found").0, "\"Command doStuff not found\"");
    assert_eq!(InvokeError::from_message("").0, "\"\"");
}

#[test]
fn message_is_escaped_as_json_asks() {
    assert_eq!(InvokeError::from_message("a\"b\\c\nd").0, "\"a\\\"b\\\\c\\nd\"");
    assert_eq!(InvokeError::from_message("tab\there").0, "\"tab\\there\"");
    assert_eq!(InvokeError::from_message("\u{1}").0, "\"\\u0001\"");
    assert_eq!(InvokeError::from_message("é✓").0, "\"é✓\"");
}

#[test]
fn serialized_rejection_is_carried_as_it_is() {
    assert_eq!(InvokeError::from_serialized(Ok("{\"code\":3}".to_string())).0, "{\"code\":3}");
}

#[test]
fn serialization_failure_becomes_the_rejection() {
    assert_eq!(
        InvokeError::from_serialized(Err("key must be a string".to_string())).0,
        "\"key must be a string\""
    );
    match InvokeResponse::from_serialized(Err("key must be a string".to_string())) {
        InvokeResponse::Rejected(error) => assert_eq!(error.0, "\"key must be a string\""),
        InvokeResponse::Resolved(_) => panic!("a failed serialization must reject"),
    }
}

#[test]
fn serialized_result_resolves() {
    match InvokeResponse::from_serialized(Ok("[1,2]".to_string())) {
        InvokeResponse::Resolved(value) => assert_eq!(value, "[1,2]"),
        InvokeResponse::Rejected(_) => panic!("a serialized result must resolve"),
    }
}

#[test]
fn response_script_calls_the_success_callback() {
    let response = InvokeResponse::Resolved("{\"a\":1}".to_string());
    assert_eq!(response.script(CallbackFn(3), CallbackFn(4)), "window['_3']({\"a\":1})");
}

#[test]
fn response_script_calls_the_error_callback() {
    let response = InvokeResponse::Rejected(InvokeError::from_message("nope"));
    assert_eq!(response.script(CallbackFn(3), CallbackFn(4)), "window['_4'](\"nope\")");
}

#[test]
fn new_resolver_is_pending() {
    let resolver = resolver();
    assert!(resolver.is_pending());
    assert_eq!(resolver.cmd(), "doStuff");
}

#[test]
fn resolve_answers_once() {
    let mut resolver = resolver();
    let reply = resolver.resolve(Ok("1".to_string())).unwrap();
    assert_eq!(reply.responder, "responder");
    assert_eq!(reply.cmd, "doStuff");
    assert_eq!(reply.callback, CallbackFn(11));
    assert_eq!(reply.error, CallbackFn(12));
    assert_eq!(payload(&reply), (true, "1".to_string()));
    assert_eq!(reply.script(), "window['_11'](1)");
    assert!(!resolver.is_pending());
}

#[test]
fn resolve_twice_gives_exactly_one_response() {
    let mut resolver = resolver();
    let first = resolver.resolve(Ok("1".to_string()));
    let second = resolver.resolve(Ok("2".to_string()));
    assert!(first.is_some());
    assert!(second.is_none());
    assert!(!resolver.is_pending());
}

#[test]
fn reject_after_resolve_gives_no_further_response() {
    let mut resolver = resolver();
    assert!(resolver.resolve(Ok("1".to_string())).is_some());
    assert!(resolver.reject(Ok("\"late\"".to_string())).is_none());
    assert!(resolver.reject_with_message("late").is_none());
    assert!(resolver.invoke_error(InvokeError::from_message("late")).is_none());
    assert!(resolver.respond(InvokeResponse::Resolved("3".to_string())).is_none());
}

#[test]
fn resolve_after_reject_gives_no_further_response() {
    let mut resolver = resolver();
    let reply = resolver.reject_with_message("no").unwrap();
    assert_eq!(payload(&reply), (false, "\"no\"".to_string()));
    assert_eq!(reply.script(), "window['_12'](\"no\")");
    assert!(resolver.resolve(Ok("1".to_string())).is_none());
}

#[test]
fn reject_carries_the_serialized_value() {
    let mut resolver = resolver();
    let reply = resolver.reject(Ok("{\"code\":3}".to_string())).unwrap();
    assert_eq!(payload(&reply), (false, "{\"code\":3}".to_string()));
}

#[test]
fn resolve_with_failed_serialization_rejects() {
    let mut resolver = resolver();
    let reply = resolver.resolve(Err("cannot serialize".to_string())).unwrap();
    assert_eq!(payload(&reply), (false, "\"cannot serialize\"".to_string()));
    assert_eq!(reply.script(), "window['_12'](\"cannot serialize\")");
}

#[test]
fn invoke_error_rejects_with_the_error() {
    let mut resolver = resolver();
    let reply = resolver.invoke_error(InvokeError("null".to_string())).unwrap();
    assert_eq!(payload(&reply), (false, "null".to_string()));
}
