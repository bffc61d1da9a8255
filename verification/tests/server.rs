use sq_streamhook::server::{classify_callback, CallbackOutcome};

fn s(x: &str) -> String {
    x.to_string()
}

#[test]
fn callback_with_expected_state_is_authorized() {
    match classify_callback(&s("st4te"), Some(s("the-code")), Some(s("st4te")), false) {
        CallbackOutcome::Authorized(code) => assert_eq!(code, "the-code"),
        _ => panic!("expected an authorization"),
    }
}

#[test]
fn callback_with_other_state_is_refused() {
    match classify_callback(&s("st4te"), Some(s("the-code")), Some(s("other")), true) {
        CallbackOutcome::StateMismatch { expected, received } => {
            assert_eq!(expected, "st4te");
            assert_eq!(received, Some(s("other")));
        }
        _ => panic!("expected a state mismatch"),
    }
}

#[test]
fn callback_without_state_is_refused() {
    match classify_callback(&s("st4te"), Some(s("the-code")), None, false) {
        CallbackOutcome::StateMismatch { received, .. } => assert_eq!(received, None),
        _ => panic!("expected a state mismatch"),
    }
}

#[test]
fn callback_with_error_is_rejected() {
    assert!(matches!(
        classify_callback(&s("st4te"), None, Some(s("st4te")), true),
        CallbackOutcome::Rejected
    ));
}

#[test]
fn callback_with_nothing_is_unexpected() {
    assert!(matches!(classify_callback(&s("st4te"), None, None, false), CallbackOutcome::Unexpected));
}
