use napi_error::diagnostic::{check_status_and_type, describe_value, fill, ValueDescription, ValueType};
use napi_error::extended::ExtendedErrorInfo;
use napi_error::error::{Error, RetainedException};
use napi_error::propagate::{check_pending_exception, check_pending_exception_with, check_status, check_status_with, PendingCheck};
use napi_error::status::{Status, CODE_PENDING_EXCEPTION, CODE_UNKNOWN};
use napi_error::throwable::{JsError, JsRangeError, JsSyntaxError, JsTypeError, Materialization, ThrowAction, ThrowableKind};

fn created(m: Materialization) -> (ThrowableKind, String, String) {
    match m {
        Materialization::Created { kind, code, message } => (kind, code, message),
        Materialization::Retained(_) => panic!("expected a new exception object"),
    }
}

#[test]
fn status_round_trip_defined_codes() {
    for code in 0..=23 {
        assert_eq!(Status::from_code(code).code(), code);
    }
    assert_eq!(Status::from_code(1), Status::InvalidArg);
    assert_eq!(Status::from_code(9), Status::GenericFailure);
    assert_eq!(Status::from_code(10), Status::PendingException);
    assert_eq!(Status::from_code(23), Status::CannotRunJs);
}

#[test]
fn status_round_trip_unknown_codes() {
    for code in [-1, 24, 100, 1024, i32::MAX, i32::MIN] {
        let s = Status::from_code(code);
        assert_eq!(s, Status::Unknown);
        assert_eq!(s.code(), CODE_UNKNOWN);
    }
    assert_eq!(Status::from_code(Status::Unknown.code()), Status::Unknown);
}

#[test]
fn status_names() {
    assert_eq!(Status::Success.as_str(), "Ok");
    assert_eq!(Status::InvalidArg.as_str(), "InvalidArg");
    assert_eq!(Status::PendingException.as_str(), "PendingException");
    assert_eq!(Status::Unknown.as_str(), "Unknown");
}

#[test]
fn constructors_are_self_contained() {
    let e = Error::new(Status::ObjectExpected, "need an object".to_string());
    assert_eq!(e.status, Status::ObjectExpected);
    assert_eq!(e.reason, "need an object");
    assert_eq!(e.retained(), None);
    let e = Error::from_status(Status::Cancelled);
    assert_eq!(e.status, Status::Cancelled);
    assert_eq!(e.reason, "");
    assert_eq!(e.retained(), None);
    let mut e = Error::from_reason("boom".to_string());
    assert_eq!(e.status, Status::GenericFailure);
    assert_eq!(e.reason, "boom");
    assert_eq!(e.release(), None);
}

#[test]
fn display_text_with_and_without_reason() {
    assert_eq!(Error::from_status(Status::InvalidArg).to_display_string(), "InvalidArg");
    assert_eq!(
        Error::new(Status::StringExpected, "arg 0".to_string()).to_display_string(),
        "StringExpected, arg 0"
    );
}

#[test]
fn host_value_wrapped_when_reference_created() {
    let e = Error::from_host_value(7, 0, 42);
    assert_eq!(e.status, Status::GenericFailure);
    assert_eq!(e.reason, "");
    assert_eq!(e.retained(), Some(RetainedException { env: 7, reference: 42 }));
}

#[test]
fn host_value_not_retained_when_reference_fails() {
    let e = Error::from_host_value(7, 9, 42);
    assert_eq!(e.status, Status::GenericFailure);
    assert_eq!(e.reason, "");
    assert_eq!(e.retained(), None);
}

#[test]
fn release_hands_out_reference_once() {
    let mut e = Error::from_host_value(3, 0, 99);
    for kind in [ThrowableKind::Generic, ThrowableKind::Type] {
        let _ = napi_error::throwable::materialize(&e, kind);
    }
    let _ = e.to_host_value();
    assert_eq!(e.release(), Some(RetainedException { env: 3, reference: 99 }));
    assert_eq!(e.release(), None);
    assert_eq!(e.status, Status::GenericFailure);
}

#[test]
fn materialize_builds_each_kind() {
    let (k, code, msg) = created(JsError::from(Error::new(Status::NumberExpected, "x".to_string())).materialize());
    assert_eq!((k, code.as_str(), msg.as_str()), (ThrowableKind::Generic, "NumberExpected", "x"));
    let (k, _, _) = created(JsTypeError::from(Error::from_status(Status::InvalidArg)).materialize());
    assert_eq!(k, ThrowableKind::Type);
    let (k, _, _) = created(JsRangeError::from(Error::from_status(Status::InvalidArg)).materialize());
    assert_eq!(k, ThrowableKind::Range);
    let (k, _, _) = created(JsSyntaxError::from(Error::from_status(Status::InvalidArg)).materialize());
    assert_eq!(k, ThrowableKind::Syntax);
}

#[test]
fn identity_preserved_for_every_kind() {
    let h = RetainedException { env: 11, reference: 12 };
    let e = JsTypeError::from(Error::from_host_value(11, 0, 12));
    match e.materialize() {
        Materialization::Retained(r) => assert_eq!(r, h),
        _ => panic!("expected the retained reference"),
    }
    match e.throw() {
        ThrowAction::Throw(Materialization::Retained(r)) => assert_eq!(r, h),
        _ => panic!("expected a throw of the retained reference"),
    }
    let mut inner = e.into_error();
    assert_eq!(inner.release(), Some(h));
}

#[test]
fn no_rethrow_when_pending() {
    let e = JsError::from(Error::from_status(Status::PendingException));
    assert!(matches!(e.throw(), ThrowAction::Skip));
    let e = JsRangeError::from(Error::new(Status::PendingException, "already".to_string()));
    assert!(matches!(e.throw(), ThrowAction::Skip));
}

#[test]
fn pending_check_outcomes() {
    assert!(matches!(check_pending_exception(0), PendingCheck::Proceed));
    assert!(matches!(check_pending_exception(CODE_PENDING_EXCEPTION), PendingCheck::TakePending));
    match check_pending_exception_with(5, "not callable".to_string()) {
        PendingCheck::Failed(e) => {
            assert_eq!(e.status, Status::FunctionExpected);
            assert_eq!(e.reason, "not callable");
        }
        _ => panic!("expected a failure"),
    }
    match check_pending_exception(500) {
        PendingCheck::Failed(e) => assert_eq!(e.status, Status::Unknown),
        _ => panic!("expected a failure"),
    }
}

#[test]
fn status_check_outcomes() {
    assert!(check_status(0).is_ok());
    let e = check_status(3).unwrap_err();
    assert_eq!(e.status, Status::StringExpected);
    assert_eq!(e.reason, "");
    let e = check_status_with(9, "failed to create".to_string()).unwrap_err();
    assert_eq!(e.status, Status::GenericFailure);
    assert_eq!(e.reason, "failed to create");
    assert!(check_status_with(0, "unused".to_string()).is_ok());
}

#[test]
fn invalid_argument_thrown_as_new_generic_error() {
    let e = check_status(1).unwrap_err();
    assert_eq!(e.status, Status::InvalidArg);
    assert_eq!(e.reason, "");
    assert_eq!(e.retained(), None);
    match JsError::from(e).throw() {
        ThrowAction::Throw(Materialization::Created { kind, code, message }) => {
            assert_eq!(kind, ThrowableKind::Generic);
            assert_eq!(code, "InvalidArg");
            assert_eq!(message, "");
        }
        _ => panic!("expected one new generic error to be thrown"),
    }
}

#[test]
fn thrown_host_value_rethrown_unchanged() {
    assert!(matches!(check_pending_exception(CODE_PENDING_EXCEPTION), PendingCheck::TakePending));
    let err = Error::from_host_value(21, 0, 4096);
    match JsError::from(err).throw() {
        ThrowAction::Throw(Materialization::Retained(r)) => {
            assert_eq!(r, RetainedException { env: 21, reference: 4096 })
        }
        _ => panic!("expected the thrown object itself to be thrown again"),
    }
}

#[test]
fn describe_values() {
    assert_eq!(describe_value(&ValueDescription::Function { name: "".to_string() }), "function anonymous(..) ");
    assert_eq!(describe_value(&ValueDescription::Function { name: "add".to_string() }), "function add(..) ");
    assert_eq!(describe_value(&ValueDescription::Object { json: "{\"a\":1}".to_string() }), "Object {\"a\":1}");
    assert_eq!(
        describe_value(&ValueDescription::Primitive { kind: ValueType::Number, text: "3.5".to_string() }),
        "Number 3.5 "
    );
    assert_eq!(describe_value(&ValueDescription::Other(ValueType::Undefined)), "Undefined");
}

#[test]
fn fill_replaces_first_placeholder_only() {
    assert_eq!(fill("expect string, got {}", "Null"), "expect string, got Null");
    assert_eq!(fill("{}{}", "a"), "a{}");
    assert_eq!(fill("no placeholder", "a"), "no placeholder");
    assert_eq!(fill("", "a"), "");
    assert_eq!(fill("{", "a"), "{");
    assert_eq!(fill("é {} ü", "x"), "é x ü");
}

#[test]
fn typed_mismatch_message() {
    let v = ValueDescription::Primitive { kind: ValueType::Boolean, text: "true".to_string() };
    let e = check_status_and_type(3, "Expect String, got: {}", &v).unwrap_err();
    assert_eq!(e.status, Status::StringExpected);
    assert_eq!(e.reason, "Expect String, got: Boolean true ");
    assert!(check_status_and_type(0, "{}", &v).is_ok());
}

#[test]
fn extended_info_from_decoded_message() {
    let info = ExtendedErrorInfo::try_from_parts(Ok("Invalid argument".to_string()), 0, 17, 1).unwrap();
    assert_eq!(info.message, "Invalid argument");
    assert_eq!(info.engine_reserved, 0);
    assert_eq!(info.engine_error_code, 17);
    assert_eq!(info.error_code, Status::InvalidArg);
    let info = ExtendedErrorInfo::try_from_parts(Ok(String::new()), 8, 0, 77).unwrap();
    assert_eq!(info.error_code, Status::Unknown);
}

#[test]
fn extended_info_from_undecodable_message() {
    let e = ExtendedErrorInfo::try_from_parts(Err("invalid utf-8".to_string()), 0, 0, 1).unwrap_err();
    assert_eq!(e.status, Status::GenericFailure);
    assert_eq!(e.reason, "invalid utf-8");
}
