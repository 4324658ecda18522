use libsystemd::errors::{ErrorKind, SdError};

#[test]
fn errors_carry_their_text() {
    let error = SdError::from("empty name");
    assert_eq!(error.msg(), "empty name");
    assert!(error.is_generic());
    assert_eq!(error.error_kind(), ErrorKind::Generic);
    assert_eq!(error.to_string(), "libsystemd error: empty name");
    let error = SdError::from(String::from("x"));
    assert_eq!(error.msg(), "x");
    assert!(error.is_generic());
    assert_eq!(SdError::generic(String::new()).to_string(), "libsystemd error: ");
}

#[test]
fn errors_have_a_kind() {
    let error = SdError::new(ErrorKind::SysusersUnknownType, String::from("unknown type 'x'"));
    assert_eq!(error.error_kind(), ErrorKind::SysusersUnknownType);
    assert!(!error.is_generic());
    assert_eq!(error.msg(), "unknown type 'x'");
    let error = SdError::new(ErrorKind::Generic, String::from("y"));
    assert!(error.is_generic());
}
