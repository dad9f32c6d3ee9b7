use storaget::Error;

#[test]
fn test_display() {
    let err = Error::InternalError("test error".into());
    assert_eq!(err.message(), "Internal error: test error");
}

#[test]
fn test_debug() {
    let err = Error::InternalError("test error".into());
    assert_eq!(err.message(), "Internal error: test error");
}

#[test]
fn test_error() {
    let e = Error::InternalError("test".into());
    assert_eq!(e.message(), "Internal error: test");
    assert_eq!(e.message(), "Internal error: test");
    let f = Error::ObjectNotFound;
    assert_eq!(f.message(), "Storage object not found in storage.");
    assert_eq!(f.message(), "Storage object not found in storage.");
    let g = Error::PathNotFound;
    assert_eq!(g.message(), "Path not found");
    assert_eq!(g.message(), "Path not found");
}
