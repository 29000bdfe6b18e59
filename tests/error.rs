use enroll::error::AppError;
use enroll::registry::deletion_reply;

#[test]
fn test_app_error_localization() {
    assert_eq!(
        AppError::PermissionDenied.localized_message(),
        "Permission denied."
    );
    assert_eq!(
        AppError::AlreadyInUse.localized_message(),
        "Device is already in use by another application."
    );
    assert_eq!(
        AppError::DeviceNotFound.localized_message(),
        "Fingerprint device not found."
    );
    assert_eq!(
        AppError::Timeout.localized_message(),
        "Operation timed out."
    );
    assert_eq!(
        AppError::ConnectDbus("Connection error".to_string()).localized_message(),
        "Failed to connect to DBus: \u{2068}Connection error\u{2069}"
    );
}

#[test]
fn test_app_error_unknown_context() {
    let err = AppError::Unknown("Some error".to_string());
    let err_with_context = err.with_context("Context");

    assert_eq!(err_with_context.localized_message(), "Context: Some error");
}

#[test]
fn test_app_error_known_context() {
    let err = AppError::PermissionDenied;
    let err_with_context = err.with_context("Context");

    assert_eq!(err_with_context.localized_message(), "Permission denied.");
}

#[test]
fn context_is_ignored_by_every_known_kind() {
    assert_eq!(AppError::Timeout.with_context("x"), AppError::Timeout);
    assert_eq!(
        AppError::ConnectDbus("m".to_string()).with_context("x"),
        AppError::ConnectDbus("m".to_string())
    );
    assert_eq!(
        AppError::Unknown(String::new()).with_context("Failed to list fingers"),
        AppError::Unknown("Failed to list fingers: ".to_string())
    );
}

#[test]
fn classify_known_names() {
    assert_eq!(
        AppError::classify(Some("net.reactivated.Fprint.Error.PermissionDenied"), "no"),
        AppError::PermissionDenied
    );
    assert_eq!(
        AppError::classify(Some("org.freedesktop.DBus.Error.AccessDenied"), "no"),
        AppError::PermissionDenied
    );
    assert_eq!(
        AppError::classify(Some("net.reactivated.Fprint.Error.AlreadyInUse"), "busy"),
        AppError::AlreadyInUse
    );
    assert_eq!(
        AppError::classify(Some("net.reactivated.Fprint.Error.NoSuchDevice"), ""),
        AppError::DeviceNotFound
    );
    assert_eq!(
        AppError::classify(Some("org.freedesktop.DBus.Error.NoReply"), ""),
        AppError::Timeout
    );
    assert_eq!(
        AppError::classify(Some("org.freedesktop.DBus.Error.Timeout"), ""),
        AppError::Timeout
    );
}

#[test]
fn classify_falls_back_to_unknown() {
    assert_eq!(
        AppError::classify(Some("net.reactivated.Fprint.Error.Internal"), "boom"),
        AppError::Unknown("boom".to_string())
    );
    assert_eq!(
        AppError::classify(None, "socket closed"),
        AppError::Unknown("socket closed".to_string())
    );
}

#[test]
fn bus_library_errors_are_classified() {
    let e = zbus::Error::Failure("broken pipe".to_string());
    let r = AppError::from_dbus(&e);
    assert!(matches!(r, AppError::Unknown(ref m) if m.contains("broken pipe")));
    assert_eq!(AppError::from_dbus(&zbus::Error::InvalidReply), AppError::Unknown(zbus::Error::InvalidReply.to_string()));
}

#[test]
fn absent_prints_count_as_deleted() {
    assert_eq!(
        deletion_reply(Some("net.reactivated.Fprint.Error.NoEnrolledPrints"), "none"),
        Ok(Vec::new())
    );
    assert_eq!(
        deletion_reply(Some("net.reactivated.Fprint.Error.PermissionDenied"), "no"),
        Err(AppError::PermissionDenied)
    );
    assert_eq!(
        deletion_reply(None, "gone"),
        Err(AppError::Unknown("gone".to_string()))
    );
}

fn method_error(name: &str, text: &str) -> zbus::Error {
    let msg = zbus::message::Message::method_call("/net/reactivated/Fprint/Device/0", "Claim")
        .unwrap()
        .build(&())
        .unwrap();
    let name = zbus::names::OwnedErrorName::try_from(name.to_string()).unwrap();
    zbus::Error::MethodError(name, Some(text.to_string()), msg)
}

#[test]
fn refused_claims_are_classified_by_error_name() {
    assert_eq!(
        AppError::from_dbus(&method_error("net.reactivated.Fprint.Error.AlreadyInUse", "held")),
        AppError::AlreadyInUse
    );
    assert_eq!(
        AppError::from_dbus(&method_error("net.reactivated.Fprint.Error.PermissionDenied", "no")),
        AppError::PermissionDenied
    );
    assert_eq!(
        AppError::from_dbus(&method_error("org.freedesktop.DBus.Error.NoReply", "late")),
        AppError::Timeout
    );
    assert_eq!(
        AppError::from_dbus(&method_error("net.reactivated.Fprint.Error.Internal", "boom")),
        AppError::Unknown("boom".to_string())
    );
}
