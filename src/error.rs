use vstd::prelude::*;

verus! {

#[verifier::external_type_specification]
#[verifier::external_body]
pub struct ExDbusError(zbus::Error);

/// What can go wrong when talking to the fingerprint service.
#[derive(Clone, Debug, PartialEq, Eq)]
pub enum AppError {
    PermissionDenied,
    AlreadyInUse,
    DeviceNotFound,
    Timeout,
    ConnectDbus(String),
    Unknown(String),
}

/// An error as a mathematical value: its kind and, where it has one, its text.
pub enum ErrorView {
    PermissionDenied,
    AlreadyInUse,
    DeviceNotFound,
    Timeout,
    ConnectDbus(Seq<char>),
    Unknown(Seq<char>),
}

impl View for AppError {
    type V = ErrorView;

    open spec fn view(&self) -> ErrorView {
        match self {
            AppError::PermissionDenied => ErrorView::PermissionDenied,
            AppError::AlreadyInUse => ErrorView::AlreadyInUse,
            AppError::DeviceNotFound => ErrorView::DeviceNotFound,
            AppError::Timeout => ErrorView::Timeout,
            AppError::ConnectDbus(m) => ErrorView::ConnectDbus(m@),
            AppError::Unknown(m) => ErrorView::Unknown(m@),
        }
    }
}

/// A message set between the Unicode isolation marks that surround an
/// interpolated value.
pub open spec fn isolated(m: Seq<char>) -> Seq<char> {
    seq!['\u{2068}'] + m + seq!['\u{2069}']
}

/// The message shown to the user for an error.
pub open spec fn message_of(e: ErrorView) -> Seq<char> {
    match e {
        ErrorView::PermissionDenied => "Permission denied."@,
        ErrorView::AlreadyInUse => "Device is already in use by another application."@,
        ErrorView::DeviceNotFound => "Fingerprint device not found."@,
        ErrorView::Timeout => "Operation timed out."@,
        ErrorView::ConnectDbus(m) => "Failed to connect to DBus: "@ + isolated(m),
        ErrorView::Unknown(m) => m,
    }
}

/// D-Bus error names that mean the caller lacks the rights.
pub open spec fn is_permission_name(n: Seq<char>) -> bool {
    n == "net.reactivated.Fprint.Error.PermissionDenied"@
        || n == "org.freedesktop.DBus.Error.AccessDenied"@
}

/// D-Bus error names that mean another client holds the device.
pub open spec fn is_in_use_name(n: Seq<char>) -> bool {
    n == "net.reactivated.Fprint.Error.AlreadyInUse"@
}

/// D-Bus error names that mean there is no such sensor.
pub open spec fn is_no_device_name(n: Seq<char>) -> bool {
    n == "net.reactivated.Fprint.Error.NoSuchDevice"@
}

/// D-Bus error names that mean the call got no answer in time.
pub open spec fn is_timeout_name(n: Seq<char>) -> bool {
    n == "org.freedesktop.DBus.Error.NoReply"@ || n == "org.freedesktop.DBus.Error.Timeout"@
        || n == "org.freedesktop.DBus.Error.TimedOut"@
}

/// How a failure, given by its D-Bus error name (if it was an error reply)
/// and its text, is classified.
pub open spec fn classified(name: Option<Seq<char>>, text: Seq<char>) -> ErrorView {
    match name {
        Some(n) => if is_permission_name(n) {
            ErrorView::PermissionDenied
        } else if is_in_use_name(n) {
            ErrorView::AlreadyInUse
        } else if is_no_device_name(n) {
            ErrorView::DeviceNotFound
        } else if is_timeout_name(n) {
            ErrorView::Timeout
        } else {
            ErrorView::Unknown(text)
        },
        None => ErrorView::Unknown(text),
    }
}

/// A context prefix applies to unclassified errors only.
pub open spec fn with_context_view(e: ErrorView, context: Seq<char>) -> ErrorView {
    match e {
        ErrorView::Unknown(m) => ErrorView::Unknown(context + ": "@ + m),
        _ => e,
    }
}

/// `a` and `b` hold the same characters.
pub fn text_eq(a: &str, b: &str) -> (r: bool)
    ensures
        r == (a@ == b@),
{
    let x = String::from_str(a);
    let y = String::from_str(b);
    x == y
}

/// The D-Bus error name that a bus failure carries: that of the error reply
/// for a method error, none for any other failure.
pub uninterp spec fn method_error_name(e: zbus::Error) -> Option<Seq<char>>;

/// Relies on the variants of zbus::Error: a method error reply
/// (`MethodError`) carries the D-Bus error name and an optional
/// description; every other failure is described by its display text.
#[verifier::external_body]
fn dbus_error_parts(e: &zbus::Error) -> (r: (Option<String>, String))
    ensures
        r.0 matches Some(n) ==> method_error_name(*e) == Some(n@),
        r.0 is None ==> method_error_name(*e) is None,
{
    match e {
        zbus::Error::MethodError(name, text, _) => (Some(name.to_string()), text.clone().unwrap_or_default()),
        other => (None, other.to_string()),
    }
}

impl AppError {
    /// Classifies a failure given by its D-Bus error name, if it was an
    /// error reply, and its text.
    pub fn classify(name: Option<&str>, text: &str) -> (r: AppError)
        ensures
            r@ == classified(
                match name {
                    Some(n) => Some(n@),
                    None => None,
                },
                text@,
            ),
    {
        match name {
            Some(n) => {
                if text_eq(n, "net.reactivated.Fprint.Error.PermissionDenied") || text_eq(
                    n,
                    "org.freedesktop.DBus.Error.AccessDenied",
                ) {
                    AppError::PermissionDenied
                } else if text_eq(n, "net.reactivated.Fprint.Error.AlreadyInUse") {
                    AppError::AlreadyInUse
                } else if text_eq(n, "net.reactivated.Fprint.Error.NoSuchDevice") {
                    AppError::DeviceNotFound
                } else if text_eq(n, "org.freedesktop.DBus.Error.NoReply") || text_eq(
                    n,
                    "org.freedesktop.DBus.Error.Timeout",
                ) || text_eq(n, "org.freedesktop.DBus.Error.TimedOut") {
                    AppError::Timeout
                } else {
                    AppError::Unknown(String::from_str(text))
                }
            },
            None => AppError::Unknown(String::from_str(text)),
        }
    }

    /// Classifies a failure reported by the bus library by the D-Bus error
    /// name it carries; the text is that of the failure.
    pub fn from_dbus(e: &zbus::Error) -> (r: AppError)
        ensures
            exists|text: Seq<char>| r@ == classified(method_error_name(*e), text),
    {
        let (name, text) = dbus_error_parts(e);
        let r = match &name {
            Some(n) => AppError::classify(Some(n.as_str()), text.as_str()),
            None => AppError::classify(None, text.as_str()),
        };
        proof {
            let nv = match name {
                Some(n) => Some(n@),
                None => None,
            };
            assert(nv == method_error_name(*e));
            assert(r@ == classified(method_error_name(*e), text@));
        }
        r
    }

    /// Adds a context prefix to an unclassified error; known kinds carry
    /// their own message and stay as they are.
    pub fn with_context(self, context: &str) -> (r: AppError)
        ensures
            r@ == with_context_view(self@, context@),
    {
        match self {
            AppError::Unknown(m) => {
                let mut s = String::from_str(context);
                s.append(": ");
                s.append(m.as_str());
                AppError::Unknown(s)
            },
            other => other,
        }
    }

    /// The message shown to the user.
    pub fn localized_message(&self) -> (r: String)
        ensures
            r@ == message_of(self@),
    {
        match self {
            AppError::PermissionDenied => String::from_str("Permission denied."),
            AppError::AlreadyInUse => String::from_str(
                "Device is already in use by another application.",
            ),
            AppError::DeviceNotFound => String::from_str("Fingerprint device not found."),
            AppError::Timeout => String::from_str("Operation timed out."),
            AppError::ConnectDbus(m) => {
                let mut s = String::from_str("Failed to connect to DBus: \u{2068}");
                s.append(m.as_str());
                s.append("\u{2069}");
                proof {
                    reveal_strlit("Failed to connect to DBus: \u{2068}");
                    reveal_strlit("Failed to connect to DBus: ");
                    reveal_strlit("\u{2069}");
                    assert(s@ =~= message_of(self@));
                }
                s
            },
            AppError::Unknown(m) => m.clone(),
        }
    }
}

} // verus!
