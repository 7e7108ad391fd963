//! The errors an op can report.

use vstd::prelude::*;

verus! {

/// The five outcomes a caller has to tell apart.
#[derive(Clone, Copy, Debug, PartialEq, Eq, Structural)]
pub enum ErrorKind {
    /// Unknown resource id, or a resource of another type.
    NotFound,
    /// Fail-fast contention on an exclusive borrow.
    Busy,
    /// The operation was cancelled.
    Cancelled,
    /// A policy held in the op state refused the call.
    PermissionDenied,
    /// A native failure passed through, or a malformed call.
    Underlying,
}

/// The class name under which an error is reported to the caller.
#[derive(Clone, Copy, Debug, PartialEq, Eq, Structural)]
pub enum ErrorClass {
    BadResource,
    Busy,
    Interrupted,
    PermissionDenied,
    TypeError,
    NotConnected,
    NotSupported,
    Error,
}

impl ErrorClass {
    pub open spec fn spec_kind(self) -> ErrorKind {
        match self {
            ErrorClass::BadResource => ErrorKind::NotFound,
            ErrorClass::Busy => ErrorKind::Busy,
            ErrorClass::Interrupted => ErrorKind::Cancelled,
            ErrorClass::PermissionDenied => ErrorKind::PermissionDenied,
            _ => ErrorKind::Underlying,
        }
    }

    pub open spec fn spec_name(self) -> Seq<char> {
        match self {
            ErrorClass::BadResource => "BadResource"@,
            ErrorClass::Busy => "Busy"@,
            ErrorClass::Interrupted => "Interrupted"@,
            ErrorClass::PermissionDenied => "PermissionDenied"@,
            ErrorClass::TypeError => "TypeError"@,
            ErrorClass::NotConnected => "NotConnected"@,
            ErrorClass::NotSupported => "NotSupported"@,
            ErrorClass::Error => "Error"@,
        }
    }

    /// Which of the five outcomes this class stands for.
    pub fn kind(&self) -> (k: ErrorKind)
        ensures
            k == self.spec_kind(),
    {
        match self {
            ErrorClass::BadResource => ErrorKind::NotFound,
            ErrorClass::Busy => ErrorKind::Busy,
            ErrorClass::Interrupted => ErrorKind::Cancelled,
            ErrorClass::PermissionDenied => ErrorKind::PermissionDenied,
            _ => ErrorKind::Underlying,
        }
    }

    /// The class name as the caller sees it.
    pub fn name(&self) -> (s: &'static str)
        ensures
            s@ == self.spec_name(),
    {
        match self {
            ErrorClass::BadResource => "BadResource",
            ErrorClass::Busy => "Busy",
            ErrorClass::Interrupted => "Interrupted",
            ErrorClass::PermissionDenied => "PermissionDenied",
            ErrorClass::TypeError => "TypeError",
            ErrorClass::NotConnected => "NotConnected",
            ErrorClass::NotSupported => "NotSupported",
            ErrorClass::Error => "Error",
        }
    }
}

/// An error returned by an op: a class and a message.
#[derive(Clone, Debug, PartialEq, Eq)]
pub struct OpError {
    pub class: ErrorClass,
    pub message: String,
}

impl OpError {
    pub open spec fn is(self, class: ErrorClass, message: Seq<char>) -> bool {
        self.class == class && self.message@ == message
    }

    /// Which of the five outcomes this error stands for.
    pub fn kind(&self) -> (k: ErrorKind)
        ensures
            k == self.class.spec_kind(),
    {
        self.class.kind()
    }
}

/// Whether `r` is the error of class `class` with message `message`.
pub open spec fn fails_with<T>(r: Result<T, OpError>, class: ErrorClass, message: Seq<char>) -> bool {
    r matches Err(e) && e.is(class, message)
}

/// An error of the given class with the given message.
pub fn custom_error(class: ErrorClass, message: &str) -> (e: OpError)
    ensures
        e.is(class, message@),
{
    OpError { class, message: String::from_str(message) }
}

/// A plain error.
pub fn generic_error(message: &str) -> (e: OpError)
    ensures
        e.is(ErrorClass::Error, message@),
{
    custom_error(ErrorClass::Error, message)
}

/// A malformed call.
pub fn type_error(message: &str) -> (e: OpError)
    ensures
        e.is(ErrorClass::TypeError, message@),
{
    custom_error(ErrorClass::TypeError, message)
}

/// The resource exists no more, said in the caller's words.
pub fn bad_resource(message: &str) -> (e: OpError)
    ensures
        e.is(ErrorClass::BadResource, message@),
{
    custom_error(ErrorClass::BadResource, message)
}

/// No resource of the asked type is registered under the id.
pub fn bad_resource_id() -> (e: OpError)
    ensures
        e.is(ErrorClass::BadResource, "Bad resource ID"@),
{
    custom_error(ErrorClass::BadResource, "Bad resource ID")
}

/// The platform or the build cannot do what was asked.
pub fn not_supported() -> (e: OpError)
    ensures
        e.is(ErrorClass::NotSupported, "The operation is not supported"@),
{
    custom_error(ErrorClass::NotSupported, "The operation is not supported")
}

/// `prefix` followed by `detail`, as one message.
pub fn message_with(prefix: &str, detail: &str) -> (s: String)
    ensures
        s@ == prefix@ + detail@,
{
    String::from_str(prefix).concat(detail)
}

} // verus!
