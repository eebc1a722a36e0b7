//! Errors: the system's own failure, and the context in which it happened.
use vstd::prelude::*;
use vstd::string::StringExecFns;

verus! {

/// Which kind of failure an error reports.
#[derive(Debug, Clone, Copy, PartialEq, Eq, Structural)]
pub enum ErrorKind {
    /// The path cannot name a pipe; found before any system call.
    InvalidPath,
    /// The buffer is longer than one transfer can carry; found before any system call.
    BufferTooLarge,
    /// A system call failed.
    Os,
}

/// A failure as the system reports it: a code and its message.
#[derive(Debug, Clone)]
pub struct OsError {
    pub kind: ErrorKind,
    pub code: i32,
    pub message: String,
}

impl OsError {
    /// A failure of a system call.
    pub fn from_os(code: i32, message: String) -> (r: OsError)
        ensures
            r.kind == ErrorKind::Os,
            r.code == code,
            r.message@ == message@,
    {
        OsError { kind: ErrorKind::Os, code, message }
    }
}

/// Context of an operation on an endpoint, in the form
/// `Entity {path: "path",..} operation() failed with`.
pub open spec fn context_text(entity: Seq<char>, path: Seq<char>, operation: Seq<char>) -> Seq<char> {
    entity + " {path: \""@ + path + "\",..} "@ + operation + "() failed with"@
}

/// Builds the context text of an operation on an endpoint.
pub fn context(entity: &str, path: &str, operation: &str) -> (r: String)
    ensures
        r@ == context_text(entity@, path@, operation@),
{
    let mut r = String::from_str(entity);
    r.append(" {path: \"");
    r.append(path);
    r.append("\",..} ");
    r.append(operation);
    r.append("() failed with");
    r
}

/// A system failure together with what the library was doing when it happened.
#[derive(Debug, Clone)]
pub struct NamedPipeWinError {
    inner: OsError,
    msg: String,
}

impl NamedPipeWinError {
    pub closed spec fn spec_inner(&self) -> OsError {
        self.inner
    }

    pub closed spec fn spec_msg(&self) -> Seq<char> {
        self.msg@
    }

    /// Wraps a failure with the given context.
    pub fn from_inner(inner: OsError, msg: String) -> (r: NamedPipeWinError)
        ensures
            r.spec_inner() == inner,
            r.spec_msg() == msg@,
    {
        NamedPipeWinError { inner, msg }
    }

    /// An error that carries context only, with no system code.
    pub fn from_msg(msg: String) -> (r: NamedPipeWinError)
        ensures
            r.spec_inner().kind == ErrorKind::Os,
            r.spec_inner().code == 0,
            r.spec_inner().message@.len() == 0,
            r.spec_msg() == msg@,
    {
        NamedPipeWinError { inner: OsError::from_os(0, String::new()), msg }
    }

    pub fn kind(&self) -> (r: ErrorKind)
        ensures
            r == self.spec_inner().kind,
    {
        self.inner.kind
    }

    pub fn code(&self) -> (r: i32)
        ensures
            r == self.spec_inner().code,
    {
        self.inner.code
    }

    pub fn inner(&self) -> (r: &OsError)
        ensures
            *r == self.spec_inner(),
    {
        &self.inner
    }

    pub fn msg(&self) -> (r: &str)
        ensures
            r@ == self.spec_msg(),
    {
        self.msg.as_str()
    }

    /// The full text: the context, then the system's message.
    pub fn message(&self) -> (r: String)
        ensures
            r@ == self.spec_msg() + ": "@ + self.spec_inner().message@,
    {
        let mut r = self.msg.clone();
        r.append(": ");
        r.append(self.inner.message.as_str());
        r
    }
}

#[verifier::external_type_specification]
#[verifier::external_body]
pub struct ExIoError(std::io::Error);

/// Relies on std::io::Error::from_raw_os_error: an error value for a system code.
pub assume_specification[ std::io::Error::from_raw_os_error ](code: i32) -> std::io::Error;

/// Relies on std::io::Error::last_os_error: the error the system last reported to this thread.
pub assume_specification[ std::io::Error::last_os_error ]() -> std::io::Error;

/// A standard I/O error together with what the library was doing when it happened.
#[derive(Debug)]
pub struct NamedPipeIoError {
    inner: std::io::Error,
    msg: String,
}

impl NamedPipeIoError {
    pub closed spec fn spec_inner(&self) -> std::io::Error {
        self.inner
    }

    pub closed spec fn spec_msg(&self) -> Seq<char> {
        self.msg@
    }

    pub fn from_inner(inner: std::io::Error, msg: String) -> (r: NamedPipeIoError)
        ensures
            r.spec_inner() == inner,
            r.spec_msg() == msg@,
    {
        NamedPipeIoError { inner, msg }
    }

    /// Wraps the error the system last reported to this thread.
    pub fn last_os_error<S>(msg: String) -> (r: NamedPipeIoError)
        ensures
            r.spec_msg() == msg@,
    {
        NamedPipeIoError { inner: std::io::Error::last_os_error(), msg }
    }

    /// Wraps the error of the given system code.
    pub fn from_raw_os_error(rawerr: i32, msg: String) -> (r: NamedPipeIoError)
        ensures
            r.spec_msg() == msg@,
    {
        NamedPipeIoError { inner: std::io::Error::from_raw_os_error(rawerr), msg }
    }

    pub fn inner(&self) -> (r: &std::io::Error)
        ensures
            *r == self.spec_inner(),
    {
        &self.inner
    }

    pub fn msg(&self) -> (r: &str)
        ensures
            r@ == self.spec_msg(),
    {
        self.msg.as_str()
    }
}

} // verus!

verus! {

/// Wraps a failure with the context of an operation on an endpoint.
pub fn op_error(entity: &str, path: &str, operation: &str, inner: OsError) -> (r: NamedPipeWinError)
    ensures
        r.spec_inner() == inner,
        r.spec_msg() == context_text(entity@, path@, operation@),
{
    NamedPipeWinError::from_inner(inner, context(entity, path, operation))
}

} // verus!
