use vstd::prelude::*;

verus! {

#[verifier::external_type_specification]
#[verifier::external_body]
pub struct ExDaemonizeError(daemonize::DaemonizeError);

#[verifier::external_type_specification]
#[verifier::external_body]
pub struct ExUtf8Error(core::str::Utf8Error);

#[verifier::external_type_specification]
#[verifier::external_body]
pub struct ExIoError(std::io::Error);

#[verifier::external_type_specification]
#[verifier::external_body]
pub struct ExParseIntError(core::num::ParseIntError);

/// Every way an operation of this crate, or of the daemon built on it, can fail.
#[derive(Debug)]
#[allow(inconsistent_fields)]
pub enum Error {
    /// `uname` failed; its only documented cause is an invalid buffer.
    UnameError,
    ProcessNotFoundError,
    IoError { reason: String },
    DaemonizeError { error: daemonize::DaemonizeError },
    UnicodeError { error: core::str::Utf8Error },
    // Kinds that are not expected to occur in practice.
    InvalidLinuxVersionError,
    MalformedStatmError,
    ParseIntError,
    NoProcessToKillError,
    SysconfFailedError,
    SysInfoFailedError,
}

/// The outcome of every fallible operation of this crate.
pub type Result<T> = core::result::Result<T, Error>;

/// The description of an I/O failure comes from the host, so the
/// conversion promises the variant and that the reason is the error's own
/// text, not what that text is.
impl From<std::io::Error> for Error {
    fn from(err: std::io::Error) -> (r: Self)
        ensures
            r is IoError,
            vstd::string::to_string_from_display_ensures::<std::io::Error>(&err, r->IoError_reason),
    {
        Error::IoError { reason: err.to_string() }
    }
}

impl vstd::std_specs::convert::FromSpecImpl<std::io::Error> for Error {
    open spec fn obeys_from_spec() -> bool {
        false
    }

    open spec fn from_spec(err: std::io::Error) -> Error {
        Error::IoError { reason: arbitrary() }
    }
}

impl From<core::num::ParseIntError> for Error {
    fn from(err: core::num::ParseIntError) -> (r: Self) {
        Error::ParseIntError
    }
}

impl vstd::std_specs::convert::FromSpecImpl<core::num::ParseIntError> for Error {
    open spec fn obeys_from_spec() -> bool {
        true
    }

    open spec fn from_spec(err: core::num::ParseIntError) -> Error {
        Error::ParseIntError
    }
}

impl From<daemonize::DaemonizeError> for Error {
    fn from(error: daemonize::DaemonizeError) -> (r: Self) {
        Error::DaemonizeError { error }
    }
}

impl vstd::std_specs::convert::FromSpecImpl<daemonize::DaemonizeError> for Error {
    open spec fn obeys_from_spec() -> bool {
        true
    }

    open spec fn from_spec(error: daemonize::DaemonizeError) -> Error {
        Error::DaemonizeError { error }
    }
}

impl From<core::str::Utf8Error> for Error {
    fn from(error: core::str::Utf8Error) -> (r: Self) {
        Error::UnicodeError { error }
    }
}

impl vstd::std_specs::convert::FromSpecImpl<core::str::Utf8Error> for Error {
    open spec fn obeys_from_spec() -> bool {
        true
    }

    open spec fn from_spec(error: core::str::Utf8Error) -> Error {
        Error::UnicodeError { error }
    }
}

} // verus!
