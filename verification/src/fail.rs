//! Failures and the error numbers that report them to applications.
use vstd::prelude::*;

verus! {

/// The error that an operation ended in.
#[derive(Clone, Copy, Debug, PartialEq, Eq, Structural)]
pub enum FailKind {
    /// ECONNABORTED
    ConnectionAborted,
    /// ECONNREFUSED
    ConnectionRefused,
    /// ECONNRESET
    ConnectionReset,
    /// EBADMSG
    BadMessage,
    /// ETIMEDOUT
    TimedOut,
}

/// A failure: its kind, and a description for people.
#[derive(Clone, Copy, Debug, PartialEq, Eq)]
pub struct Fail {
    pub kind: FailKind,
    pub cause: &'static str,
}

/// The numbers that the target platform gives to the errors of [`FailKind`].
#[derive(Clone, Copy, Debug, PartialEq, Eq, Structural)]
pub struct Errnos {
    pub connection_aborted: i32,
    pub connection_refused: i32,
    pub connection_reset: i32,
    pub bad_message: i32,
    pub timed_out: i32,
}

impl Errnos {
    /// The number of the given kind of failure.
    pub open spec fn number(self, kind: FailKind) -> i32 {
        match kind {
            FailKind::ConnectionAborted => self.connection_aborted,
            FailKind::ConnectionRefused => self.connection_refused,
            FailKind::ConnectionReset => self.connection_reset,
            FailKind::BadMessage => self.bad_message,
            FailKind::TimedOut => self.timed_out,
        }
    }

    /// No number is zero, and no two kinds share a number.
    pub open spec fn wf(self) -> bool {
        &&& forall|kind: FailKind| #[trigger] self.number(kind) != 0
        &&& forall|a: FailKind, b: FailKind|
            a != b ==> #[trigger] self.number(a) != #[trigger] self.number(b)
    }

    /// The constants `ECONNABORTED`, `ECONNREFUSED`, `ECONNRESET`, `EBADMSG` and
    /// `ETIMEDOUT` of the `libc` crate. Claimed of them: on every target none is zero and
    /// they differ from each other. Their values depend on the target and are left unsaid.
    #[verifier::external_body]
    fn of_target() -> (errnos: Errnos)
        ensures
            errnos.wf(),
    {
        Errnos {
            connection_aborted: libc::ECONNABORTED,
            connection_refused: libc::ECONNREFUSED,
            connection_reset: libc::ECONNRESET,
            bad_message: libc::EBADMSG,
            timed_out: libc::ETIMEDOUT,
        }
    }

    /// The error numbers of the target platform.
    pub fn current() -> (errnos: Errnos)
        ensures
            errnos.wf(),
    {
        Self::of_target()
    }

    /// The number that reports a failure of the given kind.
    pub fn errno(&self, kind: FailKind) -> (n: i32)
        ensures
            n == self.number(kind),
    {
        match kind {
            FailKind::ConnectionAborted => self.connection_aborted,
            FailKind::ConnectionRefused => self.connection_refused,
            FailKind::ConnectionReset => self.connection_reset,
            FailKind::BadMessage => self.bad_message,
            FailKind::TimedOut => self.timed_out,
        }
    }

    /// Whether `errno` reports that a wait ran into its deadline.
    pub fn is_timeout(&self, errno: i32) -> (r: bool)
        ensures
            r == (errno == self.number(FailKind::TimedOut)),
    {
        errno == self.timed_out
    }
}

impl Fail {
    /// A failure of the given kind.
    pub fn new(kind: FailKind, cause: &'static str) -> (fail: Fail)
        ensures
            fail.kind == kind,
            fail.cause@ == cause@,
    {
        Fail { kind, cause }
    }
}

} // verus!
