use demitcp::fail::{Errnos, Fail, FailKind};

#[test]
fn errnos_are_those_of_the_platform() {
    let errnos = Errnos::current();
    assert_eq!(errnos.errno(FailKind::ConnectionAborted), libc::ECONNABORTED);
    assert_eq!(errnos.errno(FailKind::ConnectionRefused), libc::ECONNREFUSED);
    assert_eq!(errnos.errno(FailKind::ConnectionReset), libc::ECONNRESET);
    assert_eq!(errnos.errno(FailKind::BadMessage), libc::EBADMSG);
    assert_eq!(errnos.errno(FailKind::TimedOut), libc::ETIMEDOUT);
}

#[test]
fn errnos_differ_and_are_not_zero() {
    let errnos = Errnos::current();
    let all = [
        errnos.connection_aborted,
        errnos.connection_refused,
        errnos.connection_reset,
        errnos.bad_message,
        errnos.timed_out,
    ];
    for i in 0..all.len() {
        assert_ne!(all[i], 0);
        for j in 0..i {
            assert_ne!(all[i], all[j]);
        }
    }
}

#[test]
fn timeouts_are_told_apart() {
    let errnos = Errnos::current();
    assert!(errnos.is_timeout(libc::ETIMEDOUT));
    assert!(!errnos.is_timeout(libc::ECONNRESET));
}

#[test]
fn failure_keeps_kind_and_cause() {
    let fail = Fail::new(FailKind::TimedOut, "too late");
    assert_eq!(fail.kind, FailKind::TimedOut);
    assert_eq!(fail.cause, "too late");
}
