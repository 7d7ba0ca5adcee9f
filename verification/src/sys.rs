use vstd::prelude::*;

use nix::poll::{PollFd, PollFlags};
use nix::sys::socket::sockopt::{Linger, TcpNoDelay};
use nix::sys::socket::{AddressFamily, SockFlag, SockType, SockaddrIn};

use crate::addr::Addr;

verus! {

/// Relies on nix::sys::socket::socket: creates an IPv4 TCP stream socket
/// already in nonblocking mode; socket(2) returns a nonnegative
/// descriptor on success.
#[verifier::external_body]
pub(crate) fn socket_nonblocking() -> (r: Result<i32, ()>)
    ensures
        r matches Ok(fd) ==> fd >= 0,
{
    match nix::sys::socket::socket(
        AddressFamily::Inet,
        SockType::Stream,
        SockFlag::SOCK_NONBLOCK,
        None,
    ) {
        Ok(fd) => Ok(fd),
        Err(_) => Err(()),
    }
}

/// Relies on nix::sys::socket::setsockopt with the TCP no-delay option:
/// turns off Nagle's algorithm on the probe socket.
#[verifier::external_body]
pub(crate) fn set_nodelay(fd: i32) -> (r: Result<(), ()>) {
    match nix::sys::socket::setsockopt(fd, TcpNoDelay, &true) {
        Ok(()) => Ok(()),
        Err(_) => Err(()),
    }
}

/// Relies on nix::sys::socket::connect with a sockaddr built from the
/// plain address fields: starts the TCP handshake.  On a nonblocking
/// socket the expected report is the in-progress errno; the Err value
/// carries the raw errno.
#[verifier::external_body]
pub(crate) fn connect_start(fd: i32, addr: &Addr) -> (r: Result<(), i32>) {
    let sa = SockaddrIn::new(addr.o0, addr.o1, addr.o2, addr.o3, addr.port);
    match nix::sys::socket::connect(fd, &sa) {
        Ok(()) => Ok(()),
        Err(e) => Err(e as i32),
    }
}

/// Relies on nix::poll::poll with one descriptor: requests the readable
/// and writable events and waits until one of them (or an error, hangup
/// or invalid-descriptor condition, which poll(2) reports whether or not
/// they were requested) arrives, or `timeout_ms` milliseconds have
/// passed.  The peer-closed event (POLLRDHUP) is not requested: nix's
/// flag set does not carry that bit.  Ok holds the revents bits the
/// kernel reported (None where nix cannot represent them).  A negative
/// timeout would wait without bound, so it is ruled out here.
#[verifier::external_body]
pub(crate) fn poll_single(fd: i32, timeout_ms: i32) -> (r: Result<Option<i16>, ()>)
    requires
        0 <= timeout_ms,
{
    let events = PollFlags::POLLIN | PollFlags::POLLOUT;
    let mut fds = [PollFd::new(fd, events)];
    match nix::poll::poll(&mut fds, timeout_ms) {
        Ok(_) => match fds[0].revents() {
            Some(flags) => Ok(Some(flags.bits())),
            None => Ok(None),
        },
        Err(_) => Err(()),
    }
}

/// Relies on nix::sys::socket::setsockopt with SO_LINGER: sets abortive
/// linger (on, zero seconds), so that the close that follows resets the
/// half-open connection at once instead of blocking or lingering.
#[verifier::external_body]
pub(crate) fn set_linger_abort(fd: i32) -> (r: Result<(), ()>) {
    let val = libc::linger { l_onoff: 1, l_linger: 0 };
    match nix::sys::socket::setsockopt(fd, Linger, &val) {
        Ok(()) => Ok(()),
        Err(_) => Err(()),
    }
}

/// Relies on nix::unistd::close: releases the descriptor, whatever state
/// the connect attempt left it in.
#[verifier::external_body]
pub(crate) fn close_fd(fd: i32) {
    let _ = nix::unistd::close(fd);
}

} // verus!
