use vstd::prelude::*;

use crate::addr::{addr_text, Addr};
use crate::outcome::{body_for_status, body_text, status_code, status_of, ErrorKind, Outcome};
use crate::sys;

verus! {

/// The poll(2) event bit for "writable", as libc defines it on Linux.
/// The target counts as alive exactly when the bounded wait reports this
/// bit and no other.
pub const POLL_OUT: i16 = 0x004;

/// How long one probe waits for the handshake, in milliseconds.
pub const PROBE_TIMEOUT_MS: i32 = 1000;

/// What a finished bounded wait means: the target is alive exactly when
/// the kernel reported the writable bit and no other bit at all.
pub open spec fn outcome_of_revents(revents: Option<i16>) -> Outcome {
    if revents == Some(POLL_OUT) {
        Outcome::Alive
    } else {
        Outcome::NotReady
    }
}

/// What the whole wait step means: a wait that itself failed is a probe
/// error; a finished wait is read by `outcome_of_revents`.
pub open spec fn outcome_of_poll(polled: Result<Option<i16>, ()>) -> Outcome {
    match polled {
        Ok(revents) => outcome_of_revents(revents),
        Err(_) => Outcome::Error(ErrorKind::Poll),
    }
}

/// Reads the result of the bounded wait.  Exact: `Alive` if and only if
/// the wait finished and reported writable-only; every other finished
/// report, including bits nix could not represent, is `NotReady`.
pub fn interpret_poll(polled: Result<Option<i16>, ()>) -> (r: Outcome)
    ensures
        r == outcome_of_poll(polled),
{
    match polled {
        Ok(revents) => match revents {
            Some(bits) => {
                if bits == POLL_OUT {
                    Outcome::Alive
                } else {
                    Outcome::NotReady
                }
            },
            None => Outcome::NotReady,
        },
        Err(_) => Outcome::Error(ErrorKind::Poll),
    }
}

/// How far one probe invocation got, and what it saw there: the step
/// that failed, or the report of the bounded wait it reached.
#[derive(Clone, Copy, PartialEq, Eq, Debug)]
pub enum ProbeObservation {
    /// The nonblocking socket could not be created.
    SocketFailed,
    /// The no-delay option could not be set.
    NodelayFailed,
    /// The probe reached the bounded wait; this is what came back.
    Polled(Result<Option<i16>, ()>),
}

/// What an observation means: a failed step is the matching error, and a
/// reached wait is read by `outcome_of_poll`.
pub open spec fn outcome_of_observation(o: ProbeObservation) -> Outcome {
    match o {
        ProbeObservation::SocketFailed => Outcome::Error(ErrorKind::SocketCreate),
        ProbeObservation::NodelayFailed => Outcome::Error(ErrorKind::SetNodelay),
        ProbeObservation::Polled(polled) => outcome_of_poll(polled),
    }
}

/// What one probe invocation observed and how it was read.  The contract
/// of `probe` ties `outcome` to `observed` exactly, so the only trusted
/// part of a probe is the observation itself.
pub struct ProbeReport {
    /// The step that failed, or the bounded wait's report.
    pub observed: ProbeObservation,
    /// The reading of `observed`, per `outcome_of_observation`.
    pub outcome: Outcome,
}

/// Law: a finished wait is read as `Alive` exactly on the writable-only
/// report.  A connection-refused or reset report carries error or hangup
/// bits beside (or instead of) the writable bit, so it is never read as
/// `Alive`; neither is a timed-out wait, whose report has no bit set.
pub proof fn lemma_alive_iff_writable_only(revents: Option<i16>)
    ensures
        outcome_of_revents(revents) == Outcome::Alive <==> revents == Some(POLL_OUT),
        outcome_of_revents(revents) != Outcome::Alive ==> outcome_of_revents(revents)
            == Outcome::NotReady,
{
}

/// Law, end to end: a request is answered 200 exactly when the probe
/// reached the bounded wait and it finished with the writable-only
/// report; a failed socket, failed option or failed wait is answered
/// 500; and every other finished wait — refused, reset, peer-closed, or
/// timed out — is answered 410, never 200.
pub proof fn lemma_response_end_to_end(o: ProbeObservation)
    ensures
        status_of(outcome_of_observation(o)) == 200 <==> o == ProbeObservation::Polled(
            Ok(Some(POLL_OUT)),
        ),
        status_of(outcome_of_observation(o)) == 500 <==> (o == ProbeObservation::SocketFailed
            || o == ProbeObservation::NodelayFailed || (o matches ProbeObservation::Polled(
            Err(_),
        ))),
        status_of(outcome_of_observation(o)) == 410 <==> (o matches ProbeObservation::Polled(
            Ok(rv),
        ) && rv != Some(POLL_OUT)),
{
}

/// One bounded-time TCP connect attempt against `target`.
///
/// Creates a nonblocking socket, sets no-delay, starts the connect,
/// waits once for readiness with `timeout_ms` as the bound, sets
/// abortive linger, closes the socket on every path, and reads what it
/// observed with `outcome_of_observation`.  What the kernel reports
/// depends on the target and the host, so the observation itself is not
/// pinned here; its reading is, exactly.
///
/// Two steps of the classical sequence are left out, deliberately:
/// switching the kernel's delayed-ack heuristic (TCP_QUICKACK) off after
/// no-delay, and asking the wait for the peer-closed event (POLLRDHUP).
/// nix exposes neither — its socket options carry no quick-ack and its
/// poll flags no peer-closed bit — and reaching them through raw
/// setsockopt or poll would take unsafe code, which this crate does not
/// use.  Neither changes the tri-state outcome: quick-ack only shaves an
/// ack delay off the handshake, and a peer that refused, reset or closed
/// still shows up through the readable, error and hangup bits, which
/// poll(2) reports without being asked.
pub fn probe(target: &Addr, timeout_ms: i32) -> (r: ProbeReport)
    requires
        0 <= timeout_ms,
    ensures
        r.outcome == outcome_of_observation(r.observed),
{
    let fd = match sys::socket_nonblocking() {
        Ok(fd) => fd,
        Err(_) => {
            return ProbeReport {
                observed: ProbeObservation::SocketFailed,
                outcome: Outcome::Error(ErrorKind::SocketCreate),
            };
        },
    };
    if sys::set_nodelay(fd).is_err() {
        sys::close_fd(fd);
        return ProbeReport {
            observed: ProbeObservation::NodelayFailed,
            outcome: Outcome::Error(ErrorKind::SetNodelay),
        };
    }
    // On a nonblocking socket the connect normally reports in-progress,
    // and a same-host connect can report a transient error yet still
    // complete: whatever it reported, the bounded wait below decides.
    let _ = sys::connect_start(fd, target);
    let polled = sys::poll_single(fd, timeout_ms);
    // Abortive linger keeps the close below from blocking; if setting it
    // fails the outcome is unchanged.
    let _ = sys::set_linger_abort(fd);
    sys::close_fd(fd);
    let outcome = interpret_poll(polled);
    ProbeReport { observed: ProbeObservation::Polled(polled), outcome }
}

/// One probe against `addr` with the standard timeout, rendered as an
/// HTTP status code: 200 alive, 410 not ready, 500 probe error.
pub fn check_status(addr: &Addr) -> (r: u16)
    ensures
        r == 200 || r == 410 || r == 500,
{
    let report = probe(addr, PROBE_TIMEOUT_MS);
    status_code(&report.outcome)
}

/// Everything the HTTP layer needs for one response: the status code,
/// the JSON body, and the value of the `X-Probe-Addr` header.
pub struct HealthResponse {
    pub status: u16,
    pub body: String,
    pub probe_addr: String,
}

/// Handles one request: probes `addr` once and builds the response
/// parts.  The status is one of 200, 410 and 500; the body is exactly
/// the JSON that belongs to that status; the header value is exactly the
/// text form of the probed address.
pub fn health_probe(addr: &Addr) -> (r: HealthResponse)
    ensures
        r.status == 200 || r.status == 410 || r.status == 500,
        r.body@ == body_text(r.status),
        r.probe_addr@ == addr_text(*addr),
{
    let status = check_status(addr);
    let body = body_for_status(status);
    let probe_addr = addr.to_text();
    HealthResponse { status, body, probe_addr }
}

} // verus!
