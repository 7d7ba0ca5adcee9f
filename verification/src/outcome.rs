use vstd::prelude::*;

verus! {

/// What one probe invocation found out about the target.
#[derive(Clone, Copy, PartialEq, Eq, Structural, Debug)]
pub enum Outcome {
    /// The TCP handshake completed within the timeout: the bounded wait
    /// reported the socket writable and nothing else.
    Alive,
    /// The bounded wait ended without the writable-only signal: the peer
    /// refused, reset, or did not answer within the timeout.
    NotReady,
    /// A step of the probe itself failed.
    Error(ErrorKind),
}

/// Which step of the probe failed.
#[derive(Clone, Copy, PartialEq, Eq, Structural, Debug)]
pub enum ErrorKind {
    /// The nonblocking socket could not be created.
    SocketCreate,
    /// The no-delay option could not be set on the socket.
    SetNodelay,
    /// The bounded wait itself failed.
    Poll,
}

/// The reason a failed probe carries for the operator's log: which
/// syscall failed, never echoed in the HTTP body.
pub open spec fn reason_text(k: ErrorKind) -> Seq<char> {
    match k {
        ErrorKind::SocketCreate => "socket creation failed"@,
        ErrorKind::SetNodelay => "setsockopt nodelay failed"@,
        ErrorKind::Poll => "poll failed"@,
    }
}

impl ErrorKind {
    /// The human-readable reason for this failure, for logging.
    pub fn reason(&self) -> (r: String)
        ensures
            r@ == reason_text(*self),
    {
        match self {
            ErrorKind::SocketCreate => "socket creation failed".to_owned(),
            ErrorKind::SetNodelay => "setsockopt nodelay failed".to_owned(),
            ErrorKind::Poll => "poll failed".to_owned(),
        }
    }
}

/// The HTTP status code for an outcome: 200 for alive, 410 for not
/// ready, 500 for a probe error.
pub open spec fn status_of(o: Outcome) -> u16 {
    match o {
        Outcome::Alive => 200,
        Outcome::NotReady => 410,
        Outcome::Error(_) => 500,
    }
}

pub fn status_code(o: &Outcome) -> (r: u16)
    ensures
        r == status_of(*o),
{
    match o {
        Outcome::Alive => 200,
        Outcome::NotReady => 410,
        Outcome::Error(_) => 500,
    }
}

/// The JSON body that belongs to an HTTP status code.
pub open spec fn body_text(status: u16) -> Seq<char> {
    if status == 200 {
        "{\"status\":\"ok\"}"@
    } else if status == 410 {
        "{\"status\":\"gone\"}"@
    } else {
        "{\"status\":\"probe health failed\"}"@
    }
}

pub fn body_for_status(status: u16) -> (r: String)
    ensures
        r@ == body_text(status),
{
    if status == 200 {
        "{\"status\":\"ok\"}".to_owned()
    } else if status == 410 {
        "{\"status\":\"gone\"}".to_owned()
    } else {
        "{\"status\":\"probe health failed\"}".to_owned()
    }
}

/// Law: an outcome is rendered as 200 exactly when the probe found the
/// target alive; a refused, reset or silent target is never rendered as
/// 200, and a probe failure always reaches the operator as 500.
pub proof fn lemma_status_faithful(o: Outcome)
    ensures
        status_of(o) == 200 <==> o == Outcome::Alive,
        status_of(o) == 410 <==> o == Outcome::NotReady,
        status_of(o) == 500 <==> (o matches Outcome::Error(_)),
{
}

/// Law: the three response bodies are pairwise distinct, so the body
/// alone already tells the three statuses apart.
pub proof fn lemma_bodies_distinct()
    ensures
        body_text(200) != body_text(410),
        body_text(200) != body_text(500),
        body_text(410) != body_text(500),
{
    reveal_strlit("{\"status\":\"ok\"}");
    reveal_strlit("{\"status\":\"gone\"}");
    reveal_strlit("{\"status\":\"probe health failed\"}");
    assert(body_text(200).len() != body_text(410).len());
    assert(body_text(200).len() != body_text(500).len());
    assert(body_text(410).len() != body_text(500).len());
}

} // verus!
