//! The state machine that drives one request/response exchange.
//!
//! The driver performing the actual I/O calls one of the `on_*` callbacks
//! whenever the socket is ready or the client reports an event, handing the
//! outcome in as a plain value. Each callback answers with a [`Step`]: the
//! next action to arm, and at most one final result. A result is delivered
//! exactly when the exchange terminates, and the driver never calls a
//! callback on a terminated handler.

use vstd::prelude::*;
use vstd::slice::slice_subrange;

use crate::message::{
    connection_error_message, connection_error_text, failed_status_message, failed_status_text,
    read_error_message, read_error_text,
};
use crate::request::{HttpRequest, HttpResponse, RequestHead};

verus! {

/// Where an exchange stands.
#[derive(Clone, Copy, PartialEq, Eq, Structural, Debug)]
pub enum Phase {
    /// The request head has not been issued yet.
    AwaitingWriteReady,
    /// The request head is out; body bytes remain to be written.
    WritingBody,
    /// The body is fully written; the response head has not arrived.
    AwaitingResponse,
    /// A successful response with a body is being collected.
    ReadingBody,
    /// The exchange is over and its one result has been delivered.
    Done,
}

/// What the driver should do after a callback returns.
#[derive(Clone, Copy, PartialEq, Eq, Structural, Debug)]
pub enum Next {
    /// Wait for the socket to become writable again.
    Write,
    /// Wait for the socket to become readable.
    Read,
    /// Wait for the socket to become readable, under the response timeout.
    ReadTimeout,
    /// Close the exchange normally.
    End,
    /// Abort the exchange and drop the connection.
    Remove,
}

/// The outcome of one attempt to write the remaining body bytes.
pub enum WriteOutcome {
    /// This many bytes of the remaining body were accepted.
    Wrote(usize),
    /// The socket was not ready after all.
    WouldBlock,
    /// The write failed for good, with this description.
    Failed(String),
}

/// The outcome of one attempt to read from the response body.
pub enum ReadOutcome {
    /// These bytes arrived; an empty chunk means the body has ended.
    Data(Vec<u8>),
    /// The socket was not ready after all.
    WouldBlock,
    /// The read failed for good, with this description.
    Failed(String),
}

/// A callback's answer: the action to arm next, and the exchange's result
/// if this callback terminated it.
pub struct Step {
    pub next: Next,
    pub emit: Option<HttpResponse>,
}

/// How many seconds the driver may wait for the response head once the
/// body is fully written. No other wait is bounded.
pub const RESPONSE_TIMEOUT_SECS: u64 = 10;

/// The per-exchange state: the request being sent, how much of its body has
/// been written, the response bytes collected so far, and the phase.
pub struct TestHandler {
    req: HttpRequest,
    written: usize,
    response: Vec<u8>,
    phase: Phase,
}

impl TestHandler {
    /// The request this exchange was created for.
    pub closed spec fn request(self) -> HttpRequest {
        self.req
    }

    /// The body bytes the exchange sends.
    pub open spec fn body(self) -> Seq<u8> {
        self.request().body@
    }

    /// How many body bytes have been written so far.
    pub closed spec fn bytes_written(self) -> int {
        self.written as int
    }

    /// The response bytes collected so far.
    pub closed spec fn collected(self) -> Seq<u8> {
        self.response@
    }

    /// Where the exchange stands.
    pub closed spec fn phase(self) -> Phase {
        self.phase
    }

    /// Never more body bytes written than there are.
    pub open spec fn wf(self) -> bool {
        0 <= self.bytes_written() <= self.body().len()
    }

    /// When the driver may call [`TestHandler::on_request`].
    pub open spec fn awaiting_write_ready(self) -> bool {
        self.wf() && self.phase() == Phase::AwaitingWriteReady
    }

    /// When the driver may call [`TestHandler::on_request_writable`].
    pub open spec fn writing_body(self) -> bool {
        self.wf() && self.phase() == Phase::WritingBody
    }

    /// When the driver may call [`TestHandler::on_response`].
    pub open spec fn awaiting_response(self) -> bool {
        self.wf() && self.phase() == Phase::AwaitingResponse
    }

    /// When the driver may call [`TestHandler::on_response_readable`].
    pub open spec fn reading_body(self) -> bool {
        self.wf() && self.phase() == Phase::ReadingBody
    }

    /// When the driver may call [`TestHandler::on_error`]: any point of a
    /// still-running exchange.
    pub open spec fn live(self) -> bool {
        self.wf() && self.phase() != Phase::Done
    }

    /// Starts an exchange for one request.
    pub fn new(req: HttpRequest) -> (h: TestHandler)
        ensures
            h.wf(),
            h.request() == req,
            h.bytes_written() == 0,
            h.collected() == Seq::<u8>::empty(),
            h.phase() == Phase::AwaitingWriteReady,
    {
        TestHandler { req, written: 0, response: Vec::new(), phase: Phase::AwaitingWriteReady }
    }

    /// Whether the exchange is over. After this turns true no callback may
    /// be invoked again.
    pub fn is_done(&self) -> (r: bool)
        ensures
            r == (self.phase() == Phase::Done),
    {
        match self.phase {
            Phase::Done => true,
            _ => false,
        }
    }

    /// The body bytes still to be written.
    pub fn remaining_body(&self) -> (r: &[u8])
        requires
            self.wf(),
        ensures
            r@ == self.body().subrange(self.bytes_written(), self.body().len() as int),
    {
        slice_subrange(self.req.body.as_slice(), self.written, self.req.body.len())
    }

    /// The exchange begins: the driver is about to issue the request head.
    /// Answers with what the head must carry — the method and the declared
    /// body length — and asks for write readiness.
    pub fn on_request(&mut self) -> (r: (RequestHead, Next))
        requires
            old(self).awaiting_write_ready(),
        ensures
            final(self).wf(),
            final(self).request() == old(self).request(),
            final(self).bytes_written() == old(self).bytes_written(),
            final(self).collected() == old(self).collected(),
            final(self).phase() == Phase::WritingBody,
            r.0.method == old(self).request().method,
            r.0.content_length == old(self).body().len(),
            r.1 == Next::Write,
    {
        self.phase = Phase::WritingBody;
        let head = RequestHead {
            method: self.req.method,
            content_length: self.req.body.len() as u64,
        };
        (head, Next::Write)
    }

    /// The socket became writable and the driver tried to write the
    /// remaining body bytes, with the given outcome. Writing zero bytes
    /// means the body is complete: the exchange moves on to awaiting the
    /// response, under the response timeout. A partial write advances the
    /// count and asks to write again; a spurious wakeup changes nothing.
    /// A failed write terminates the exchange with the error's own text.
    pub fn on_request_writable(&mut self, outcome: WriteOutcome) -> (r: Step)
        requires
            old(self).writing_body(),
            outcome matches WriteOutcome::Wrote(n) ==> n <= old(self).body().len()
                - old(self).bytes_written(),
        ensures
            final(self).wf(),
            final(self).request() == old(self).request(),
            final(self).collected() == old(self).collected(),
            r.emit is Some <==> final(self).phase() == Phase::Done,
            match outcome {
                WriteOutcome::Wrote(n) => {
                    &&& r.emit is None
                    &&& if n == 0 {
                        &&& final(self).phase() == Phase::AwaitingResponse
                        &&& final(self).bytes_written() == old(self).bytes_written()
                        &&& r.next == Next::ReadTimeout
                    } else {
                        &&& final(self).phase() == Phase::WritingBody
                        &&& final(self).bytes_written() == old(self).bytes_written() + n
                        &&& r.next == Next::Write
                    }
                },
                WriteOutcome::WouldBlock => {
                    &&& *final(self) == *old(self)
                    &&& r.next == Next::Write
                    &&& r.emit is None
                },
                WriteOutcome::Failed(msg) => {
                    &&& final(self).phase() == Phase::Done
                    &&& final(self).bytes_written() == old(self).bytes_written()
                    &&& r.next == Next::Remove
                    &&& r.emit == Some(Err::<Vec<u8>, String>(msg))
                },
            },
    {
        match outcome {
            WriteOutcome::Wrote(n) => {
                if n == 0 {
                    self.phase = Phase::AwaitingResponse;
                    Step { next: Next::ReadTimeout, emit: None }
                } else {
                    proof {
                        vstd::std_specs::vec::axiom_spec_len(&self.req.body);
                    }
                    self.written = self.written + n;
                    Step { next: Next::Write, emit: None }
                }
            },
            WriteOutcome::WouldBlock => Step { next: Next::Write, emit: None },
            WriteOutcome::Failed(msg) => {
                self.phase = Phase::Done;
                Step { next: Next::Remove, emit: Some(Err(msg)) }
            },
        }
    }

    /// The response head arrived, carrying a status and possibly a declared
    /// body length. A success status with a positive declared length moves
    /// on to reading the body; a success status without one ends the
    /// exchange with an empty body. Any other status ends the exchange with
    /// a failure naming that status.
    pub fn on_response(&mut self, status: u16, content_length: Option<u64>) -> (r: Step)
        requires
            old(self).awaiting_response(),
        ensures
            final(self).wf(),
            final(self).request() == old(self).request(),
            final(self).bytes_written() == old(self).bytes_written(),
            final(self).collected() == old(self).collected(),
            r.emit is Some <==> final(self).phase() == Phase::Done,
            if status_is_success(status) {
                if content_length matches Some(len) && len > 0 {
                    &&& final(self).phase() == Phase::ReadingBody
                    &&& r.next == Next::Read
                    &&& r.emit is None
                } else {
                    &&& final(self).phase() == Phase::Done
                    &&& r.next == Next::End
                    &&& r.emit matches Some(Ok(b)) && b@ == Seq::<u8>::empty()
                }
            } else {
                &&& final(self).phase() == Phase::Done
                &&& r.next == Next::End
                &&& r.emit matches Some(Err(m)) && m@ == failed_status_message(status)
            },
    {
        if 200 <= status && status < 300 {
            let has_body = match content_length {
                Some(len) => len > 0,
                None => false,
            };
            if has_body {
                self.phase = Phase::ReadingBody;
                Step { next: Next::Read, emit: None }
            } else {
                self.phase = Phase::Done;
                Step { next: Next::End, emit: Some(Ok(Vec::new())) }
            }
        } else {
            self.phase = Phase::Done;
            Step { next: Next::End, emit: Some(Err(failed_status_text(status))) }
        }
    }

    /// The socket became readable and the driver tried to read more of the
    /// response body, with the given outcome. Arriving bytes are appended
    /// to the collected body; an empty chunk means the body has ended, and
    /// the exchange terminates delivering everything collected. A spurious
    /// wakeup changes nothing. A failed read terminates the exchange with
    /// a failure naming the error.
    pub fn on_response_readable(&mut self, outcome: ReadOutcome) -> (r: Step)
        requires
            old(self).reading_body(),
        ensures
            final(self).wf(),
            final(self).request() == old(self).request(),
            final(self).bytes_written() == old(self).bytes_written(),
            r.emit is Some <==> final(self).phase() == Phase::Done,
            match outcome {
                ReadOutcome::Data(chunk) => {
                    if chunk@.len() == 0 {
                        &&& final(self).phase() == Phase::Done
                        &&& final(self).collected() == Seq::<u8>::empty()
                        &&& r.next == Next::End
                        &&& r.emit matches Some(Ok(b)) && b@ == old(self).collected()
                    } else {
                        &&& final(self).phase() == Phase::ReadingBody
                        &&& final(self).collected() == old(self).collected() + chunk@
                        &&& r.next == Next::Read
                        &&& r.emit is None
                    }
                },
                ReadOutcome::WouldBlock => {
                    &&& *final(self) == *old(self)
                    &&& r.next == Next::Read
                    &&& r.emit is None
                },
                ReadOutcome::Failed(msg) => {
                    &&& final(self).phase() == Phase::Done
                    &&& final(self).collected() == old(self).collected()
                    &&& r.next == Next::End
                    &&& r.emit matches Some(Err(m)) && m@ == read_error_message(msg@)
                },
            },
    {
        match outcome {
            ReadOutcome::Data(chunk) => {
                if chunk.len() == 0 {
                    self.phase = Phase::Done;
                    let mut body = Vec::new();
                    core::mem::swap(&mut self.response, &mut body);
                    Step { next: Next::End, emit: Some(Ok(body)) }
                } else {
                    let mut chunk = chunk;
                    self.response.append(&mut chunk);
                    Step { next: Next::Read, emit: None }
                }
            },
            ReadOutcome::WouldBlock => Step { next: Next::Read, emit: None },
            ReadOutcome::Failed(msg) => {
                self.phase = Phase::Done;
                Step { next: Next::End, emit: Some(Err(read_error_text(msg.as_str()))) }
            },
        }
    }

    /// The client reported a connection-level error. The exchange
    /// terminates at once, from any phase, with a failure naming the error.
    pub fn on_error(&mut self, error: &str) -> (r: Step)
        requires
            old(self).live(),
        ensures
            final(self).wf(),
            final(self).request() == old(self).request(),
            final(self).bytes_written() == old(self).bytes_written(),
            final(self).collected() == old(self).collected(),
            final(self).phase() == Phase::Done,
            r.next == Next::Remove,
            r.emit matches Some(Err(m)) && m@ == connection_error_message(error@),
            r.emit is Some <==> final(self).phase() == Phase::Done,
    {
        self.phase = Phase::Done;
        Step { next: Next::Remove, emit: Some(Err(connection_error_text(error))) }
    }
}

/// Whether a status code denotes success.
pub open spec fn status_is_success(status: u16) -> bool {
    200 <= status < 300
}

/// Exactly one result per submitted request. Every callback demands a
/// handler whose exchange is still running, and — see each callback's
/// contract — delivers a result precisely when it moves the exchange to
/// `Done`. This law closes the argument: once an exchange is `Done`, no
/// callback's precondition holds any more, so a run of callbacks on one
/// handler delivers exactly one result, the one of the terminating
/// callback — never zero, never more.
pub proof fn lemma_done_is_final(h: TestHandler)
    requires
        h.phase() == Phase::Done,
    ensures
        !h.awaiting_write_ready(),
        !h.writing_body(),
        !h.awaiting_response(),
        !h.reading_body(),
        !h.live(),
{
}

} // verus!
