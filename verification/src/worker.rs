//! The two-phase callback worker.
//!
//! The worker owns the bound listener and consumes at most two
//! connections. A connection that does not name `/cb` is answered with
//! the bridge page and the worker keeps waiting; one that names `/cb` and
//! carries the URL header delivers the URL and ends the flow; one that
//! names `/cb` without the header is dropped silently. The embedding
//! application drives the loop: it accepts a connection, reads the
//! request text, and performs whatever [`Outcome`] the worker decides.

use vstd::prelude::*;
use vstd::string::StrSliceExecFns;

use crate::request::extract_full_url_header;
use crate::request::extract_spec;
use crate::request::is_callback_request;
use crate::request::is_cb_request;
use crate::response::bridge_response;
use crate::response::bridge_response_spec;
use crate::response::success_response;
use crate::response::success_response_spec;

verus! {

/// The number of connections one flow may consume.
pub const ATTEMPT_BUDGET: u8 = 2;

/// What the embedding application must do with one accepted connection.
pub enum Outcome {
    /// Send the bridge page and keep the listener open.
    Bridge(String),
    /// Publish the captured URL to the embedding application, send the
    /// success response, and stop.
    Deliver(String, String),
    /// Drop the connection without a response.
    Ignore,
}

/// The mathematical shape of an [`Outcome`]: the same three verdicts over
/// plain character sequences.
pub enum OutcomeSpec {
    Bridge(Seq<char>),
    Deliver(Seq<char>, Seq<char>),
    Ignore,
}

impl View for Outcome {
    type V = OutcomeSpec;

    open spec fn view(&self) -> OutcomeSpec {
        match self {
            Outcome::Bridge(page) => OutcomeSpec::Bridge(page@),
            Outcome::Deliver(url, resp) => OutcomeSpec::Deliver(url@, resp@),
            Outcome::Ignore => OutcomeSpec::Ignore,
        }
    }
}

/// The request delivers the flow's result: it names `/cb` and carries the
/// URL header.
pub open spec fn delivers(req: Seq<char>) -> bool {
    is_cb_request(req) && extract_spec(req) is Some
}

/// One worker, scoped to one flow: the port it listens on, how many
/// connections it has consumed, and whether the URL has been delivered.
pub struct Worker {
    pub port: u16,
    pub attempts: u8,
    pub delivered: bool,
}

/// The state a fresh worker starts in.
pub open spec fn init_spec(port: u16) -> Worker {
    Worker { port, attempts: 0, delivered: false }
}

/// The state after one consumed connection: one more attempt, and
/// delivery exactly when this request (or an earlier one) delivered.
pub open spec fn step_spec(w: Worker, req: Seq<char>) -> Worker {
    Worker {
        port: w.port,
        attempts: (w.attempts + 1) as u8,
        delivered: w.delivered || delivers(req),
    }
}

/// The verdict on one request: the bridge page off the callback path, the
/// extracted URL and the success response on it, silence when the header
/// is missing.
pub open spec fn outcome_spec(w: Worker, req: Seq<char>) -> OutcomeSpec {
    if is_cb_request(req) {
        match extract_spec(req) {
            Some(url) => OutcomeSpec::Deliver(url, success_response_spec()),
            None => OutcomeSpec::Ignore,
        }
    } else {
        OutcomeSpec::Bridge(bridge_response_spec(w.port))
    }
}

/// The worker folded over a whole run of connection attempts: it steps
/// while it still accepts and then stands still.
pub open spec fn run_spec(w: Worker, reqs: Seq<Seq<char>>) -> Worker
    decreases reqs.len(),
{
    if reqs.len() == 0 || !w.can_accept_spec() {
        w
    } else {
        run_spec(step_spec(w, reqs.first()), reqs.drop_first())
    }
}

impl Worker {
    /// The worker still accepts connections: its budget is not exhausted
    /// and the URL has not been delivered.
    pub open spec fn can_accept_spec(self) -> bool {
        self.attempts < ATTEMPT_BUDGET && !self.delivered
    }

    /// A fresh worker for one flow on the given port.
    pub fn new(port: u16) -> (w: Worker)
        ensures
            w == init_spec(port),
            w.can_accept_spec(),
    {
        Worker { port, attempts: 0, delivered: false }
    }

    /// Whether the loop may take one more connection.
    pub fn can_accept(&self) -> (r: bool)
        ensures
            r == self.can_accept_spec(),
    {
        self.attempts < ATTEMPT_BUDGET && !self.delivered
    }

    /// Decides one accepted connection: consumes an attempt and returns
    /// what to do with the request that was read.
    pub fn on_connection(&mut self, request: &str) -> (out: Outcome)
        requires
            old(self).can_accept_spec(),
        ensures
            *final(self) == step_spec(*old(self), request@),
            out@ == outcome_spec(*old(self), request@),
    {
        self.attempts = self.attempts + 1;
        if is_callback_request(request) {
            match extract_full_url_header(request) {
                Some(url) => {
                    self.delivered = true;
                    Outcome::Deliver(url, success_response().to_owned())
                },
                None => Outcome::Ignore,
            }
        } else {
            Outcome::Bridge(bridge_response(self.port))
        }
    }

    /// Consumes an attempt for a connection whose request could not be
    /// read; nothing is sent and nothing is delivered.
    pub fn skip_connection(&mut self)
        requires
            old(self).can_accept_spec(),
        ensures
            final(self).port == old(self).port,
            final(self).attempts == old(self).attempts + 1,
            final(self).delivered == old(self).delivered,
    {
        self.attempts = self.attempts + 1;
    }
}

/// A callback request that carries the header delivers exactly its URL,
/// unmodified, with the success response, and ends the flow.
pub proof fn lemma_callback_delivers_exact_url(w: Worker, req: Seq<char>, url: Seq<char>)
    requires
        is_cb_request(req),
        extract_spec(req) == Some(url),
    ensures
        outcome_spec(w, req) == OutcomeSpec::Deliver(url, success_response_spec()),
        step_spec(w, req).delivered,
{
}

/// A request off the callback path is answered with the bridge page and
/// leaves the worker running: nothing is delivered by it.
pub proof fn lemma_other_request_keeps_worker(w: Worker, req: Seq<char>)
    requires
        !is_cb_request(req),
    ensures
        outcome_spec(w, req) == OutcomeSpec::Bridge(bridge_response_spec(w.port)),
        step_spec(w, req).delivered == w.delivered,
{
}

/// A callback request without the URL header is dropped in silence: no
/// outcome is published and the worker's delivery state is unchanged.
pub proof fn lemma_missing_header_is_silent(w: Worker, req: Seq<char>)
    requires
        is_cb_request(req),
        extract_spec(req) is None,
    ensures
        outcome_spec(w, req) is Ignore,
        step_spec(w, req).delivered == w.delivered,
{
}

/// The connection budget: however long the run of attempts, a worker
/// never consumes more than two connections.
pub proof fn lemma_connection_budget(w: Worker, reqs: Seq<Seq<char>>)
    requires
        w.attempts <= ATTEMPT_BUDGET,
    ensures
        run_spec(w, reqs).attempts <= ATTEMPT_BUDGET,
    decreases reqs.len(),
{
    if reqs.len() != 0 && w.can_accept_spec() {
        lemma_connection_budget(step_spec(w, reqs.first()), reqs.drop_first());
    }
}

/// Delivery is terminal: once the URL is out, no further connection is
/// accepted and the worker's state never moves again.
pub proof fn lemma_delivered_is_terminal(w: Worker, reqs: Seq<Seq<char>>)
    requires
        w.delivered,
    ensures
        !w.can_accept_spec(),
        run_spec(w, reqs) == w,
{
}

} // verus!
