//! A virtual client: the sequence of requests that one worker issues.

use crate::mode::{operation_for, random_draw, select_operation, Mode, Operation, DRAW_RANGE};
use crate::request::{make_key, make_value, request_key, request_value, Request};
use vstd::prelude::*;

verus! {

/// State of one worker between two requests.
#[derive(Clone, Copy, Debug, PartialEq, Eq, Structural)]
pub struct Worker {
    /// Identifier of the client, unique within the run.
    pub client_id: usize,
    /// Number of requests the worker issues in all.
    pub requests: usize,
    /// Number of requests issued so far.
    pub issued: usize,
    /// Mode of the run.
    pub mode: Mode,
    /// Write ratio scaled to `[0, DRAW_RANGE]`.
    pub threshold: u64,
}

/// Whether `after` and `next` are what the worker `before` comes to when it
/// is asked for its next request and draws `draw`: while requests are left,
/// the request with the next index, its operation chosen by the mode and the
/// draw, and one more request issued; afterwards no request and no change.
pub open spec fn is_step(before: Worker, draw: u64, after: Worker, next: Option<Request>) -> bool {
    if before.issued < before.requests {
        &&& next matches Some(request)
        &&& request.op == operation_for(before.mode, draw, before.threshold)
        &&& request.key@ == request_key(before.client_id as nat, before.issued as nat)
        &&& request.value@ == request_value(before.client_id as nat, before.issued as nat)
        &&& after == (Worker { issued: (before.issued + 1) as usize, ..before })
    } else {
        &&& next is None
        &&& after == before
    }
}

impl Worker {
    /// A worker that has issued nothing yet.
    pub fn new(client_id: usize, requests: usize, mode: Mode, threshold: u64) -> (worker: Worker)
        ensures
            worker == (Worker { client_id, requests, issued: 0, mode, threshold }),
    {
        Worker { client_id, requests, issued: 0, mode, threshold }
    }

    /// Number of requests still to issue.
    pub open spec fn spec_remaining(&self) -> nat {
        if self.issued < self.requests {
            (self.requests - self.issued) as nat
        } else {
            0
        }
    }

    /// Number of requests still to issue.
    pub fn remaining(&self) -> (n: usize)
        ensures
            n == self.spec_remaining(),
    {
        if self.issued < self.requests {
            self.requests - self.issued
        } else {
            0
        }
    }

    /// The next request for a given draw, or none once all were issued.
    pub fn step(&mut self, draw: u64) -> (next: Option<Request>)
        ensures
            is_step(*old(self), draw, *final(self), next),
    {
        if self.issued < self.requests {
            let index: usize = self.issued;
            let op = select_operation(self.mode, draw, self.threshold);
            let key = make_key(self.client_id, index);
            let value = make_value(self.client_id, index);
            self.issued = index + 1;
            Some(Request { op, key, value })
        } else {
            None
        }
    }

    /// The next request, or none once all were issued. In mixed mode the
    /// operation follows a fresh random draw; in the other modes no draw is
    /// made and the operation is that of the mode.
    pub fn next_request(&mut self) -> (next: Option<Request>)
        ensures
            exists|draw: u64| draw < DRAW_RANGE && is_step(*old(self), draw, *final(self), next),
            old(self).mode != Mode::Mixed ==> is_step(*old(self), 0, *final(self), next),
            next is Some <==> old(self).issued < old(self).requests,
    {
        let draw: u64 = match self.mode {
            Mode::Mixed => random_draw(),
            _ => 0,
        };
        let ghost before = *self;
        let next = self.step(draw);
        assert(is_step(before, draw, *self, next));
        next
    }
}

/// A worker issues exactly as many requests as it was made for: each
/// request leaves one fewer to issue, and none is handed out when none is
/// left.
pub proof fn lemma_step_counts_down(before: Worker, draw: u64, after: Worker, next: Option<Request>)
    requires
        is_step(before, draw, after, next),
    ensures
        next is Some <==> before.spec_remaining() > 0,
        next is Some ==> after.spec_remaining() + 1 == before.spec_remaining(),
        next is None ==> after.spec_remaining() == 0,
{
}

/// With a write ratio of one a worker in mixed mode issues only writes,
/// whatever it draws; with a write ratio of zero only reads.
pub proof fn lemma_extreme_ratios(before: Worker, draw: u64, after: Worker, request: Request)
    requires
        before.mode == Mode::Mixed,
        draw < DRAW_RANGE,
        is_step(before, draw, after, Some(request)),
    ensures
        before.threshold == DRAW_RANGE ==> request.op == Operation::Write,
        before.threshold == 0 ==> request.op == Operation::Read,
{
}

} // verus!
