//! Deleting sessions in the background.
//!
//! The user interface files requests and picks results up; a worker takes the
//! requests one by one, deletes, and files the results. Both work on one
//! `DeletionPoller`, which the caller shares between their threads.
use std::collections::VecDeque;
use vstd::prelude::*;

use crate::session::Instance;

verus! {

/// A request to delete a session, and what goes with it.
pub struct DeletionRequest {
    pub session_id: String,
    pub instance: Instance,
    pub delete_worktree: bool,
    pub delete_branch: bool,
    pub delete_sandbox: bool,
    pub force_delete: bool,
    pub detach_hooks: bool,
}

/// What became of a request.
pub struct DeletionResult {
    pub session_id: String,
    pub success: bool,
    pub error: Option<String>,
}

/// What the worker does next.
pub enum WorkerStep {
    /// Delete what this request asks for, and deliver the result.
    Perform(DeletionRequest),
    /// Wait for a request.
    Wait,
    /// Nobody will ask again.
    Stop,
}

/// The requests and results on their way between the user interface and the
/// worker.
pub struct DeletionPoller {
    requests: VecDeque<DeletionRequest>,
    results: VecDeque<DeletionResult>,
    closed: bool,
}

impl DeletionPoller {
    /// The requests that the worker has not taken, the oldest first.
    pub closed spec fn waiting(self) -> Seq<DeletionRequest> {
        self.requests@
    }

    /// The results that were not picked up, the oldest first.
    pub closed spec fn ready(self) -> Seq<DeletionResult> {
        self.results@
    }

    /// The user interface is gone.
    pub closed spec fn is_closed(self) -> bool {
        self.closed
    }

    /// Nothing on its way.
    pub fn new() -> (res: Self)
        ensures
            res.waiting() == Seq::<DeletionRequest>::empty(),
            res.ready() == Seq::<DeletionResult>::empty(),
            !res.is_closed(),
    {
        DeletionPoller { requests: VecDeque::new(), results: VecDeque::new(), closed: false }
    }

    /// Files a request.
    pub fn request_deletion(&mut self, request: DeletionRequest)
        ensures
            final(self).waiting() == old(self).waiting().push(request),
            final(self).ready() == old(self).ready(),
            final(self).is_closed() == old(self).is_closed(),
    {
        self.requests.push_back(request);
    }

    /// Picks the oldest result up, if there is one.
    pub fn try_recv_result(&mut self) -> (res: Option<DeletionResult>)
        ensures
            res == if old(self).ready().len() > 0 {
                Some(old(self).ready()[0])
            } else {
                None
            },
            final(self).ready() == if old(self).ready().len() > 0 {
                old(self).ready().skip(1)
            } else {
                old(self).ready()
            },
            final(self).waiting() == old(self).waiting(),
            final(self).is_closed() == old(self).is_closed(),
    {
        let res = self.results.pop_front();
        proof {
            if old(self).ready().len() > 0 {
                assert(self.ready() =~= old(self).ready().skip(1));
            }
        }
        res
    }

    /// Takes note that the user interface is gone.
    pub fn close(&mut self)
        ensures
            final(self).waiting() == old(self).waiting(),
            final(self).ready() == old(self).ready(),
            final(self).is_closed(),
    {
        self.closed = true;
    }

    /// What the worker does next: it takes the oldest request; where there is
    /// none, it waits, or stops if nobody will ask again.
    pub fn next_request(&mut self) -> (step: WorkerStep)
        ensures
            step == if old(self).waiting().len() > 0 {
                WorkerStep::Perform(old(self).waiting()[0])
            } else if old(self).is_closed() {
                WorkerStep::Stop
            } else {
                WorkerStep::Wait
            },
            final(self).waiting() == if old(self).waiting().len() > 0 {
                old(self).waiting().skip(1)
            } else {
                old(self).waiting()
            },
            final(self).ready() == old(self).ready(),
            final(self).is_closed() == old(self).is_closed(),
    {
        match self.requests.pop_front() {
            Some(request) => {
                assert(self.waiting() =~= old(self).waiting().skip(1));
                WorkerStep::Perform(request)
            },
            None => if self.closed {
                WorkerStep::Stop
            } else {
                WorkerStep::Wait
            },
        }
    }

    /// Files a result, and says whether the worker goes on: once the user
    /// interface is gone nobody picks the result up, and the worker stops.
    pub fn deletion_loop(&mut self, result: DeletionResult) -> (goes_on: bool)
        ensures
            goes_on == !old(self).is_closed(),
            final(self).ready() == if goes_on {
                old(self).ready().push(result)
            } else {
                old(self).ready()
            },
            final(self).waiting() == old(self).waiting(),
            final(self).is_closed() == old(self).is_closed(),
    {
        if self.closed {
            false
        } else {
            self.results.push_back(result);
            true
        }
    }
}

impl Default for DeletionPoller {
    fn default() -> (res: Self)
        ensures
            res.waiting() == Seq::<DeletionRequest>::empty(),
            res.ready() == Seq::<DeletionResult>::empty(),
            !res.is_closed(),
    {
        Self::new()
    }
}

/// The results that are ready once the worker has taken every request, the
/// oldest first, and delivered what became of each.
pub open spec fn drained(
    waiting: Seq<DeletionRequest>,
    ready: Seq<DeletionResult>,
    perform: spec_fn(DeletionRequest) -> DeletionResult,
) -> Seq<DeletionResult>
    decreases waiting.len(),
{
    if waiting.len() == 0 {
        ready
    } else {
        drained(waiting.skip(1), ready.push(perform(waiting[0])), perform)
    }
}

/// Every request is answered once, and the answers come out in the order in
/// which the requests were filed.
pub proof fn law_first_come_first_served(
    waiting: Seq<DeletionRequest>,
    ready: Seq<DeletionResult>,
    perform: spec_fn(DeletionRequest) -> DeletionResult,
)
    ensures
        drained(waiting, ready, perform) == ready + waiting.map_values(perform),
    decreases waiting.len(),
{
    if waiting.len() > 0 {
        let next = ready.push(perform(waiting[0]));
        law_first_come_first_served(waiting.skip(1), next, perform);
        assert(next + waiting.skip(1).map_values(perform) =~= ready + waiting.map_values(
            perform,
        ));
    } else {
        assert(ready + waiting.map_values(perform) =~= ready);
    }
}

} // verus!
