//! A plugin loop that answers a fixed number of events: receive one, answer it, and again,
//! until `limit` events have been received and answered.

use vstd::prelude::*;

verus! {

/// What the plugin should do next.
#[derive(Debug, Clone, Copy, PartialEq, Eq)]
pub enum CycleAction {
    /// Receive the next event.
    Receive,
    /// Send the answer to the event just received.
    Reply,
    /// Stop.
    Finished,
}

/// How far a receive-and-answer loop has gone.
pub struct ReplyCycle {
    /// How many events to answer.
    pub limit: i32,
    /// How many events have been received.
    pub received: i32,
    /// Whether the last event received still waits for its answer.
    pub replying: bool,
}

/// In a run of a cycle over `limit` events, the `k`-th action: receive and answer in turn,
/// `limit` times (none when `limit` is not positive), then stop.
pub open spec fn expected_cycle_action(limit: i32, k: int) -> CycleAction {
    let rounds = if limit > 0 { limit as int } else { 0 };
    if 0 <= k < 2 * rounds {
        if k % 2 == 0 {
            CycleAction::Receive
        } else {
            CycleAction::Reply
        }
    } else {
        CycleAction::Finished
    }
}

impl ReplyCycle {
    /// The cycle's invariant.
    pub open spec fn wf(&self) -> bool {
        &&& 0 <= self.received
        &&& (self.received <= self.limit || self.received == 0)
        &&& (self.replying ==> self.received >= 1)
    }

    /// How many actions the cycle has performed.
    pub open spec fn step_index(&self) -> int {
        2 * self.received - if self.replying { 1int } else { 0 }
    }

    /// The action this state calls for.
    pub open spec fn action_spec(&self) -> CycleAction {
        if self.replying {
            CycleAction::Reply
        } else if self.received < self.limit {
            CycleAction::Receive
        } else {
            CycleAction::Finished
        }
    }

    /// A cycle over `limit` events.
    pub fn new(limit: i32) -> (c: ReplyCycle)
        ensures
            c.wf(),
            c.limit == limit,
            c.step_index() == 0,
    {
        ReplyCycle { limit, received: 0, replying: false }
    }

    /// The action the plugin should perform next.
    pub fn next_action(&self) -> (a: CycleAction)
        requires
            self.wf(),
        ensures
            a == self.action_spec(),
    {
        if self.replying {
            CycleAction::Reply
        } else if self.received < self.limit {
            CycleAction::Receive
        } else {
            CycleAction::Finished
        }
    }

    /// Records that the action was performed.
    pub fn advance(&mut self)
        requires
            old(self).wf(),
            old(self).action_spec() != CycleAction::Finished,
        ensures
            final(self).wf(),
            final(self).limit == old(self).limit,
            final(self).step_index() == old(self).step_index() + 1,
            old(self).replying ==> final(self).received == old(self).received && !final(self).replying,
            !old(self).replying ==> final(self).received == old(self).received + 1 && final(self).replying,
    {
        if self.replying {
            self.replying = false;
        } else {
            self.received = self.received + 1;
            self.replying = true;
        }
    }
}

/// The cycle asks for exactly the actions of [`expected_cycle_action`]: `limit` rounds of
/// receive-then-answer, then it stops.
pub proof fn lemma_cycle_run(c: ReplyCycle)
    requires
        c.wf(),
    ensures
        c.action_spec() == expected_cycle_action(c.limit, c.step_index()),
{
    let k = c.step_index();
    if c.replying {
        assert(k % 2 == 1);
    } else {
        assert(k % 2 == 0);
    }
}

} // verus!
