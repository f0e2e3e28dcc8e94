//! The start-up barrier between the engine and its plugins.
//!
//! Every plugin connects a requester to its own sync endpoint, sends a ready message and
//! waits. The engine, for each plugin in turn (internal plugins first, then external ones,
//! each in registration order), creates a replier, binds it to that plugin's endpoint and
//! waits for the ready message. Only once all plugins are ready does it reply to each of
//! them, most recently bound socket first. [`SyncBarrier`] makes these decisions; the
//! application performs each [`SyncAction`] and reports how it went.

use vstd::prelude::*;
use vstd::string::*;
use crate::endpoints::{plugin_sync_url, sync_prefix, sync_url, SocketData};
use crate::text::uuid_text;
use crate::errors::EngineError;

verus! {

/// Where the barrier stands.
pub enum SyncPhase {
    /// About to create the replier for plugin `current`.
    Create,
    /// About to bind the replier of plugin `current` to its sync endpoint.
    Bind,
    /// Waiting for the ready message of plugin `current`.
    Receive,
    /// Replying to the plugins, last bound socket first.
    Reply,
    /// Over, with this result.
    Finished(Result<(), EngineError>),
}

/// What the application should do next.
pub enum SyncAction {
    /// Create a replier socket.
    CreateSocket,
    /// Bind the socket just created to this endpoint.
    Bind(String),
    /// Wait for the ready message on that socket, then keep the socket.
    ReceiveReady,
    /// Send `message` on the kept socket with index `socket` (the last one kept), then
    /// drop it.
    Reply { socket: usize, message: String },
    /// Stop; the result is [`SyncBarrier::result`].
    Finished,
}

/// How the last action went.
#[derive(Debug, Clone, Copy, PartialEq, Eq)]
pub enum Outcome {
    /// It succeeded.
    Done,
    /// It failed with this error number.
    Failed(i32),
}

/// The engine's side of the start-up barrier.
pub struct SyncBarrier {
    /// The plugins to synchronise, in order.
    pub ids: Vec<u128>,
    pub phase: SyncPhase,
    /// The plugin being prepared.
    pub current: usize,
    /// How many sockets are kept, each having delivered its plugin's ready message.
    pub open: usize,
    /// How many replies have been sent.
    pub sent: usize,
}

/// The reply the engine sends each plugin once all are ready.
pub open spec fn sync_reply() -> Seq<char> {
    "ok"@
}

/// The message each plugin sends when it is ready.
pub open spec fn ready_message() -> Seq<char> {
    "ready"@
}

/// The message a plugin sends on its sync socket when it is ready.
pub fn plugin_ready_message() -> (m: String)
    ensures
        m@ == ready_message(),
{
    String::from_str("ready")
}

/// In a run where every action succeeds, the `k`-th action of the barrier over `ids`:
/// for each plugin in turn, create, bind to its endpoint and receive; then one reply per
/// plugin, to the sockets from the last kept to the first; then finish successfully.
pub open spec fn expected_action(ids: Seq<u128>, k: int, a: SyncAction) -> bool {
    let n = ids.len() as int;
    if 0 <= k < 3 * n {
        if k % 3 == 0 {
            a is CreateSocket
        } else if k % 3 == 1 {
            a matches SyncAction::Bind(u) && u@ == sync_url(sync_prefix(), ids[k / 3])
        } else {
            a is ReceiveReady
        }
    } else if 3 * n <= k < 4 * n {
        a matches SyncAction::Reply { socket, message } && socket == 4 * n - 1 - k && message@
            == sync_reply()
    } else if k == 4 * n {
        a is Finished
    } else {
        false
    }
}

impl SyncBarrier {
    /// The number of plugins to synchronise.
    pub open spec fn n(&self) -> nat {
        self.ids@.len()
    }

    /// The barrier's invariant.
    pub open spec fn wf(&self) -> bool {
        &&& self.current <= self.n()
        &&& self.sent <= self.n()
        &&& match self.phase {
            SyncPhase::Create | SyncPhase::Bind | SyncPhase::Receive => {
                &&& self.current < self.n()
                &&& self.open == self.current
                &&& self.sent == 0
            },
            SyncPhase::Reply => {
                &&& self.current == self.n()
                &&& self.sent < self.n()
                &&& self.open + self.sent == self.n()
            },
            SyncPhase::Finished(r) => r is Ok ==> {
                &&& self.current == self.n()
                &&& self.sent == self.n()
                &&& self.open == 0
            },
        }
    }

    /// How many actions a run where everything succeeded has performed to reach this state.
    pub open spec fn step_index(&self) -> int {
        match self.phase {
            SyncPhase::Create => 3 * self.current,
            SyncPhase::Bind => 3 * self.current + 1,
            SyncPhase::Receive => 3 * self.current + 2,
            SyncPhase::Reply => 3 * self.n() + self.sent,
            SyncPhase::Finished(_) => 3 * self.n() + self.sent,
        }
    }

    /// Whether the barrier has failed.
    pub open spec fn failed(&self) -> bool {
        self.phase matches SyncPhase::Finished(r) && r is Err
    }

    /// The action this state calls for.
    pub open spec fn action_spec(&self, a: SyncAction) -> bool {
        match self.phase {
            SyncPhase::Create => a is CreateSocket,
            SyncPhase::Bind => a matches SyncAction::Bind(u) && u@ == sync_url(
                sync_prefix(),
                self.ids@[self.current as int],
            ),
            SyncPhase::Receive => a is ReceiveReady,
            SyncPhase::Reply => a matches SyncAction::Reply { socket, message } && socket
                == self.open - 1 && message@ == sync_reply(),
            SyncPhase::Finished(_) => a is Finished,
        }
    }

    /// The state after `self` performed its action with `outcome`.
    pub open spec fn advanced(&self, outcome: Outcome, next: SyncBarrier) -> bool {
        &&& next.ids@ == self.ids@
        &&& match (self.phase, outcome) {
            (SyncPhase::Create, Outcome::Done) => next.phase is Bind && next.current
                == self.current && next.open == self.open && next.sent == self.sent,
            (SyncPhase::Create, Outcome::Failed(_)) => next.phase == SyncPhase::Finished(
                Err(EngineError::EngineSyncSocketCreateError()),
            ),
            (SyncPhase::Bind, Outcome::Done) => next.phase is Receive && next.current
                == self.current && next.open == self.open && next.sent == self.sent,
            (SyncPhase::Bind, Outcome::Failed(_)) => next.phase matches SyncPhase::Finished(
                Err(EngineError::EngineSyncSocketInprocBindError(u)),
            ) && u@ == sync_url(sync_prefix(), self.ids@[self.current as int]),
            (SyncPhase::Receive, Outcome::Done) => {
                &&& next.current == self.current + 1
                &&& next.open == self.open + 1
                &&& next.sent == self.sent
                &&& if next.current < self.n() {
                    next.phase is Create
                } else {
                    next.phase is Reply
                }
            },
            (SyncPhase::Receive, Outcome::Failed(c)) => next.phase == SyncPhase::Finished(
                Err(EngineError::EngineSyncSocketMsgRcvError(c)),
            ),
            (SyncPhase::Reply, Outcome::Done) => {
                &&& next.current == self.current
                &&& next.open == self.open - 1
                &&& next.sent == self.sent + 1
                &&& if next.sent < self.n() {
                    next.phase is Reply
                } else {
                    next.phase == SyncPhase::Finished(Ok(()))
                }
            },
            (SyncPhase::Reply, Outcome::Failed(c)) => next.phase == SyncPhase::Finished(
                Err(EngineError::EngineSyncSocketSendRcvError(c)),
            ),
            (SyncPhase::Finished(_), _) => false,
        }
    }

    /// A barrier over the internal plugins `plugin_ids` followed by the external plugins
    /// `external_ids`.
    pub fn new(plugin_ids: Vec<u128>, external_ids: Vec<u128>) -> (b: SyncBarrier)
        ensures
            b.wf(),
            b.ids@ == plugin_ids@ + external_ids@,
            b.step_index() == 0,
            !b.failed(),
    {
        let mut ids = plugin_ids;
        let mut rest = external_ids;
        ids.append(&mut rest);
        let mut b = SyncBarrier { ids, phase: SyncPhase::Create, current: 0, open: 0, sent: 0 };
        if b.ids.len() == 0 {
            b.phase = SyncPhase::Finished(Ok(()));
        }
        b
    }

    /// The action the application should perform next.
    pub fn next_action(&self) -> (a: SyncAction)
        requires
            self.wf(),
        ensures
            self.action_spec(a),
    {
        match &self.phase {
            SyncPhase::Create => SyncAction::CreateSocket,
            SyncPhase::Bind => {
                let endpoints = SocketData::default();
                SyncAction::Bind(
                    plugin_sync_url(endpoints.sync_inproc_url.as_str(), self.ids[self.current]),
                )
            },
            SyncPhase::Receive => SyncAction::ReceiveReady,
            SyncPhase::Reply => SyncAction::Reply {
                socket: self.open - 1,
                message: String::from_str("ok"),
            },
            SyncPhase::Finished(_) => SyncAction::Finished,
        }
    }

    /// The result of a finished barrier.
    pub fn result(self) -> (r: Result<(), EngineError>)
        requires
            self.phase is Finished,
        ensures
            self.phase == SyncPhase::Finished(r),
    {
        match self.phase {
            SyncPhase::Finished(r) => r,
            _ => Ok(()),
        }
    }

    /// Records how the last action went.
    pub fn advance(&mut self, outcome: Outcome)
        requires
            old(self).wf(),
            !(old(self).phase is Finished),
        ensures
            final(self).wf(),
            final(self).ids@ == old(self).ids@,
            old(self).advanced(outcome, *final(self)),
            !(final(self).phase == SyncPhase::Finished(
                Err(EngineError::EngineSyncSocketPopError()),
            )),
    {
        match (&self.phase, outcome) {
            (SyncPhase::Create, Outcome::Done) => {
                self.phase = SyncPhase::Bind;
            },
            (SyncPhase::Create, Outcome::Failed(_)) => {
                self.phase = SyncPhase::Finished(Err(EngineError::EngineSyncSocketCreateError()));
            },
            (SyncPhase::Bind, Outcome::Done) => {
                self.phase = SyncPhase::Receive;
            },
            (SyncPhase::Bind, Outcome::Failed(_)) => {
                let endpoints = SocketData::default();
                let url = plugin_sync_url(
                    endpoints.sync_inproc_url.as_str(),
                    self.ids[self.current],
                );
                self.phase = SyncPhase::Finished(
                    Err(EngineError::EngineSyncSocketInprocBindError(url)),
                );
            },
            (SyncPhase::Receive, Outcome::Done) => {
                let n = self.ids.len();
                assert(self.open < n);
                self.open = self.open + 1;
                self.current = self.current + 1;
                if self.current < self.ids.len() {
                    self.phase = SyncPhase::Create;
                } else {
                    self.enter_reply();
                }
            },
            (SyncPhase::Receive, Outcome::Failed(c)) => {
                self.phase = SyncPhase::Finished(Err(EngineError::EngineSyncSocketMsgRcvError(c)));
            },
            (SyncPhase::Reply, Outcome::Done) => {
                self.open = self.open - 1;
                self.sent = self.sent + 1;
                self.enter_reply();
            },
            (SyncPhase::Reply, Outcome::Failed(c)) => {
                self.phase = SyncPhase::Finished(
                    Err(EngineError::EngineSyncSocketSendRcvError(c)),
                );
            },
            (SyncPhase::Finished(_), _) => {},
        }
    }

    /// Moves to the next reply: finished once every plugin has had one, and a failure
    /// should no socket be left to reply on.
    fn enter_reply(&mut self)
        requires
            old(self).current == old(self).n(),
            old(self).sent <= old(self).n(),
            old(self).open + old(self).sent == old(self).n(),
        ensures
            final(self).ids@ == old(self).ids@,
            final(self).current == old(self).current,
            final(self).open == old(self).open,
            final(self).sent == old(self).sent,
            if old(self).sent < old(self).n() {
                final(self).phase is Reply
            } else {
                final(self).phase == SyncPhase::Finished(Ok(()))
            },
    {
        if self.sent >= self.ids.len() {
            self.phase = SyncPhase::Finished(Ok(()));
        } else if self.open == 0 {
            self.phase = SyncPhase::Finished(Err(EngineError::EngineSyncSocketPopError()));
        } else {
            self.phase = SyncPhase::Reply;
        }
    }
}

/// Every reply comes after the engine has received the ready message of every plugin, and
/// goes to a socket it still holds: the `sent`-th reply goes to the socket kept
/// `n - 1 - sent`-th.
pub proof fn lemma_reply_only_when_all_ready(b: SyncBarrier, a: SyncAction)
    requires
        b.wf(),
        b.action_spec(a),
        a is Reply,
    ensures
        b.current == b.n(),
        b.open + b.sent == b.n(),
        a->socket == b.n() - 1 - b.sent,
        a->socket < b.open,
{
}

/// In a run where every action succeeds, the barrier asks for exactly the actions of
/// [`expected_action`], in that order.
pub proof fn lemma_failure_free_run(b: SyncBarrier, a: SyncAction)
    requires
        b.wf(),
        !b.failed(),
        b.action_spec(a),
    ensures
        expected_action(b.ids@, b.step_index(), a),
{
    match b.phase {
        SyncPhase::Create => {
            assert((3 * b.current) % 3 == 0);
        },
        SyncPhase::Bind => {
            assert((3 * b.current + 1) % 3 == 1);
            assert((3 * b.current + 1) / 3 == b.current);
        },
        SyncPhase::Receive => {
            assert((3 * b.current + 2) % 3 == 2);
        },
        _ => {},
    }
}

/// A successful action moves a failure-free run one step forward.
pub proof fn lemma_step_forward(b: SyncBarrier, next: SyncBarrier)
    requires
        b.wf(),
        !(b.phase is Finished),
        b.advanced(Outcome::Done, next),
    ensures
        !next.failed(),
        next.step_index() == b.step_index() + 1,
{
}

/// Recording how an action went never changes which plugins are synchronised, nor their
/// order.
pub proof fn lemma_advance_keeps_ids(b: SyncBarrier, outcome: Outcome, next: SyncBarrier)
    requires
        b.wf(),
        !(b.phase is Finished),
        b.advanced(outcome, next),
    ensures
        next.ids@ == b.ids@,
{
}

/// A failure-free run from a fresh barrier over `ids` (internal plugins, then external
/// ones): the `i`-th state still holds `ids`, has performed `i` actions, and asks for the
/// `i`-th action of [`expected_action`]. In particular the `k`-th bind goes to the sync
/// endpoint of `ids[k]`, so every plugin's endpoint is bound exactly once, and the replies
/// go to the sockets from the last kept to the first.
pub proof fn lemma_failure_free_run_from_start(ids: Seq<u128>, run: Seq<SyncBarrier>, i: int, a: SyncAction)
    requires
        run.len() > 0,
        run[0].ids@ == ids,
        run[0].wf(),
        run[0].step_index() == 0,
        !run[0].failed(),
        forall|j: int|
            0 <= j < run.len() - 1 ==> {
                &&& !(#[trigger] run[j].phase is Finished)
                &&& run[j].advanced(Outcome::Done, run[j + 1])
                &&& run[j + 1].wf()
            },
        0 <= i < run.len(),
        run[i].action_spec(a),
    ensures
        run[i].ids@ == ids,
        run[i].step_index() == i,
        expected_action(ids, i, a),
        a matches SyncAction::Bind(u) ==> u@ == "inproc://sync"@ + "-"@ + uuid_text(ids[i / 3]),
{
    lemma_run_prefix(ids, run, i);
    lemma_failure_free_run(run[i], a);
}

/// Every state of a failure-free run keeps the ids, is well formed, has not failed, and has
/// performed as many actions as its position.
proof fn lemma_run_prefix(ids: Seq<u128>, run: Seq<SyncBarrier>, i: int)
    requires
        run.len() > 0,
        run[0].ids@ == ids,
        run[0].wf(),
        run[0].step_index() == 0,
        !run[0].failed(),
        forall|j: int|
            0 <= j < run.len() - 1 ==> {
                &&& !(#[trigger] run[j].phase is Finished)
                &&& run[j].advanced(Outcome::Done, run[j + 1])
                &&& run[j + 1].wf()
            },
        0 <= i < run.len(),
    ensures
        run[i].ids@ == ids,
        run[i].wf(),
        !run[i].failed(),
        run[i].step_index() == i,
    decreases i,
{
    if i > 0 {
        lemma_run_prefix(ids, run, i - 1);
        let j = i - 1;
        assert(!(run[j].phase is Finished));
        lemma_advance_keeps_ids(run[j], Outcome::Done, run[j + 1]);
        lemma_step_forward(run[j], run[j + 1]);
    }
}

} // verus!
