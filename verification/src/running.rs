//! The live session: the swappable active-agent slot, the per-run
//! cancellation controller, and the control-message actor's semantics.
//!
//! Concurrency discipline lives in the caller (a mutex around the slot, a
//! single-consumer channel feeding the actor); under that discipline every
//! slot access and every message is applied one at a time, so the behaviour
//! of any interleaving is the behaviour of some serial operation sequence.
//! The laws below quantify over those sequences.

use vstd::prelude::*;

use crate::session::AgentHandle;
use crate::session::Session;
use crate::session::SessionMessage;
use crate::toolbox::Toolbox;

verus! {

/// Shared handle to the session's execution sandbox, immutable once created.
#[derive(Clone, Copy, PartialEq, Eq, Structural, Debug)]
pub struct SandboxHandle {
    pub sandbox_id: u64,
}

/// The session's version-control working environment: the branch the session
/// works on and the reference it started from. Immutable once created.
#[derive(Clone, Debug)]
pub struct GitEnvironment {
    pub branch_name: String,
    pub start_ref: String,
}

/// The per-run cancellation controller. Once it has signalled cancellation it
/// is never reused: a fresh run requires a replacement, which carries the
/// next epoch.
#[derive(Clone, Copy, PartialEq, Eq, Structural, Debug)]
pub struct CancelToken {
    /// How many replacements preceded this controller; a replaced controller
    /// is never equal to any earlier one.
    pub epoch: u64,
    pub cancelled: bool,
}

impl CancelToken {
    /// A controller that has not signalled may start a run.
    pub open spec fn run_ready(&self) -> bool {
        !self.cancelled
    }

    /// Signal cancellation. The controller stays cancelled forever; only a
    /// replacement (see `RunningSession::reset_cancel_token`) readies the
    /// session for another run.
    pub fn cancel(&mut self)
        ensures
            final(self).cancelled,
            final(self).epoch == old(self).epoch,
    {
        self.cancelled = true;
    }
}

/// The live session. The caller shares it behind cheap clones; the fields
/// here are the state every clone agrees on, mutated only through the
/// operations below or through control messages.
#[derive(Debug)]
#[verifier::ext_equal]
pub struct RunningSession {
    pub session: Session,
    /// The active-agent slot: exactly one live agent handle at a time.
    pub active_agent: AgentHandle,
    /// The open external toolbox connections, to be cancelled at teardown.
    pub toolboxes: Vec<Toolbox>,
    pub executor: SandboxHandle,
    pub git_environment: GitEnvironment,
    /// The current cancellation controller; replaced, never reused.
    pub cancel: CancelToken,
}

/// The state change one control message requests: currently only swapping the
/// active agent.
pub open spec fn apply_message_spec(s: RunningSession, m: SessionMessage) -> RunningSession {
    match m {
        SessionMessage::SwapAgent(a) => RunningSession { active_agent: a, ..s },
    }
}

/// The state after the actor has applied a whole message sequence, in send
/// order, one at a time.
pub open spec fn apply_messages_spec(s: RunningSession, msgs: Seq<SessionMessage>) -> RunningSession
    decreases msgs.len(),
{
    if msgs.len() == 0 {
        s
    } else {
        apply_messages_spec(apply_message_spec(s, msgs[0]), msgs.drop_first())
    }
}

/// The agent a message carries.
pub open spec fn agent_of(m: SessionMessage) -> AgentHandle {
    match m {
        SessionMessage::SwapAgent(a) => a,
    }
}

/// Applying one more message at the end is applying the sequence, then it.
pub proof fn lemma_apply_messages_snoc(
    s: RunningSession,
    msgs: Seq<SessionMessage>,
    m: SessionMessage,
)
    ensures
        apply_messages_spec(s, msgs.push(m)) == apply_message_spec(apply_messages_spec(s, msgs), m),
    decreases msgs.len(),
{
    if msgs.len() == 0 {
        assert(msgs.push(m)[0] == m);
        assert(msgs.push(m).drop_first() =~= Seq::<SessionMessage>::empty());
        assert(apply_messages_spec(apply_message_spec(s, m), Seq::<SessionMessage>::empty())
            == apply_message_spec(s, m));
        assert(apply_messages_spec(s, msgs.push(m)) == apply_message_spec(s, m));
    } else {
        assert(msgs.push(m)[0] == msgs[0]);
        assert(msgs.push(m).drop_first() =~= msgs.drop_first().push(m));
        lemma_apply_messages_snoc(apply_message_spec(s, msgs[0]), msgs.drop_first(), m);
        assert(apply_messages_spec(s, msgs.push(m)) == apply_messages_spec(
            apply_message_spec(s, msgs[0]),
            msgs.drop_first().push(m),
        ));
    }
}

/// Law: message ordering. Control messages are applied in send order, one at
/// a time, so the state after processing N messages is exactly the result of
/// folding them over the initial state; in particular the active agent is the
/// one carried by the last message (or the initial agent if none was sent),
/// and nothing else in the session is touched.
pub proof fn lemma_message_ordering(s: RunningSession, msgs: Seq<SessionMessage>)
    ensures
        apply_messages_spec(s, msgs).active_agent == (if msgs.len() == 0 {
            s.active_agent
        } else {
            agent_of(msgs.last())
        }),
        apply_messages_spec(s, msgs) == (RunningSession {
            active_agent: apply_messages_spec(s, msgs).active_agent,
            ..s
        }),
    decreases msgs.len(),
{
    if msgs.len() > 0 {
        let s1 = apply_message_spec(s, msgs[0]);
        lemma_message_ordering(s1, msgs.drop_first());
        if msgs.len() > 1 {
            assert(msgs.drop_first().last() == msgs.last());
        }
        assert(apply_messages_spec(s, msgs) =~= (RunningSession {
            active_agent: apply_messages_spec(s, msgs).active_agent,
            ..s
        }));
    }
}

impl RunningSession {
    /// Construct the live session at the end of a successful startup: the
    /// given agent is active, the controller is fresh at epoch zero, and the
    /// started toolbox connections are owned for later teardown.
    pub fn new(
        session: Session,
        active_agent: AgentHandle,
        toolboxes: Vec<Toolbox>,
        executor: SandboxHandle,
        git_environment: GitEnvironment,
    ) -> (r: RunningSession)
        ensures
            r.session == session,
            r.active_agent == active_agent,
            r.toolboxes == toolboxes,
            r.executor == executor,
            r.git_environment == git_environment,
            r.cancel == (CancelToken { epoch: 0, cancelled: false }),
    {
        RunningSession {
            session,
            active_agent,
            toolboxes,
            executor,
            git_environment,
            cancel: CancelToken { epoch: 0, cancelled: false },
        }
    }

    /// Get a cheap copy of the active agent. Callers run queries against the
    /// copy, so the slot is never held for the duration of an agent run.
    pub fn active_agent(&self) -> (r: AgentHandle)
        ensures
            r == self.active_agent,
    {
        self.active_agent
    }

    /// Atomically replace the active agent. Readers see the previous agent or
    /// this one, never anything in between.
    pub fn swap_agent(&mut self, running_agent: AgentHandle)
        ensures
            *final(self) == (RunningSession { active_agent: running_agent, ..*old(self) }),
    {
        self.active_agent = running_agent;
    }

    /// Apply one control message to the session state.
    pub fn apply_message(&mut self, message: SessionMessage)
        ensures
            *final(self) == apply_message_spec(*old(self), message),
    {
        match message {
            SessionMessage::SwapAgent(agent) => {
                self.swap_agent(agent);
            },
        }
    }

    /// The actor's work over a finished message sequence: apply every message
    /// in send order, one at a time. The caller's single-consumer channel
    /// delivers messages in exactly this order.
    pub fn handle_messages(&mut self, messages: &Vec<SessionMessage>)
        ensures
            *final(self) == apply_messages_spec(*old(self), messages@),
    {
        let mut i: usize = 0;
        while i < messages.len()
            invariant
                i <= messages@.len(),
                *self == apply_messages_spec(*old(self), messages@.take(i as int)),
            decreases messages@.len() - i,
        {
            proof {
                assert(messages@.take(i + 1int).drop_last() =~= messages@.take(i as int));
                assert(messages@.take(i + 1int) =~= messages@.take(i as int).push(
                    messages@[i as int],
                ));
                lemma_apply_messages_snoc(*old(self), messages@.take(i as int), messages@[i as int]);
            }
            self.apply_message(messages[i]);
            i += 1;
        }
        proof {
            assert(messages@.take(messages@.len() as int) =~= messages@);
        }
    }

    /// The execution sandbox handle, immutable for the session's life.
    pub fn executor(&self) -> (r: SandboxHandle)
        ensures
            r == self.executor,
    {
        self.executor
    }

    /// The version-control working environment, immutable for the session's
    /// life.
    pub fn git_environment(&self) -> (r: &GitEnvironment)
        ensures
            r == &self.git_environment,
    {
        &self.git_environment
    }

    /// Retrieve a copy of the current cancellation controller.
    pub fn cancel_token(&self) -> (r: CancelToken)
        ensures
            r == self.cancel,
    {
        self.cancel
    }

    /// Replace the cancellation controller with a fresh one. A controller
    /// that has signalled is never reused; the replacement carries the next
    /// epoch and is ready for a run.
    pub fn reset_cancel_token(&mut self)
        requires
            old(self).cancel.epoch < u64::MAX,
        ensures
            *final(self) == (RunningSession {
                cancel: CancelToken { epoch: (old(self).cancel.epoch + 1) as u64, cancelled: false },
                ..*old(self)
            }),
            final(self).cancel.run_ready(),
    {
        let next = CancelToken { epoch: self.cancel.epoch + 1, cancelled: false };
        self.cancel = next;
    }

    /// Stop the active agent: replace the cancellation controller so a fresh
    /// run can begin immediately, and return the agent handle the caller must
    /// ask to stop. The slot itself is untouched.
    pub fn stop(&mut self) -> (r: AgentHandle)
        requires
            old(self).cancel.epoch < u64::MAX,
        ensures
            r == old(self).active_agent,
            *final(self) == (RunningSession {
                cancel: CancelToken { epoch: (old(self).cancel.epoch + 1) as u64, cancelled: false },
                ..*old(self)
            }),
    {
        self.reset_cancel_token();
        self.active_agent()
    }
}

/// One serialized access to the active-agent slot: a completed swap, or a
/// read.
#[derive(Clone, Copy, PartialEq, Eq, Structural, Debug)]
pub enum SlotOp {
    Swap(AgentHandle),
    Read,
}

/// The slot's value after a serialized access sequence: the agent of the
/// latest swap, or the initial agent if none happened. Reads do not change
/// the slot.
pub open spec fn slot_after(init: AgentHandle, ops: Seq<SlotOp>) -> AgentHandle
    decreases ops.len(),
{
    if ops.len() == 0 {
        init
    } else {
        match ops.last() {
            SlotOp::Swap(a) => a,
            SlotOp::Read => slot_after(init, ops.drop_last()),
        }
    }
}

/// `op` is a completed swap that wrote the value `v`.
pub open spec fn swap_wrote(op: SlotOp, v: AgentHandle) -> bool {
    match op {
        SlotOp::Swap(a) => a == v,
        SlotOp::Read => false,
    }
}

/// Law: atomic swap. In any serialized sequence of slot accesses — and the
/// slot's mutex serializes every concurrent history into one — the value a
/// read at position `i` observes was written by some completed swap before
/// it, or is the initial value; never a torn value.
pub proof fn lemma_atomic_swap(init: AgentHandle, ops: Seq<SlotOp>, i: int)
    requires
        0 <= i <= ops.len(),
    ensures
        slot_after(init, ops.take(i)) == init || exists|j: int|
            0 <= j < i && #[trigger] swap_wrote(ops[j], slot_after(init, ops.take(i))),
    decreases i,
{
    if i > 0 {
        let pre = ops.take(i);
        assert(pre.drop_last() =~= ops.take(i - 1));
        match pre.last() {
            SlotOp::Swap(a) => {
                assert(swap_wrote(ops[i - 1], slot_after(init, ops.take(i))));
            },
            SlotOp::Read => {
                lemma_atomic_swap(init, ops, i - 1);
            },
        }
    }
}

/// Replay a serialized slot-access sequence and report what every read
/// observed, in order.
pub fn replay_slot_ops(init: AgentHandle, ops: &Vec<SlotOp>) -> (r: Vec<AgentHandle>)
    ensures
        r@ == read_observations(init, ops@),
{
    let mut current = init;
    let mut observed: Vec<AgentHandle> = Vec::new();
    let mut i: usize = 0;
    while i < ops.len()
        invariant
            i <= ops@.len(),
            current == slot_after(init, ops@.take(i as int)),
            observed@ == read_observations(init, ops@.take(i as int)),
        decreases ops@.len() - i,
    {
        proof {
            assert(ops@.take(i + 1int).drop_last() =~= ops@.take(i as int));
        }
        match ops[i] {
            SlotOp::Swap(a) => {
                current = a;
            },
            SlotOp::Read => {
                observed.push(current);
            },
        }
        i += 1;
    }
    proof {
        assert(ops@.take(ops@.len() as int) =~= ops@);
    }
    observed
}

/// What each read in a serialized slot-access sequence observes, in order.
pub open spec fn read_observations(init: AgentHandle, ops: Seq<SlotOp>) -> Seq<AgentHandle>
    decreases ops.len(),
{
    if ops.len() == 0 {
        Seq::<AgentHandle>::empty()
    } else {
        let rest = read_observations(init, ops.drop_last());
        match ops.last() {
            SlotOp::Swap(_) => rest,
            SlotOp::Read => rest.push(slot_after(init, ops.drop_last())),
        }
    }
}

} // verus!
