//! The engine handle: bringing the engine up, keeping account of its
//! sessions and of the notification handler, and tearing it down.
//!
//! The engine is one per process. A [`Rime`] stands for the running
//! instance: it cannot be copied, it is made only from a finished
//! [`Startup`], and [`Rime::teardown`] takes it for good. Every session
//! that the engine hands out is entered in the handle's ledger with the
//! number of its owners, and the handle alone decides when the engine is
//! asked to destroy one: when the last owner lets go, when a caller asks
//! for it, or at teardown. Each of these happens at most once for a
//! session, because the entry leaves the ledger with the request.
//!
//! An owner is a [`RimeSession`] value, whoever holds it: the caller, or
//! a snapshot that was taken of the session. A snapshot is entered as an
//! owner when it is made, so the session lives at least as long as the
//! last snapshot of it is held.

use vstd::prelude::*;
use vstd::utf8::{decode_utf8, valid_utf8};

use crate::builder::{RimeTraits, TraitsView};
use crate::call::{views, wanted, CallView, RimeCall};
use crate::session::RimeSession;
use crate::util::from_utf8;
use crate::RimeSessionId;

verus! {

/// A step of bringing the engine up.
#[derive(Debug, Clone, Copy, PartialEq, Eq, Structural)]
pub enum SetupStep {
    /// Hand the configuration to the engine.
    Setup,
    /// Start the engine.
    Initialize,
    /// Start the deployer.
    DeployerInitialize,
    /// Ask whether the workspace has changed; the engine then starts its
    /// maintenance and says so.
    StartMaintenance,
    /// Wait for the maintenance that was started.
    JoinMaintenance,
    /// The engine is ready.
    Done,
}

impl SetupStep {
    /// The native call that this step makes; none when the engine is ready.
    pub open spec fn call(self) -> Option<CallView> {
        match self {
            SetupStep::Setup => Some(CallView::Setup),
            SetupStep::Initialize => Some(CallView::Initialize),
            SetupStep::DeployerInitialize => Some(CallView::DeployerInitialize),
            SetupStep::StartMaintenance => Some(CallView::StartMaintenanceOnWorkspaceChange),
            SetupStep::JoinMaintenance => Some(CallView::JoinMaintenanceThread),
            SetupStep::Done => None,
        }
    }

    /// The step that follows when this step's call has returned `reply`.
    /// Only the answer to the question about the workspace counts:
    /// maintenance is waited for exactly when it was started.
    pub open spec fn after(self, reply: int) -> SetupStep {
        match self {
            SetupStep::Setup => SetupStep::Initialize,
            SetupStep::Initialize => SetupStep::DeployerInitialize,
            SetupStep::DeployerInitialize => SetupStep::StartMaintenance,
            SetupStep::StartMaintenance => if reply != 0 {
                SetupStep::JoinMaintenance
            } else {
                SetupStep::Done
            },
            SetupStep::JoinMaintenance => SetupStep::Done,
            SetupStep::Done => SetupStep::Done,
        }
    }

    /// How many calls are still to be made at most.
    pub open spec fn remaining(self) -> nat {
        match self {
            SetupStep::Setup => 5,
            SetupStep::Initialize => 4,
            SetupStep::DeployerInitialize => 3,
            SetupStep::StartMaintenance => 2,
            SetupStep::JoinMaintenance => 1,
            SetupStep::Done => 0,
        }
    }
}

/// The calls that are made from `step` on, when the engine answers
/// `started` to the question about the workspace.
pub open spec fn setup_trace(step: SetupStep, started: int) -> Seq<CallView>
    decreases step.remaining(),
{
    match step.call() {
        None => Seq::empty(),
        Some(call) => seq![call] + setup_trace(step.after(started), started),
    }
}

/// Bringing the engine up makes four calls in a fixed order, and a fifth
/// that waits for the maintenance exactly when the engine has started it.
pub proof fn lemma_setup_trace(started: int)
    ensures
        started != 0 ==> setup_trace(SetupStep::Setup, started) == seq![
            CallView::Setup,
            CallView::Initialize,
            CallView::DeployerInitialize,
            CallView::StartMaintenanceOnWorkspaceChange,
            CallView::JoinMaintenanceThread,
        ],
        started == 0 ==> setup_trace(SetupStep::Setup, started) == seq![
            CallView::Setup,
            CallView::Initialize,
            CallView::DeployerInitialize,
            CallView::StartMaintenanceOnWorkspaceChange,
        ],
{
    reveal_with_fuel(setup_trace, 7);
    if started != 0 {
        assert(setup_trace(SetupStep::Setup, started) =~= seq![
            CallView::Setup,
            CallView::Initialize,
            CallView::DeployerInitialize,
            CallView::StartMaintenanceOnWorkspaceChange,
            CallView::JoinMaintenanceThread,
        ]);
    } else {
        assert(setup_trace(SetupStep::Setup, started) =~= seq![
            CallView::Setup,
            CallView::Initialize,
            CallView::DeployerInitialize,
            CallView::StartMaintenanceOnWorkspaceChange,
        ]);
    }
}

/// Bringing the engine up always comes to an end: whatever the engine
/// answers, after five calls at most there is none left to make.
pub proof fn lemma_setup_ends(r1: int, r2: int, r3: int, r4: int, r5: int)
    ensures
        SetupStep::Setup.after(r1).after(r2).after(r3).after(r4).after(r5) == SetupStep::Done,
        SetupStep::Done.call() is None,
        forall|step: SetupStep| #[trigger] step.call() is None <==> step == SetupStep::Done,
{
}

/// An engine that is being brought up with a resolved configuration.
#[derive(Debug)]
pub struct Startup {
    traits: RimeTraits,
    step: SetupStep,
}

impl RimeTraits {
    /// Begins to bring the engine up with this configuration. Nothing
    /// has been called yet: the first call is that of
    /// [`SetupStep::Setup`].
    pub fn setup(self) -> (startup: Startup)
        ensures
            startup.traits() == self@,
            startup.step() == SetupStep::Setup,
    {
        Startup { traits: self, step: SetupStep::Setup }
    }
}

impl Startup {
    /// The configuration that the engine is brought up with.
    pub closed spec fn traits(&self) -> TraitsView {
        self.traits@
    }

    /// The step that is due.
    pub closed spec fn step(&self) -> SetupStep {
        self.step
    }

    /// The configuration, for the calls that take it.
    pub fn configuration(&self) -> (traits: &RimeTraits)
        ensures
            traits@ == self.traits(),
    {
        &self.traits
    }

    /// The step that is due.
    pub fn current(&self) -> (step: SetupStep)
        ensures
            step == self.step(),
    {
        self.step
    }

    /// The native call to make now; none when the engine is ready.
    pub fn call(&self) -> (call: Option<RimeCall>)
        ensures
            wanted(call) == self.step().call(),
    {
        match self.step {
            SetupStep::Setup => Some(RimeCall::Setup),
            SetupStep::Initialize => Some(RimeCall::Initialize),
            SetupStep::DeployerInitialize => Some(RimeCall::DeployerInitialize),
            SetupStep::StartMaintenance => Some(RimeCall::StartMaintenanceOnWorkspaceChange),
            SetupStep::JoinMaintenance => Some(RimeCall::JoinMaintenanceThread),
            SetupStep::Done => None,
        }
    }

    /// Takes note that the call of the step that is due has returned
    /// `reply` (zero for a call that returns nothing) and moves on.
    pub fn advance(self, reply: i32) -> (next: Startup)
        ensures
            next.traits() == self.traits(),
            next.step() == self.step().after(reply as int),
    {
        let step = match self.step {
            SetupStep::Setup => SetupStep::Initialize,
            SetupStep::Initialize => SetupStep::DeployerInitialize,
            SetupStep::DeployerInitialize => SetupStep::StartMaintenance,
            SetupStep::StartMaintenance => if reply != 0 {
                SetupStep::JoinMaintenance
            } else {
                SetupStep::Done
            },
            SetupStep::JoinMaintenance => SetupStep::Done,
            SetupStep::Done => SetupStep::Done,
        };
        Startup { traits: self.traits, step }
    }

    /// The handle of the engine, once it is ready: without sessions and
    /// without a notification handler. Before that the startup is handed
    /// back unchanged.
    pub fn finish<H>(self) -> (outcome: Result<Rime<H>, Startup>)
        ensures
            self.step() == SetupStep::Done ==> outcome is Ok && outcome->Ok_0@ == (RimeView::<H> {
                traits: self.traits(),
                sessions: Seq::empty(),
                handler: None,
            }),
            self.step() != SetupStep::Done ==> outcome is Err && outcome->Err_0.traits()
                == self.traits() && outcome->Err_0.step() == self.step(),
    {
        match self.step {
            SetupStep::Done => Ok(
                Rime { traits: self.traits, sessions: Vec::new(), handler: None },
            ),
            _ => Err(self),
        }
    }
}

/// A message that the engine sends to the notification handler: that a
/// schema was loaded, an option changed, or a deployment started,
/// succeeded or failed (the last three with session 0).
#[derive(Debug, PartialEq, Eq)]
pub struct Notification {
    /// The session that the message is about.
    pub session_id: RimeSessionId,
    /// The kind of the message.
    pub message_type: String,
    /// What the message says.
    pub message_value: String,
}

impl Notification {
    /// Reads a message as the engine hands it over. The engine promises
    /// text for the kind and the value: there is no message exactly when
    /// one of them is no UTF-8.
    pub fn decode(session_id: RimeSessionId, message_type: &[u8], message_value: &[u8]) -> (message:
        Option<Notification>)
        ensures
            message is Some <==> valid_utf8(message_type@) && valid_utf8(message_value@),
            message is Some ==> {
                &&& message->0.session_id == session_id
                &&& message->0.message_type@ == decode_utf8(message_type@)
                &&& message->0.message_value@ == decode_utf8(message_value@)
            },
    {
        match (from_utf8(message_type), from_utf8(message_value)) {
            (Some(message_type), Some(message_value)) => Some(
                Notification { session_id, message_type, message_value },
            ),
            _ => None,
        }
    }
}

/// The entry of a live session in the ledger.
#[derive(Debug, Clone, Copy, PartialEq, Eq, Structural)]
pub struct SessionSlot {
    /// The identifier that the engine gave the session.
    pub id: RimeSessionId,
    /// How many [`RimeSession`] values own the session; never zero.
    pub owners: usize,
}

/// Whether `sessions` is a ledger: no session is entered twice, and each
/// has an owner.
pub open spec fn is_ledger(sessions: Seq<SessionSlot>) -> bool {
    &&& forall|i: int, j: int|
        0 <= i < j < sessions.len() ==> (#[trigger] sessions[i]).id != (#[trigger] sessions[j]).id
    &&& forall|i: int| 0 <= i < sessions.len() ==> (#[trigger] sessions[i]).owners >= 1
}

/// Whether the session `id` is entered in `sessions`.
pub open spec fn is_live(sessions: Seq<SessionSlot>, id: RimeSessionId) -> bool {
    exists|i: int| 0 <= i < sessions.len() && (#[trigger] sessions[i]).id == id
}

/// Where the session `id` is entered in `sessions`, if it is live.
pub open spec fn slot_of(sessions: Seq<SessionSlot>, id: RimeSessionId) -> int {
    choose|i: int| 0 <= i < sessions.len() && (#[trigger] sessions[i]).id == id
}

/// Whether the session `id` can take one more owner: it is live, and
/// the count of its owners has room for one.
pub open spec fn can_own(sessions: Seq<SessionSlot>, id: RimeSessionId) -> bool {
    is_live(sessions, id) && owners_of(sessions, id) < usize::MAX
}

/// How many owners the session `id` has; none when it is not live.
pub open spec fn owners_of(sessions: Seq<SessionSlot>, id: RimeSessionId) -> nat {
    if is_live(sessions, id) {
        sessions[slot_of(sessions, id)].owners as nat
    } else {
        0
    }
}

/// The handle of the running engine. `H` is the storage of a
/// notification handler; the handle owns at most one.
#[derive(Debug)]
pub struct Rime<H> {
    traits: RimeTraits,
    sessions: Vec<SessionSlot>,
    handler: Option<H>,
}

/// A [`Rime`] as a mathematical value.
pub struct RimeView<H> {
    /// The configuration that the engine runs with.
    pub traits: TraitsView,
    /// The live sessions in the order in which they were created.
    pub sessions: Seq<SessionSlot>,
    /// The storage of the registered notification handler.
    pub handler: Option<H>,
}

impl<H> RimeView<H> {
    /// The engine after `handler` has been registered.
    pub open spec fn register(self, handler: H) -> RimeView<H> {
        RimeView { handler: Some(handler), ..self }
    }
}

impl<H> View for Rime<H> {
    type V = RimeView<H>;

    closed spec fn view(&self) -> RimeView<H> {
        RimeView { traits: self.traits@, sessions: self.sessions@, handler: self.handler }
    }
}

/// Finds the entry of session `id`.
fn find_slot(sessions: &Vec<SessionSlot>, id: RimeSessionId) -> (found: Option<usize>)
    requires
        is_ledger(sessions@),
    ensures
        found is Some <==> is_live(sessions@, id),
        found is Some ==> found->0 == slot_of(sessions@, id) && found->0 < sessions@.len()
            && sessions@[found->0 as int].id == id,
{
    let mut i: usize = 0;
    while i < sessions.len()
        invariant
            i <= sessions@.len(),
            is_ledger(sessions@),
            forall|j: int| 0 <= j < i ==> (#[trigger] sessions@[j]).id != id,
        decreases sessions@.len() - i,
    {
        if sessions[i].id == id {
            proof {
                lemma_slot_of(sessions@, i as int);
            }
            return Some(i);
        }
        i += 1;
    }
    None
}

impl<H> Rime<H> {
    #[verifier::type_invariant]
    spec fn well_formed(self) -> bool {
        is_ledger(self.sessions@)
    }

    /// The configuration that the engine runs with.
    pub fn traits(&self) -> (traits: &RimeTraits)
        ensures
            traits@ == self@.traits,
    {
        &self.traits
    }

    /// How many sessions are live.
    pub fn session_count(&self) -> (count: usize)
        ensures
            count == self@.sessions.len(),
            is_ledger(self@.sessions),
    {
        proof {
            use_type_invariant(self);
        }
        self.sessions.len()
    }

    /// How many owners the session `id` has; zero exactly when it is
    /// not live.
    pub fn owners(&self, id: RimeSessionId) -> (owners: usize)
        ensures
            owners == owners_of(self@.sessions, id),
            owners > 0 <==> is_live(self@.sessions, id),
    {
        proof {
            use_type_invariant(self);
        }
        match find_slot(&self.sessions, id) {
            Some(i) => self.sessions[i].owners,
            None => 0,
        }
    }

    /// Whether the session `id` is live.
    pub fn is_live(&self, id: RimeSessionId) -> (live: bool)
        ensures
            live == is_live(self@.sessions, id),
            is_ledger(self@.sessions),
    {
        proof {
            use_type_invariant(self);
        }
        find_slot(&self.sessions, id).is_some()
    }

    /// The live sessions, in the order of their creation.
    pub fn live_sessions(&self) -> (ids: Vec<RimeSessionId>)
        ensures
            ids@ == session_ids(self@.sessions),
    {
        let mut ids: Vec<RimeSessionId> = Vec::new();
        let mut i: usize = 0;
        while i < self.sessions.len()
            invariant
                i <= self.sessions@.len(),
                ids@.len() == i,
                forall|j: int| 0 <= j < i ==> #[trigger] ids@[j] == self.sessions@[j].id,
            decreases self.sessions@.len() - i,
        {
            ids.push(self.sessions[i].id);
            i += 1;
        }
        assert(ids@ =~= session_ids(self@.sessions));
        ids
    }

    /// The registered notification handler: the one that the engine
    /// invokes, and the only one.
    pub fn handler(&self) -> (handler: Option<&H>)
        ensures
            handler is Some <==> self@.handler is Some,
            handler is Some ==> *handler->0 == self@.handler->0,
    {
        self.handler.as_ref()
    }

    /// Enters the session that the engine has just created under `id`,
    /// with one owner, and hands that owner out. The engine gives no
    /// identifier to two live sessions; an identifier that is still in
    /// the ledger has therefore come free behind the ledger's back, and
    /// its entry starts anew.
    #[allow(non_snake_case)]
    pub fn CreateSession(&mut self, id: RimeSessionId) -> (session: RimeSession)
        ensures
            session.id() == id,
            is_ledger(final(self)@.sessions),
            final(self)@ == (RimeView {
                sessions: created(old(self)@.sessions, id),
                ..old(self)@
            }),
    {
        proof {
            use_type_invariant(&*self);
        }
        let mut sessions: Vec<SessionSlot> = Vec::new();
        std::mem::swap(&mut sessions, &mut self.sessions);
        let fresh = SessionSlot { id, owners: 1 };
        match find_slot(&sessions, id) {
            Some(i) => {
                sessions.set(i, fresh);
            },
            None => {
                sessions.push(fresh);
            },
        }
        self.sessions = sessions;
        RimeSession::new(id)
    }

    /// Makes one more owner of the session that `session` owns. There is
    /// none to be had for a session that is not live, nor where the
    /// count of owners has no room for one more.
    pub fn share(&mut self, session: &RimeSession) -> (owner: Option<RimeSession>)
        ensures
            is_ledger(final(self)@.sessions),
            owner is Some <==> is_live(old(self)@.sessions, session.id()) && owners_of(
                old(self)@.sessions,
                session.id(),
            ) < usize::MAX,
            owner is Some ==> owner->0.id() == session.id() && final(self)@ == (RimeView {
                sessions: shared(old(self)@.sessions, session.id()),
                ..old(self)@
            }),
            owner is None ==> final(self)@ == old(self)@,
    {
        proof {
            use_type_invariant(&*self);
        }
        let id = session.session_id();
        match find_slot(&self.sessions, id) {
            Some(i) => {
                let owners = self.sessions[i].owners;
                if owners < usize::MAX {
                    let mut sessions: Vec<SessionSlot> = Vec::new();
                    std::mem::swap(&mut sessions, &mut self.sessions);
                    sessions.set(i, SessionSlot { id, owners: owners + 1 });
                    self.sessions = sessions;
                    Some(RimeSession::new(id))
                } else {
                    None
                }
            },
            None => None,
        }
    }

    /// Takes back one owner of a session. With the last owner the entry
    /// leaves the ledger and the engine is to destroy the session: that
    /// is the call handed back. An owner of a session that is no longer
    /// live is let go without a call.
    pub fn release(&mut self, session: RimeSession) -> (call: Option<RimeCall>)
        ensures
            is_ledger(final(self)@.sessions),
            wanted(call) == release_call(old(self)@.sessions, session.id()),
            final(self)@ == (RimeView {
                sessions: released(old(self)@.sessions, session.id()),
                ..old(self)@
            }),
    {
        proof {
            use_type_invariant(&*self);
        }
        let id = session.session_id();
        match find_slot(&self.sessions, id) {
            Some(i) => {
                let owners = self.sessions[i].owners;
                let mut sessions: Vec<SessionSlot> = Vec::new();
                std::mem::swap(&mut sessions, &mut self.sessions);
                if owners > 1 {
                    sessions.set(i, SessionSlot { id, owners: owners - 1 });
                    self.sessions = sessions;
                    None
                } else {
                    proof {
                        lemma_remove_keeps_ledger(sessions@, i as int);
                    }
                    sessions.remove(i);
                    self.sessions = sessions;
                    Some(RimeCall::DestroySession { id })
                }
            },
            None => None,
        }
    }

    /// Destroys the session `id` whatever owners it has. Where it is
    /// live, its entry leaves the ledger and the call that destroys it
    /// is handed back; where it is not, nothing happens.
    #[allow(non_snake_case)]
    pub fn DestroySession(&mut self, id: RimeSessionId) -> (call: Option<RimeCall>)
        ensures
            is_ledger(final(self)@.sessions),
            wanted(call) == destroy_call(old(self)@.sessions, id),
            final(self)@ == (RimeView {
                sessions: destroyed(old(self)@.sessions, id),
                ..old(self)@
            }),
    {
        proof {
            use_type_invariant(&*self);
        }
        match find_slot(&self.sessions, id) {
            Some(i) => {
                let mut sessions: Vec<SessionSlot> = Vec::new();
                std::mem::swap(&mut sessions, &mut self.sessions);
                proof {
                    lemma_remove_keeps_ledger(sessions@, i as int);
                }
                sessions.remove(i);
                self.sessions = sessions;
                Some(RimeCall::DestroySession { id })
            },
            None => None,
        }
    }

    /// Has the engine destroy all its sessions at once: the ledger is
    /// emptied, and the one call that does it is handed back.
    #[allow(non_snake_case)]
    pub fn CleanupAllSessions(&mut self) -> (call: RimeCall)
        ensures
            call@ == CallView::CleanupAllSessions,
            final(self)@ == (RimeView { sessions: Seq::empty(), ..old(self)@ }),
    {
        self.sessions = Vec::new();
        RimeCall::CleanupAllSessions
    }

    /// Has the engine destroy the sessions that have gone stale. Which
    /// those are only the engine knows, so the calls handed back are the
    /// one that cleans up and then, for each session of the ledger in
    /// the order of creation, the question whether the engine still has
    /// it. Each answer is to be handed to [`Rime::FindSession`].
    #[allow(non_snake_case)]
    pub fn CleanupStaleSessions(&self) -> (plan: Vec<RimeCall>)
        ensures
            views(plan@) == stale_check_calls(self@.sessions),
            plan@.len() == self@.sessions.len() + 1,
    {
        let mut plan: Vec<RimeCall> = Vec::new();
        plan.push(RimeCall::CleanupStaleSessions);
        let mut i: usize = 0;
        while i < self.sessions.len()
            invariant
                i <= self.sessions@.len(),
                plan@.len() == i + 1,
                plan@[0]@ == CallView::CleanupStaleSessions,
                forall|j: int|
                    0 <= j < i ==> (#[trigger] plan@[j + 1])@ == (CallView::FindSession {
                        id: self.sessions@[j].id,
                    }),
            decreases self.sessions@.len() - i,
        {
            plan.push(RimeCall::FindSession { id: self.sessions[i].id });
            i += 1;
        }
        assert(views(plan@) =~= stale_check_calls(self@.sessions)) by {
            assert forall|k: int| 0 <= k < plan@.len() implies views(plan@)[k]
                == stale_check_calls(self@.sessions)[k] by {
                if k > 0 {
                    assert(plan@[(k - 1) + 1]@ == (CallView::FindSession {
                        id: self.sessions@[k - 1].id,
                    }));
                }
            }
        }
        plan
    }

    /// Takes note of what the engine answered to the question whether it
    /// still has the session `id`, and says whether it has. A session
    /// that the engine no longer has leaves the ledger, and no call is
    /// due for it: the engine has destroyed it already.
    #[allow(non_snake_case)]
    pub fn FindSession(&mut self, id: RimeSessionId, code: i32) -> (found: bool)
        ensures
            found == (code != 0),
            is_ledger(final(self)@.sessions),
            final(self)@ == (RimeView {
                sessions: if code != 0 {
                    old(self)@.sessions
                } else {
                    destroyed(old(self)@.sessions, id)
                },
                ..old(self)@
            }),
    {
        proof {
            use_type_invariant(&*self);
        }
        if code != 0 {
            return true;
        }
        match find_slot(&self.sessions, id) {
            Some(i) => {
                let mut sessions: Vec<SessionSlot> = Vec::new();
                std::mem::swap(&mut sessions, &mut self.sessions);
                proof {
                    lemma_remove_keeps_ledger(sessions@, i as int);
                }
                sessions.remove(i);
                self.sessions = sessions;
            },
            None => {},
        }
        false
    }

    /// Registers `handler` in place of the handler that was registered,
    /// and hands the storage of that one back. It is the caller's to
    /// free, once the engine has been told of the new one.
    #[allow(non_snake_case)]
    pub fn SetNotificationHandler(&mut self, handler: H) -> (released: Option<H>)
        ensures
            released == old(self)@.handler,
            final(self)@ == old(self)@.register(handler),
    {
        proof {
            use_type_invariant(&*self);
        }
        let mut slot = Some(handler);
        std::mem::swap(&mut slot, &mut self.handler);
        slot
    }

    /// Tears the engine down. Hands back the calls to make, in order:
    /// one that destroys each live session, in the order of their
    /// creation, then the one that finalizes the engine. With them comes
    /// the storage of the notification handler, to be freed when the
    /// calls have been made and not before.
    pub fn teardown(self) -> (plan: (Vec<RimeCall>, Option<H>))
        ensures
            views(plan.0@) == teardown_calls(self@.sessions),
            plan.0@.len() == self@.sessions.len() + 1,
            plan.1 == self@.handler,
    {
        proof {
            use_type_invariant(&self);
        }
        let mut calls: Vec<RimeCall> = Vec::new();
        let mut i: usize = 0;
        while i < self.sessions.len()
            invariant
                i <= self.sessions@.len(),
                calls@.len() == i,
                forall|j: int|
                    0 <= j < i ==> (#[trigger] calls@[j])@ == (CallView::DestroySession {
                        id: self.sessions@[j].id,
                    }),
            decreases self.sessions@.len() - i,
        {
            calls.push(RimeCall::DestroySession { id: self.sessions[i].id });
            i += 1;
        }
        calls.push(RimeCall::Finalize);
        assert(views(calls@) =~= teardown_calls(self@.sessions));
        (calls, self.handler)
    }
}

/// The identifiers of the sessions of a ledger, in their order.
pub open spec fn session_ids(sessions: Seq<SessionSlot>) -> Seq<RimeSessionId> {
    Seq::new(sessions.len(), |i: int| sessions[i].id)
}

/// The calls that clean up stale sessions: the one that has the engine
/// do it, then for each session of the ledger the question whether the
/// engine still has it.
pub open spec fn stale_check_calls(sessions: Seq<SessionSlot>) -> Seq<CallView> {
    Seq::new(
        sessions.len() + 1,
        |i: int|
            if i == 0 {
                CallView::CleanupStaleSessions
            } else {
                CallView::FindSession { id: sessions[i - 1].id }
            },
    )
}

/// The ledger after the engine has created the session `id`.
pub open spec fn created(sessions: Seq<SessionSlot>, id: RimeSessionId) -> Seq<SessionSlot> {
    if is_live(sessions, id) {
        sessions.update(slot_of(sessions, id), SessionSlot { id, owners: 1 })
    } else {
        sessions.push(SessionSlot { id, owners: 1 })
    }
}

/// The ledger after the live session `id` has got one more owner.
pub open spec fn shared(sessions: Seq<SessionSlot>, id: RimeSessionId) -> Seq<SessionSlot> {
    sessions.update(
        slot_of(sessions, id),
        SessionSlot { id, owners: (owners_of(sessions, id) + 1) as usize },
    )
}

/// The ledger after an owner of the session `id` has let go: the entry
/// counts one owner fewer, and leaves with the last.
pub open spec fn released(sessions: Seq<SessionSlot>, id: RimeSessionId) -> Seq<SessionSlot> {
    if !is_live(sessions, id) {
        sessions
    } else if owners_of(sessions, id) > 1 {
        sessions.update(
            slot_of(sessions, id),
            SessionSlot { id, owners: (owners_of(sessions, id) - 1) as usize },
        )
    } else {
        sessions.remove(slot_of(sessions, id))
    }
}

/// The call that is due when an owner of the session `id` lets go: the
/// one that destroys the session, for the last owner of a live session.
pub open spec fn release_call(sessions: Seq<SessionSlot>, id: RimeSessionId) -> Option<CallView> {
    if is_live(sessions, id) && owners_of(sessions, id) <= 1 {
        Some(CallView::DestroySession { id })
    } else {
        None
    }
}

/// The ledger after the session `id` has been destroyed on request.
pub open spec fn destroyed(sessions: Seq<SessionSlot>, id: RimeSessionId) -> Seq<SessionSlot> {
    if is_live(sessions, id) {
        sessions.remove(slot_of(sessions, id))
    } else {
        sessions
    }
}

/// The call that is due when the session `id` is to be destroyed: none
/// for a session that is not live.
pub open spec fn destroy_call(sessions: Seq<SessionSlot>, id: RimeSessionId) -> Option<CallView> {
    if is_live(sessions, id) {
        Some(CallView::DestroySession { id })
    } else {
        None
    }
}

/// The calls of a teardown: one that destroys each live session, then
/// the one that finalizes the engine.
pub open spec fn teardown_calls(sessions: Seq<SessionSlot>) -> Seq<CallView> {
    Seq::new(
        sessions.len() + 1,
        |i: int|
            if i < sessions.len() {
                CallView::DestroySession { id: sessions[i].id }
            } else {
                CallView::Finalize
            },
    )
}

/// In a ledger a session is entered in one place only.
pub proof fn lemma_slot_of(sessions: Seq<SessionSlot>, i: int)
    requires
        is_ledger(sessions),
        0 <= i < sessions.len(),
    ensures
        is_live(sessions, sessions[i].id),
        slot_of(sessions, sessions[i].id) == i,
{
    let j = slot_of(sessions, sessions[i].id);
    assert(sessions[j].id == sessions[i].id);
    if j < i {
        assert(sessions[j].id != sessions[i].id);
    } else if i < j {
        assert(sessions[i].id != sessions[j].id);
    }
}

/// Taking an entry out of a ledger leaves a ledger in which that session
/// is no longer live.
pub proof fn lemma_remove_keeps_ledger(sessions: Seq<SessionSlot>, i: int)
    requires
        is_ledger(sessions),
        0 <= i < sessions.len(),
    ensures
        is_ledger(sessions.remove(i)),
        !is_live(sessions.remove(i), sessions[i].id),
{
    let rest = sessions.remove(i);
    assert forall|a: int, b: int| 0 <= a < b < rest.len() implies (#[trigger] rest[a]).id != (
    #[trigger] rest[b]).id by {
        let a0 = if a < i { a } else { a + 1 };
        let b0 = if b < i { b } else { b + 1 };
        assert(rest[a] == sessions[a0]);
        assert(rest[b] == sessions[b0]);
    }
    assert forall|a: int| 0 <= a < rest.len() implies (#[trigger] rest[a]).owners >= 1 by {
        let a0 = if a < i { a } else { a + 1 };
        assert(rest[a] == sessions[a0]);
    }
    assert forall|a: int| 0 <= a < rest.len() implies (#[trigger] rest[a]).id != sessions[i].id by {
        let a0 = if a < i { a } else { a + 1 };
        assert(rest[a] == sessions[a0]);
    }
}

/// A teardown destroys every live session once and then finalizes the
/// engine once: of `n` live sessions come `n` calls that destroy one
/// session each, no two of them the same session, and the call after
/// them, the last, finalizes.
pub proof fn lemma_teardown_order(sessions: Seq<SessionSlot>)
    requires
        is_ledger(sessions),
    ensures
        teardown_calls(sessions).len() == sessions.len() + 1,
        forall|i: int|
            0 <= i < sessions.len() ==> #[trigger] teardown_calls(sessions)[i]
                == (CallView::DestroySession { id: sessions[i].id }),
        teardown_calls(sessions)[sessions.len() as int] == CallView::Finalize,
        forall|i: int, j: int|
            0 <= i < j < teardown_calls(sessions).len() ==> #[trigger] teardown_calls(sessions)[i]
                != #[trigger] teardown_calls(sessions)[j],
        forall|id: RimeSessionId|
            is_live(sessions, id) <==> #[trigger] teardown_calls(sessions).contains(
                CallView::DestroySession { id },
            ),
{
    let calls = teardown_calls(sessions);
    assert forall|id: RimeSessionId| is_live(sessions, id) implies #[trigger] calls.contains(
        CallView::DestroySession { id },
    ) by {
        let i = slot_of(sessions, id);
        assert(calls[i] == CallView::DestroySession { id });
    }
    assert forall|id: RimeSessionId| #[trigger]
        calls.contains(CallView::DestroySession { id }) implies is_live(sessions, id) by {
        let i = choose|i: int| 0 <= i < calls.len() && calls[i] == (CallView::DestroySession { id });
        assert(sessions[i].id == id);
    }
}

/// No session is destroyed twice. Once the call that destroys a session
/// has been handed out, be it on request or for the last owner, the
/// session is out of the ledger: letting an owner of it go, asking again
/// for its destruction and tearing the engine down all pass it over.
pub proof fn lemma_destroyed_once(sessions: Seq<SessionSlot>, id: RimeSessionId)
    requires
        is_ledger(sessions),
    ensures
        !is_live(destroyed(sessions, id), id),
        release_call(sessions, id) is Some ==> !is_live(released(sessions, id), id),
        forall|gone: Seq<SessionSlot>|
            !is_live(gone, id) ==> {
                &&& #[trigger] release_call(gone, id) is None
                &&& #[trigger] destroy_call(gone, id) is None
                &&& released(gone, id) == gone
                &&& destroyed(gone, id) == gone
                &&& !teardown_calls(gone).contains(CallView::DestroySession { id })
            },
{
    if is_live(sessions, id) {
        lemma_remove_keeps_ledger(sessions, slot_of(sessions, id));
    }
    assert forall|gone: Seq<SessionSlot>| !is_live(gone, id) implies !teardown_calls(
        gone,
    ).contains(CallView::DestroySession { id }) by {
        if teardown_calls(gone).contains(CallView::DestroySession { id }) {
            let i = choose|i: int|
                0 <= i < teardown_calls(gone).len() && teardown_calls(gone)[i] == (
                CallView::DestroySession { id });
            assert(gone[i].id == id);
        }
    }
}

/// A session with several owners outlives all but the last of them: an
/// owner that lets go while others hold on causes no call and leaves the
/// session live.
pub proof fn lemma_shared_session_outlives(sessions: Seq<SessionSlot>, id: RimeSessionId)
    requires
        is_ledger(sessions),
        owners_of(sessions, id) > 1,
    ensures
        release_call(sessions, id) is None,
        is_live(released(sessions, id), id),
        owners_of(released(sessions, id), id) == owners_of(sessions, id) - 1,
{
    let i = slot_of(sessions, id);
    let after = released(sessions, id);
    assert(after[i].id == id);
    lemma_update_keeps_ledger(
        sessions,
        i,
        SessionSlot { id, owners: (owners_of(sessions, id) - 1) as usize },
    );
    lemma_slot_of(after, i);
}

/// One more owner of a live session leaves a ledger in which the
/// session is live with that one owner more, and every other session as
/// it was.
pub proof fn lemma_shared(sessions: Seq<SessionSlot>, id: RimeSessionId)
    requires
        is_ledger(sessions),
        is_live(sessions, id),
        owners_of(sessions, id) < usize::MAX,
    ensures
        is_ledger(shared(sessions, id)),
        is_live(shared(sessions, id), id),
        owners_of(shared(sessions, id), id) == owners_of(sessions, id) + 1,
        shared(sessions, id).len() == sessions.len(),
        forall|other: RimeSessionId|
            other != id ==> is_live(shared(sessions, id), other) == is_live(sessions, other),
{
    let i = slot_of(sessions, id);
    let after = shared(sessions, id);
    lemma_update_keeps_ledger(
        sessions,
        i,
        SessionSlot { id, owners: (owners_of(sessions, id) + 1) as usize },
    );
    assert(after[i].id == id);
    lemma_slot_of(after, i);
    assert forall|other: RimeSessionId| other != id implies is_live(after, other) == is_live(
        sessions,
        other,
    ) by {
        if is_live(sessions, other) {
            let j = slot_of(sessions, other);
            assert(after[j].id == other);
        }
        if is_live(after, other) {
            let j = slot_of(after, other);
            assert(sessions[j].id == other);
        }
    }
}

/// A snapshot keeps its session alive. Once a snapshot has been entered
/// as an owner of a live session, an owner that lets go causes no call
/// and leaves the session live, with as many owners as before the
/// snapshot was made: the engine is not asked to destroy the session
/// while the snapshot holds on.
pub proof fn lemma_snapshot_keeps_session(sessions: Seq<SessionSlot>, id: RimeSessionId)
    requires
        is_ledger(sessions),
        is_live(sessions, id),
        owners_of(sessions, id) < usize::MAX,
    ensures
        release_call(shared(sessions, id), id) is None,
        is_live(released(shared(sessions, id), id), id),
        owners_of(released(shared(sessions, id), id), id) == owners_of(sessions, id),
{
    lemma_slot_of(sessions, slot_of(sessions, id));
    lemma_shared(sessions, id);
    lemma_shared_session_outlives(shared(sessions, id), id);
}

/// Changing the count of an entry leaves a ledger, as long as an owner
/// is left.
pub proof fn lemma_update_keeps_ledger(sessions: Seq<SessionSlot>, i: int, slot: SessionSlot)
    requires
        is_ledger(sessions),
        0 <= i < sessions.len(),
        slot.id == sessions[i].id,
        slot.owners >= 1,
    ensures
        is_ledger(sessions.update(i, slot)),
{
}

/// Registering a second notification handler hands back the storage of
/// the first, and leaves the second as the one handler that the handle
/// holds; the sessions are not touched.
pub proof fn lemma_handler_replaced<H>(engine: RimeView<H>, first: H, second: H)
    ensures
        engine.register(first).handler == Some(first),
        engine.register(first).register(second).handler == Some(second),
        engine.register(first).register(second).sessions == engine.sessions,
        engine.register(first).register(second) == engine.register(second),
{
}

} // verus!
