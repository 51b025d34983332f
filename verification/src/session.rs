//! A session: one independent composition inside the engine.
//!
//! A [`RimeSession`] is one owner of a session. It is not copied:
//! [`crate::engine::Rime::share`] makes another owner, and
//! [`crate::engine::Rime::release`] takes one back, so that the handle
//! knows when the last has gone. Everything a session does it does with
//! the handle of the engine at hand. What it asks of the engine it states
//! as a call for the shell to make, and it states none for a session
//! that is no longer live. What the engine answers comes back as a
//! snapshot that is itself an owner of the session.

use vstd::prelude::*;
use vstd::utf8::{char_is_scalar, encode_utf8};

use crate::call::{views, wanted, CallView, GetProperty, RimeCall, SetProperty};
use crate::candidate::{candidate_views, CursorView, RimeCandidate, RimeCandidateList};
use crate::commit::{CommitView, RimeCommit};
use crate::context::{ContextView, RimeContext};
use crate::engine::{can_own, is_ledger, is_live, shared, Rime, RimeView};
use crate::status::{status_of, RimeStatus};
use crate::util::{representable, stored};
use crate::RimeSessionId;

verus! {

/// One owner of a session.
#[derive(Debug, PartialEq, Eq)]
pub struct RimeSession {
    id: RimeSessionId,
}

/// The key code that stands for the character `key`: its scalar value.
pub open spec fn keycode_of(key: char) -> i32 {
    key as u32 as i32
}

/// The calls that feed `input` to session `id`: one key event for each
/// character, in order, with no modifier.
pub open spec fn key_events(id: RimeSessionId, input: Seq<char>) -> Seq<CallView> {
    Seq::new(
        input.len(),
        |i: int| CallView::ProcessKey { id, keycode: keycode_of(input[i]), mask: 0 },
    )
}

/// The engine after a snapshot of session `id` was asked for: with the
/// snapshot as one more owner where the session can take one, and else
/// as it was.
pub open spec fn after_snapshot<H>(engine: RimeView<H>, id: RimeSessionId) -> RimeView<H> {
    if can_own(engine.sessions, id) {
        RimeView { sessions: shared(engine.sessions, id), ..engine }
    } else {
        engine
    }
}

impl RimeSession {
    /// The identifier that the engine gave the session.
    pub closed spec fn id(&self) -> RimeSessionId {
        self.id
    }

    /// An owner of the session that the engine knows as `id`.
    pub fn new(id: RimeSessionId) -> (session: Self)
        ensures
            session.id() == id,
    {
        RimeSession { id }
    }

    /// The identifier that the engine gave the session.
    pub fn session_id(&self) -> (id: RimeSessionId)
        ensures
            id == self.id(),
    {
        self.id
    }

    /// The call that feeds the key `keycode` with no modifier; none for
    /// a session that is not live.
    pub fn process_key<H>(&self, engine: &Rime<H>, keycode: i32) -> (call: Option<RimeCall>)
        ensures
            wanted(call) == if is_live(engine@.sessions, self.id()) {
                Some(CallView::ProcessKey { id: self.id(), keycode, mask: 0 })
            } else {
                None
            },
    {
        self.process_key_mask(engine, keycode, 0)
    }

    /// The call that feeds the key `keycode` with the modifiers `mask`;
    /// none for a session that is not live.
    pub fn process_key_mask<H>(&self, engine: &Rime<H>, keycode: i32, mask: i32) -> (call: Option<
        RimeCall,
    >)
        ensures
            wanted(call) == if is_live(engine@.sessions, self.id()) {
                Some(CallView::ProcessKey { id: self.id(), keycode, mask })
            } else {
                None
            },
    {
        if engine.is_live(self.id) {
            Some(RimeCall::ProcessKey { id: self.id, keycode, mask })
        } else {
            None
        }
    }

    /// The call that feeds the character `key` as a key with no
    /// modifier; none for a session that is not live.
    pub fn process_char<H>(&self, engine: &Rime<H>, key: char) -> (call: Option<RimeCall>)
        ensures
            wanted(call) == if is_live(engine@.sessions, self.id()) {
                Some(CallView::ProcessKey { id: self.id(), keycode: keycode_of(key), mask: 0 })
            } else {
                None
            },
            0 <= keycode_of(key) <= 0x10FFFF,
    {
        proof {
            char_is_scalar(key);
        }
        let scalar: u32 = key as u32;
        self.process_key_mask(engine, scalar as i32, 0)
    }

    /// The calls that feed `input`: one key event for each character,
    /// in order, and none at all for a session that is not live. They
    /// are separate events: the engine may refuse one in the middle, and
    /// what went before stays fed.
    pub fn process_string<H>(&self, engine: &Rime<H>, input: &str) -> (calls: Vec<RimeCall>)
        ensures
            views(calls@) == if is_live(engine@.sessions, self.id()) {
                key_events(self.id(), input@)
            } else {
                Seq::<CallView>::empty()
            },
            is_live(engine@.sessions, self.id()) ==> calls@.len() == input@.len(),
            !is_live(engine@.sessions, self.id()) ==> calls@.len() == 0,
    {
        let mut calls: Vec<RimeCall> = Vec::new();
        if !engine.is_live(self.id) {
            assert(views(calls@) =~= Seq::<CallView>::empty());
            return calls;
        }
        for key in keys: input.chars()
            invariant
                keys.seq() == input@,
                calls@.len() == keys.index(),
                forall|i: int|
                    0 <= i < calls@.len() ==> (#[trigger] calls@[i])@ == (CallView::ProcessKey {
                        id: self.id(),
                        keycode: keycode_of(input@[i]),
                        mask: 0,
                    }),
        {
            proof {
                char_is_scalar(key);
            }
            let scalar: u32 = key as u32;
            calls.push(RimeCall::ProcessKey { id: self.id, keycode: scalar as i32, mask: 0 });
        }
        assert(views(calls@) =~= key_events(self.id(), input@));
        calls
    }

    /// The call that sets the property `prop` to `value`. There is none
    /// for a session that is not live, nor where one of the two texts
    /// holds a NUL byte.
    pub fn set_property<H>(&self, engine: &Rime<H>, prop: &str, value: &str) -> (call: Option<
        RimeCall,
    >)
        ensures
            wanted(call) == if is_live(engine@.sessions, self.id()) && representable(prop@)
                && representable(value@) {
                Some(
                    CallView::SetProperty {
                        id: self.id(),
                        prop: encode_utf8(prop@),
                        value: encode_utf8(value@),
                    },
                )
            } else {
                None
            },
    {
        if !engine.is_live(self.id) {
            return None;
        }
        match SetProperty(self.id, prop, value) {
            Ok(call) => Some(call),
            Err(_) => None,
        }
    }

    /// The call that reads the property `prop` into a buffer of `size`
    /// bytes; [`crate::util::property_value`] reads the answer. There is
    /// none for a session that is not live, nor where the name holds a
    /// NUL byte.
    pub fn get_property<H>(&self, engine: &Rime<H>, prop: &str, size: usize) -> (call: Option<
        RimeCall,
    >)
        ensures
            wanted(call) == if is_live(engine@.sessions, self.id()) && representable(prop@) {
                Some(CallView::GetProperty { id: self.id(), prop: encode_utf8(prop@), size })
            } else {
                None
            },
    {
        if !engine.is_live(self.id) {
            return None;
        }
        match GetProperty(self.id, prop, size) {
            Ok(call) => Some(call),
            Err(_) => None,
        }
    }

    /// The call that discards what is being composed, with no commit;
    /// none for a session that is not live.
    pub fn clear_composition<H>(&self, engine: &Rime<H>) -> (call: Option<RimeCall>)
        ensures
            wanted(call) == if is_live(engine@.sessions, self.id()) {
                Some(CallView::ClearComposition { id: self.id() })
            } else {
                None
            },
    {
        if engine.is_live(self.id) {
            Some(RimeCall::ClearComposition { id: self.id })
        } else {
            None
        }
    }

    /// The snapshot of this session's composition, from what the engine
    /// answered: the pre-edit text (`None` is a null pointer) and the
    /// candidates as they are ranked. The engine counts them in a
    /// 32-bit integer. The snapshot is entered as one more owner of the
    /// session; there is none where the session is not live or the count
    /// of its owners has no room.
    pub fn context<H>(
        &self,
        engine: &mut Rime<H>,
        preedit: Option<Vec<u8>>,
        candidates: Vec<RimeCandidate>,
    ) -> (context: Option<RimeContext>)
        requires
            candidates@.len() <= i32::MAX,
        ensures
            is_ledger(final(engine)@.sessions),
            final(engine)@ == after_snapshot(old(engine)@, self.id()),
            context is Some <==> can_own(old(engine)@.sessions, self.id()),
            context is Some ==> context->0@ == (ContextView {
                preedit: stored(preedit),
                candidates: candidate_views(candidates@),
                session: self.id(),
            }),
    {
        match engine.share(self) {
            Some(owner) => Some(RimeContext::new(owner, preedit, candidates)),
            None => None,
        }
    }

    /// What this session has committed, from what the engine answered;
    /// `None` for `text` where it produced nothing. The snapshot is
    /// entered as one more owner of the session; there is none where the
    /// session is not live or the count of its owners has no room.
    pub fn commit<H>(&self, engine: &mut Rime<H>, text: Option<Vec<u8>>) -> (commit: Option<
        RimeCommit,
    >)
        ensures
            is_ledger(final(engine)@.sessions),
            final(engine)@ == after_snapshot(old(engine)@, self.id()),
            commit is Some <==> can_own(old(engine)@.sessions, self.id()),
            commit is Some ==> commit->0@ == (CommitView { text: stored(text), session: self.id() }),
    {
        match engine.share(self) {
            Some(owner) => Some(RimeCommit::new(owner, text)),
            None => None,
        }
    }

    /// The mode of this session, from the flags that the engine
    /// answered. The snapshot is entered as one more owner of the
    /// session; there is none where the session is not live or the count
    /// of its owners has no room.
    pub fn status<H>(
        &self,
        engine: &mut Rime<H>,
        is_disabled: i32,
        is_composing: i32,
        is_ascii_mode: i32,
    ) -> (status: Option<RimeStatus>)
        ensures
            is_ledger(final(engine)@.sessions),
            final(engine)@ == after_snapshot(old(engine)@, self.id()),
            status is Some <==> can_own(old(engine)@.sessions, self.id()),
            status is Some ==> status->0@ == status_of(
                self.id(),
                is_disabled as int,
                is_composing as int,
                is_ascii_mode as int,
            ),
    {
        match engine.share(self) {
            Some(owner) => Some(RimeStatus::new(owner, is_disabled, is_composing, is_ascii_mode)),
            None => None,
        }
    }

    /// A cursor over this session's candidates, from what the engine
    /// answered; it starts before the first of them. The cursor is
    /// entered as one more owner of the session; there is none where the
    /// session is not live or the count of its owners has no room.
    pub fn candidates<H>(&self, engine: &mut Rime<H>, items: Vec<RimeCandidate>) -> (list: Option<
        RimeCandidateList,
    >)
        ensures
            is_ledger(final(engine)@.sessions),
            final(engine)@ == after_snapshot(old(engine)@, self.id()),
            list is Some <==> can_own(old(engine)@.sessions, self.id()),
            list is Some ==> list->0@ == CursorView::begin(candidate_views(items@), self.id()),
    {
        match engine.share(self) {
            Some(owner) => Some(RimeCandidateList::new(owner, items)),
            None => None,
        }
    }
}

} // verus!
