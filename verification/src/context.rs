//! A snapshot of what a session is composing.

use vstd::prelude::*;

use crate::candidate::{candidate_views, CandidateView, RimeCandidate};
use crate::session::RimeSession;
use crate::util::{shown_text, stored, stored_text};
use crate::RimeSessionId;

verus! {

/// The pre-edit text and the candidates of a session at the moment of
/// the query. The engine counts candidates in a 32-bit integer, and so
/// does a snapshot. The snapshot is an owner of its session.
#[derive(Debug, PartialEq, Eq)]
pub struct RimeContext {
    preedit: Option<Vec<u8>>,
    candidates: Vec<RimeCandidate>,
    session: RimeSession,
}

/// A [`RimeContext`] as a mathematical value.
pub struct ContextView {
    /// The pre-edit text; `None` is a null pointer.
    pub preedit: Option<Seq<u8>>,
    /// The candidates in their rank.
    pub candidates: Seq<CandidateView>,
    /// The session that was asked, and that the snapshot owns.
    pub session: RimeSessionId,
}

impl View for RimeContext {
    type V = ContextView;

    closed spec fn view(&self) -> ContextView {
        ContextView {
            preedit: stored(self.preedit),
            candidates: candidate_views(self.candidates@),
            session: self.session.id(),
        }
    }
}

impl RimeContext {
    #[verifier::type_invariant]
    spec fn well_formed(self) -> bool {
        self.candidates@.len() <= i32::MAX
    }

    /// The snapshot that `owner` takes of its session, with the native
    /// string `preedit` (`None` is a null pointer) and the candidates as
    /// they are ranked.
    pub(crate) fn new(
        owner: RimeSession,
        preedit: Option<Vec<u8>>,
        candidates: Vec<RimeCandidate>,
    ) -> (context: Self)
        requires
            candidates@.len() <= i32::MAX,
        ensures
            context@ == (ContextView {
                preedit: stored(preedit),
                candidates: candidate_views(candidates@),
                session: owner.id(),
            }),
    {
        RimeContext { preedit, candidates, session: owner }
    }

    /// The session that was asked.
    pub fn session_id(&self) -> (id: RimeSessionId)
        ensures
            id == self@.session,
    {
        self.session.session_id()
    }

    /// Gives the snapshot up and hands back the owner that it was of its
    /// session, to be let go with `Rime::release`.
    pub fn into_session(self) -> (owner: RimeSession)
        ensures
            owner.id() == self@.session,
    {
        self.session
    }

    /// The pre-edit text; empty where the engine gave none.
    pub fn preedit(&self) -> (text: String)
        ensures
            text@ == shown_text(self@.preedit),
            self@.preedit is None ==> text@ == Seq::<char>::empty(),
    {
        stored_text(&self.preedit)
    }

    /// How many candidates there are.
    pub fn num_candidates(&self) -> (count: i32)
        ensures
            count == self@.candidates.len(),
            count >= 0,
    {
        proof {
            use_type_invariant(self);
        }
        self.candidates.len() as i32
    }

    /// Text and comment of every candidate, in their rank.
    pub fn all_candidates(&self) -> (all: Vec<(String, String)>)
        ensures
            all@.len() == self@.candidates.len(),
            forall|i: int|
                0 <= i < all@.len() ==> (#[trigger] all@[i]).0@ == shown_text(
                    self@.candidates[i].text,
                ) && all@[i].1@ == shown_text(self@.candidates[i].comment),
    {
        let mut all: Vec<(String, String)> = Vec::new();
        let mut i: usize = 0;
        while i < self.candidates.len()
            invariant
                i <= self.candidates@.len(),
                all@.len() == i,
                forall|j: int|
                    0 <= j < i ==> (#[trigger] all@[j]).0@ == shown_text(self.candidates@[j]@.text)
                        && all@[j].1@ == shown_text(self.candidates@[j]@.comment),
            decreases self.candidates@.len() - i,
        {
            let candidate = &self.candidates[i];
            all.push((candidate.text(), candidate.comment()));
            i += 1;
        }
        all
    }
}

} // verus!
