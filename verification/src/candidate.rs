//! Candidates, and the cursor that walks over a session's candidates.

use vstd::prelude::*;

use crate::session::RimeSession;
use crate::util::{shown_text, stored, stored_text};
use crate::RimeSessionId;

verus! {

/// One conversion that can be chosen: its text and a comment on it, as
/// the engine gave them. Either may be absent.
#[derive(Debug, PartialEq, Eq)]
pub struct RimeCandidate {
    text: Option<Vec<u8>>,
    comment: Option<Vec<u8>>,
}

/// A [`RimeCandidate`] as a mathematical value; `None` is a null pointer.
pub struct CandidateView {
    pub text: Option<Seq<u8>>,
    pub comment: Option<Seq<u8>>,
}

impl CandidateView {
    /// The candidate that a cursor shows where it stands on none.
    pub open spec fn absent() -> CandidateView {
        CandidateView { text: None, comment: None }
    }
}

impl View for RimeCandidate {
    type V = CandidateView;

    closed spec fn view(&self) -> CandidateView {
        CandidateView { text: stored(self.text), comment: stored(self.comment) }
    }
}

impl Clone for RimeCandidate {
    fn clone(&self) -> (copy: Self)
        ensures
            copy@ == self@,
    {
        RimeCandidate { text: self.text.clone(), comment: self.comment.clone() }
    }
}

impl RimeCandidate {
    /// A candidate with the native strings `text` and `comment`; `None`
    /// is a null pointer.
    pub fn new(text: Option<Vec<u8>>, comment: Option<Vec<u8>>) -> (candidate: Self)
        ensures
            candidate@ == (CandidateView { text: stored(text), comment: stored(comment) }),
    {
        RimeCandidate { text, comment }
    }

    /// The text of the candidate; empty where the engine gave none.
    pub fn text(&self) -> (text: String)
        ensures
            text@ == shown_text(self@.text),
            self@.text is None ==> text@ == Seq::<char>::empty(),
    {
        stored_text(&self.text)
    }

    /// The comment on the candidate; empty where the engine gave none.
    pub fn comment(&self) -> (comment: String)
        ensures
            comment@ == shown_text(self@.comment),
            self@.comment is None ==> comment@ == Seq::<char>::empty(),
    {
        stored_text(&self.comment)
    }
}

/// The candidates of a list, each as a mathematical value.
pub open spec fn candidate_views(candidates: Seq<RimeCandidate>) -> Seq<CandidateView> {
    Seq::new(candidates.len(), |i: int| candidates[i]@)
}

/// A cursor over the candidates that a session had when the cursor was
/// made. It starts before the first candidate. The cursor is an owner of
/// its session.
#[derive(Debug, PartialEq, Eq)]
pub struct RimeCandidateList {
    items: Vec<RimeCandidate>,
    index: i32,
    ended: bool,
    session: RimeSession,
}

/// A [`RimeCandidateList`] as a mathematical value.
pub struct CursorView {
    /// The candidates in their order.
    pub items: Seq<CandidateView>,
    /// Where the cursor stands: -1 before the first candidate, then the
    /// index of the candidate it stands on, then past the last.
    pub index: int,
    /// Whether the cursor has been ended.
    pub ended: bool,
    /// The session whose candidates these are, and that the cursor owns.
    pub session: RimeSessionId,
}

impl CursorView {
    /// The cursor over `items` as it is made: before the first of them.
    pub open spec fn begin(items: Seq<CandidateView>, session: RimeSessionId) -> CursorView {
        CursorView { items, index: -1, ended: false, session }
    }

    /// The cursor after one step forward. An ended cursor does not move,
    /// and the index does not leave the range of the engine's integers.
    pub open spec fn next(self) -> CursorView {
        if self.ended || self.index >= i32::MAX {
            self
        } else {
            CursorView { index: self.index + 1, ..self }
        }
    }

    /// The cursor after `steps` steps forward.
    pub open spec fn advanced(self, steps: nat) -> CursorView
        decreases steps,
    {
        if steps == 0 {
            self
        } else {
            self.advanced((steps - 1) as nat).next()
        }
    }

    /// The cursor after it has been ended: back at index 0, with no
    /// candidates left to show.
    pub open spec fn end(self) -> CursorView {
        CursorView { items: Seq::empty(), index: 0, ended: true, session: self.session }
    }

    /// The candidate that the cursor shows: the one it stands on; past
    /// the last, still the last; and one with neither text nor comment
    /// before the first, after the end and where there are none.
    pub open spec fn current(self) -> CandidateView {
        if self.index < 0 || self.items.len() == 0 {
            CandidateView::absent()
        } else if self.index < self.items.len() {
            self.items[self.index]
        } else {
            self.items.last()
        }
    }
}

impl View for RimeCandidateList {
    type V = CursorView;

    closed spec fn view(&self) -> CursorView {
        CursorView {
            items: candidate_views(self.items@),
            index: self.index as int,
            ended: self.ended,
            session: self.session.id(),
        }
    }
}

impl RimeCandidateList {
    /// The cursor that `owner` has over the candidates `items` of its
    /// session, before the first of them.
    pub(crate) fn new(owner: RimeSession, items: Vec<RimeCandidate>) -> (list: Self)
        ensures
            list@ == CursorView::begin(candidate_views(items@), owner.id()),
    {
        RimeCandidateList { items, index: -1, ended: false, session: owner }
    }

    /// The session whose candidates these are.
    pub fn session_id(&self) -> (id: RimeSessionId)
        ensures
            id == self@.session,
    {
        self.session.session_id()
    }

    /// Gives the cursor up and hands back the owner that it was of its
    /// session, to be let go with `Rime::release`.
    pub fn into_session(self) -> (owner: RimeSession)
        ensures
            owner.id() == self@.session,
    {
        self.session
    }

    /// Where the cursor stands.
    pub fn index(&self) -> (index: i32)
        ensures
            index == self@.index,
    {
        self.index
    }

    /// Moves the cursor one step forward.
    pub fn next(&mut self)
        ensures
            final(self)@ == old(self)@.next(),
    {
        if !self.ended && self.index < i32::MAX {
            self.index = self.index + 1;
        }
    }

    /// Ends the cursor. It shows no candidate any more and no longer
    /// moves.
    pub fn end(&mut self)
        ensures
            final(self)@ == old(self)@.end(),
    {
        self.items = Vec::new();
        self.index = 0;
        self.ended = true;
        assert(candidate_views(self.items@) =~= Seq::<CandidateView>::empty());
    }

    /// The candidate that the cursor shows, without moving the cursor.
    pub fn get(&self) -> (candidate: RimeCandidate)
        ensures
            candidate@ == self@.current(),
    {
        let len = self.items.len();
        if self.index < 0 || len == 0 {
            RimeCandidate::new(None, None)
        } else if (self.index as usize) < len {
            self.items[self.index as usize].clone()
        } else {
            self.items[len - 1].clone()
        }
    }
}

/// After `steps` steps from its beginning a cursor stands on the
/// candidate of that number, counted from one: its index is one less,
/// and it shows the candidate at that index.
pub proof fn lemma_cursor_position(
    items: Seq<CandidateView>,
    session: RimeSessionId,
    steps: nat,
)
    requires
        1 <= steps <= items.len(),
        steps <= i32::MAX,
    ensures
        CursorView::begin(items, session).advanced(steps).index == steps - 1,
        CursorView::begin(items, session).advanced(steps).current() == items[steps - 1],
        CursorView::begin(items, session).advanced(steps).current() == items[CursorView::begin(
            items,
            session,
        ).advanced(steps).index],
{
    lemma_cursor_index(items, session, steps);
}

/// After `steps` steps from its beginning a cursor that has not been
/// ended stands at index `steps - 1`, with all else as it was.
pub proof fn lemma_cursor_index(items: Seq<CandidateView>, session: RimeSessionId, steps: nat)
    requires
        steps <= i32::MAX,
    ensures
        CursorView::begin(items, session).advanced(steps) == (CursorView {
            index: steps - 1,
            ..CursorView::begin(items, session)
        }),
    decreases steps,
{
    if steps > 0 {
        lemma_cursor_index(items, session, (steps - 1) as nat);
    }
}

/// An ended cursor stays where it is and shows no candidate.
pub proof fn lemma_cursor_ended(cursor: CursorView, steps: nat)
    ensures
        cursor.end().advanced(steps) == cursor.end(),
        cursor.end().current() == CandidateView::absent(),
    decreases steps,
{
    if steps > 0 {
        lemma_cursor_ended(cursor, (steps - 1) as nat);
    }
}

} // verus!
