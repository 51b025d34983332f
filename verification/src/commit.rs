//! The text that a composition produced.

use vstd::prelude::*;

use crate::session::RimeSession;
use crate::util::{shown_text, stored, stored_text};
use crate::RimeSessionId;

verus! {

/// What a session has committed, as the engine gave it at the moment of
/// the query. There may be nothing. The snapshot is an owner of its
/// session.
#[derive(Debug, PartialEq, Eq)]
pub struct RimeCommit {
    text: Option<Vec<u8>>,
    session: RimeSession,
}

/// A [`RimeCommit`] as a mathematical value.
pub struct CommitView {
    /// The committed text; `None` where nothing was produced.
    pub text: Option<Seq<u8>>,
    /// The session that was asked, and that the snapshot owns.
    pub session: RimeSessionId,
}

impl View for RimeCommit {
    type V = CommitView;

    closed spec fn view(&self) -> CommitView {
        CommitView { text: stored(self.text), session: self.session.id() }
    }
}

impl RimeCommit {
    /// The commit that `owner` reads of its session, with the native
    /// string `text`; `None` is a null pointer.
    pub(crate) fn new(owner: RimeSession, text: Option<Vec<u8>>) -> (commit: Self)
        ensures
            commit@ == (CommitView { text: stored(text), session: owner.id() }),
    {
        RimeCommit { text, session: owner }
    }

    /// The session that was asked.
    pub fn session_id(&self) -> (id: RimeSessionId)
        ensures
            id == self@.session,
    {
        self.session.session_id()
    }

    /// Gives the snapshot up and hands back the owner that it was of its
    /// session, to be let go with `Rime::release`.
    pub fn into_session(self) -> (owner: RimeSession)
        ensures
            owner.id() == self@.session,
    {
        self.session
    }

    /// Whether anything was produced.
    pub fn has_text(&self) -> (present: bool)
        ensures
            present == self@.text is Some,
    {
        self.text.is_some()
    }

    /// The committed text; empty where nothing was produced.
    pub fn text(&self) -> (text: String)
        ensures
            text@ == shown_text(self@.text),
            self@.text is None ==> text@ == Seq::<char>::empty(),
    {
        stored_text(&self.text)
    }
}

} // verus!
