//! The mode that a session is in.

use vstd::prelude::*;

use crate::session::RimeSession;
use crate::util::native_bool;
use crate::RimeSessionId;

verus! {

/// The mode flags of a session at the moment of the query. The snapshot
/// is an owner of its session.
#[derive(Debug, PartialEq, Eq)]
pub struct RimeStatus {
    session: RimeSession,
    is_disabled: bool,
    is_composing: bool,
    is_ascii_mode: bool,
}

/// A [`RimeStatus`] as a mathematical value.
pub struct StatusView {
    /// The session that was asked, and that the snapshot owns.
    pub session: RimeSessionId,
    /// Whether the engine is disabled for the session.
    pub is_disabled: bool,
    /// Whether the session is composing.
    pub is_composing: bool,
    /// Whether the session passes ASCII through.
    pub is_ascii_mode: bool,
}

impl View for RimeStatus {
    type V = StatusView;

    closed spec fn view(&self) -> StatusView {
        StatusView {
            session: self.session.id(),
            is_disabled: self.is_disabled,
            is_composing: self.is_composing,
            is_ascii_mode: self.is_ascii_mode,
        }
    }
}

/// The status that the three flags give as the engine hands them over:
/// integers, of which every value but zero means that the flag is set.
pub open spec fn status_of(
    session: RimeSessionId,
    is_disabled: int,
    is_composing: int,
    is_ascii_mode: int,
) -> StatusView {
    StatusView {
        session,
        is_disabled: is_disabled != 0,
        is_composing: is_composing != 0,
        is_ascii_mode: is_ascii_mode != 0,
    }
}

impl RimeStatus {
    /// The status that `owner` reads of its session, from the three
    /// flags as the engine gave them.
    pub(crate) fn new(owner: RimeSession, is_disabled: i32, is_composing: i32, is_ascii_mode: i32) -> (status:
        Self)
        ensures
            status@ == status_of(
                owner.id(),
                is_disabled as int,
                is_composing as int,
                is_ascii_mode as int,
            ),
    {
        RimeStatus {
            session: owner,
            is_disabled: native_bool(is_disabled),
            is_composing: native_bool(is_composing),
            is_ascii_mode: native_bool(is_ascii_mode),
        }
    }

    /// The session that was asked.
    pub fn session_id(&self) -> (id: RimeSessionId)
        ensures
            id == self@.session,
    {
        self.session.session_id()
    }

    /// Whether the engine is disabled for the session.
    pub fn is_disabled(&self) -> (flag: bool)
        ensures
            flag == self@.is_disabled,
    {
        self.is_disabled
    }

    /// Whether the session is composing.
    pub fn is_composing(&self) -> (flag: bool)
        ensures
            flag == self@.is_composing,
    {
        self.is_composing
    }

    /// Whether the session passes ASCII through.
    pub fn is_ascii_mode(&self) -> (flag: bool)
        ensures
            flag == self@.is_ascii_mode,
    {
        self.is_ascii_mode
    }

    /// Gives the snapshot up and hands back the owner that it was of its
    /// session, to be let go with `Rime::release`.
    pub fn into_session(self) -> (owner: RimeSession)
        ensures
            owner.id() == self@.session,
    {
        self.session
    }
}

} // verus!
