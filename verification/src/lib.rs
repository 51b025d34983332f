//! Verified core of a safe binding to the RIME input-method engine.
//!
//! The engine is a native library with one process-wide instance. This
//! crate holds everything about driving it that is not a foreign call:
//! how a configuration is checked and resolved, which native calls bring
//! the engine up and tear it down and in what order, who owns a session
//! and when it is destroyed, and what the text and the snapshots that
//! come back mean. A thin shell makes the calls this crate names and
//! hands back what they returned, as plain values.
//!
//! What a query returns is a snapshot: the shell copies the engine's
//! answer out and frees the engine's memory at once, so a snapshot holds
//! no native memory. It does hold its session: a snapshot is entered in
//! the ledger as one more owner, and the engine is not asked to destroy
//! a session for its last owner's sake while a snapshot of it is held.
//! What has to be released in step with the engine, the sessions and
//! the storage of the notification handler, is in the keeping of
//! [`Rime`].

use vstd::prelude::*;

pub mod builder;
pub mod call;
pub mod candidate;
pub mod commit;
pub mod context;
pub mod engine;
pub mod error;
pub mod module;
pub mod prelude;
pub mod session;
pub mod status;
pub mod util;

pub use builder::{Host, RimeBuilder, RimeLogKind, RimeMinLogLevel, RimeTraits};
pub use call::RimeCall;
pub use engine::Rime;
pub use error::RimeError;

verus! {

/// Identifier that the engine assigns to a session.
pub type RimeSessionId = usize;

} // verus!
