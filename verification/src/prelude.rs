//! What most callers need, in one import.

pub use crate::builder::{Host, RimeBuilder, RimeLogKind, RimeMinLogLevel, RimeTraits};
pub use crate::call::RimeCall;
pub use crate::candidate::{RimeCandidate, RimeCandidateList};
pub use crate::commit::RimeCommit;
pub use crate::context::RimeContext;
pub use crate::engine::{Notification, Rime, SetupStep, Startup};
pub use crate::error::RimeError;
pub use crate::session::RimeSession;
pub use crate::status::RimeStatus;
pub use crate::RimeSessionId;
