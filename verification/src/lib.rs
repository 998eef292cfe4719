//! Shared, reference-counted ownership of single-threaded values.
//!
//! The crate offers three answers to the question "how long should a value
//! live, and who may touch it":
//!
//! - [`ProcessOwned`]: a value shared by any number of owners, read-only,
//!   freed exactly when the last owner releases it.
//! - [`ProcessOwnedMut`]: the same reference-counted sharing, with
//!   runtime-checked mutable access to the stored value.
//! - [`Immortal`]: a value allocated once and deliberately never freed, so
//!   that it stays valid for the remainder of the process.
//!
//! The bookkeeping behind the first two is modelled and proved here as
//! well: the owner-count rule over the history of one shared value (see
//! [`owners_after`] and [`lemma_destructor_runs_exactly_once`]), and the
//! guard discipline that gates mutable access (see [`BorrowTracker`]).

mod discipline;
mod immortal;
mod lifecycle;
mod shared;
mod shared_mut;

pub use discipline::BorrowTracker;
pub use immortal::Immortal;
pub use lifecycle::HandleEvent;
pub use lifecycle::freed_at;
pub use lifecycle::lemma_destructor_at_most_once;
pub use lifecycle::lemma_destructor_runs_exactly_once;
pub use lifecycle::lemma_no_free_before_end;
pub use lifecycle::lemma_no_free_while_owned;
pub use lifecycle::owners_after;
pub use lifecycle::wf_trace;
pub use shared::ProcessOwned;
pub use shared_mut::ProcessOwnedMut;
