//! A multi-producer, single-consumer channel whose receiving end can be
//! registered with a readiness poller.
//!
//! The channel pairs a FIFO queue with a shared waker slot. Every successful
//! send triggers the wake handle the slot currently holds, so a thread
//! blocked in the poller's wait call learns that values may be ready to be
//! taken out with a non-blocking receive.
//!
//! A poll instance admits a single wake handle, so each channel creates its
//! wake handle at most once: a registration call that would need a second
//! one is refused with an I/O error instead of risking an abort inside the
//! poller library.

mod channel;
mod errors;
mod mio_types;
mod queue;
mod waker_slot;

pub use channel::{channel, sync_channel, Receiver, Sender, SyncSender};
pub use channel::{
    deregister_transition, lemma_deregister_clears, lemma_register_first_wins,
    lemma_reregister_replaces, register_transition, reregister_transition,
};
pub use errors::{SendError, TryRecvError, TrySendError};
pub use waker_slot::{slot_spent, slot_state, WakerSlot};
