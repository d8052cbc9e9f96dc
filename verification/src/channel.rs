use vstd::prelude::*;

use crate::errors::{SendError, TryRecvError, TrySendError};
use crate::queue::{
    mpsc_channel, mpsc_send, mpsc_sender_clone, mpsc_sync_channel, mpsc_sync_send,
    mpsc_sync_sender_clone, mpsc_try_recv, mpsc_try_send,
};
use crate::waker_slot::{handle_refused_error, slot_spent, slot_state, WakerSlot};

verus! {

/// The slot after a `register` with token value `t`: the first registration
/// wins, a later one is silently ignored.
pub open spec fn register_transition(s: Option<nat>, t: nat) -> Option<nat> {
    match s {
        Some(prev) => Some(prev),
        None => Some(t),
    }
}

/// The slot after a successful `reregister` with token value `t`: the new
/// registration replaces whatever the slot held, including nothing.
pub open spec fn reregister_transition(s: Option<nat>, t: nat) -> Option<nat> {
    Some(t)
}

/// The slot after a `deregister`: empty, whatever the slot held.
pub open spec fn deregister_transition(s: Option<nat>) -> Option<nat> {
    None::<nat>
}

/// Law: while a handle is installed, a further `register` is a no-op — the
/// registration that was there stays, whatever token the call carries.
pub proof fn lemma_register_first_wins(s: Option<nat>, t: nat)
    requires
        s is Some,
    ensures
        register_transition(s, t) == s,
{
}

/// Law: a successful `reregister` installs the new token, whatever the slot
/// held before — even when it was empty — and keeps no prior registration.
/// A channel whose one wake handle was already created refuses the call
/// instead of reaching this transition.
pub proof fn lemma_reregister_replaces(s: Option<nat>, t: nat)
    ensures
        reregister_transition(s, t) == Some(t),
        forall|prev: nat| s == Some(prev) && prev != t ==> reregister_transition(s, t) != s,
{
}

/// Law: `deregister` leaves the slot empty, whatever it held.
pub proof fn lemma_deregister_clears(s: Option<nat>)
    ensures
        deregister_transition(s) is None,
{
}

/// The consuming half of a channel.
///
/// It holds the consuming half of the queue together with the shared waker
/// slot, and implements the three-call registration protocol of a readiness
/// poller against that slot, so it can be registered with one.
///
/// A poll instance admits a single wake handle, and `mio::Registry` offers
/// nothing by which two registries could be told apart, so the channel
/// creates its wake handle at most once: after `deregister`, or after a
/// failed creation, a registration call that would need a fresh handle is
/// refused with an I/O error rather than risking an abort inside mio.
#[verifier::reject_recursive_types(T)]
pub struct Receiver<T> {
    waker: WakerSlot,
    rx: std::sync::mpsc::Receiver<T>,
}

/// The producing half of an unbounded channel; sends never block.
#[verifier::reject_recursive_types(T)]
pub struct Sender<T> {
    waker: WakerSlot,
    tx: std::sync::mpsc::Sender<T>,
}

/// The producing half of a bounded channel; a blocking and a non-blocking
/// send are offered.
#[verifier::reject_recursive_types(T)]
pub struct SyncSender<T> {
    waker: WakerSlot,
    tx: std::sync::mpsc::SyncSender<T>,
}

/// Create a connected `Sender` / `Receiver` pair over a fresh unbounded
/// queue; the shared waker slot starts empty on both halves, with its one
/// wake-handle creation still available.
pub fn channel<T>() -> (pair: (Sender<T>, Receiver<T>))
    ensures
        pair.1.registration() is None,
        !pair.1.handle_created(),
        pair.0.slot_view() is None,
{
    let (tx, rx) = mpsc_channel();
    let waker = WakerSlot::new();
    let sender_waker = waker.clone();
    (Sender { waker: sender_waker, tx }, Receiver { waker, rx })
}

/// Create a connected `SyncSender` / `Receiver` pair over a fresh queue
/// bounded at `bound` values in flight; the shared waker slot starts empty
/// on both halves, with its one wake-handle creation still available.
pub fn sync_channel<T>(bound: usize) -> (pair: (SyncSender<T>, Receiver<T>))
    ensures
        pair.1.registration() is None,
        !pair.1.handle_created(),
        pair.0.slot_view() is None,
{
    let (tx, rx) = mpsc_sync_channel(bound);
    let waker = WakerSlot::new();
    let sender_waker = waker.clone();
    (SyncSender { waker: sender_waker, tx }, Receiver { waker, rx })
}

impl<T> Receiver<T> {
    /// The registration the shared waker slot holds: the token value of the
    /// installed wake handle, or `None` while the slot is empty.
    pub closed spec fn registration(self) -> Option<nat> {
        slot_state(self.waker)
    }

    /// Whether the channel's one wake handle was ever created (counting a
    /// failed creation attempt, which already spends the single handle the
    /// poll instance admits).
    pub closed spec fn handle_created(self) -> bool {
        slot_spent(self.waker)
    }

    /// Take the next queued value out without blocking. Fails with `Empty`
    /// while nothing is queued and a producer may still send, and with
    /// `Disconnected` once every producing handle was dropped and the buffer
    /// is drained.
    pub fn try_recv(&self) -> Result<T, TryRecvError> {
        mpsc_try_recv(&self.rx)
    }

    /// Register this receiver with a poller: if the slot is empty and no
    /// wake handle was created before, install a fresh one bound to `token`;
    /// if a handle is already installed, do nothing and succeed — the first
    /// registration wins until an explicit `deregister`. If the slot is
    /// empty but the channel's one creation is spent, fail with an I/O
    /// error, leaving everything as it was. The requested `interest` is
    /// ignored: a wake always signals readability.
    pub fn register(&mut self, registry: &mio::Registry, token: mio::Token, interest: mio::Interest) -> (r: Result<(), std::io::Error>)
        ensures
            r is Ok ==> final(self).registration() == register_transition(
                old(self).registration(),
                token.0 as nat,
            ),
            old(self).registration() is Some ==> r is Ok && *final(self) == *old(self),
            r is Ok && old(self).registration() is None ==> final(self).handle_created(),
            old(self).registration() is None && old(self).handle_created() ==> r is Err,
            r is Err ==> final(self).registration() == old(self).registration()
                && final(self).handle_created(),
            old(self).handle_created() ==> final(self).handle_created(),
    {
        let _ = interest;
        if self.waker.is_registered() {
            Ok(())
        } else if self.waker.is_spent() {
            Err(handle_refused_error())
        } else {
            self.waker.install(registry, token)
        }
    }

    /// Move the registration: install a fresh wake handle bound to `token`,
    /// replacing whatever the slot held — even nothing. Because the channel
    /// may create its wake handle only once, the call succeeds only while no
    /// handle was ever created; afterwards it fails with an I/O error,
    /// leaving everything as it was. On a failed creation the slot's handle
    /// is also left as it was. The requested `interest` is ignored, as in
    /// `register`.
    pub fn reregister(&mut self, registry: &mio::Registry, token: mio::Token, interest: mio::Interest) -> (r: Result<(), std::io::Error>)
        ensures
            r is Ok ==> final(self).registration() == reregister_transition(
                old(self).registration(),
                token.0 as nat,
            ) && final(self).handle_created(),
            old(self).handle_created() ==> r is Err && *final(self) == *old(self),
            r is Err ==> final(self).registration() == old(self).registration()
                && final(self).handle_created(),
    {
        let _ = interest;
        if self.waker.is_spent() {
            Err(handle_refused_error())
        } else {
            self.waker.install(registry, token)
        }
    }

    /// Clear the registration: leave the slot empty, whether or not a handle
    /// was installed, dropping any handle it held. Never fails; later sends
    /// still enqueue but trigger no wake. Whether the channel's one wake
    /// handle was ever created is left as it was.
    pub fn deregister(&mut self, registry: &mio::Registry) -> (r: Result<(), std::io::Error>)
        ensures
            r is Ok,
            final(self).registration() == deregister_transition(old(self).registration()),
            final(self).handle_created() == old(self).handle_created(),
    {
        let _ = registry;
        self.waker.clear();
        Ok(())
    }
}

impl<T> Sender<T> {
    /// The registration the shared waker slot held at the moment this handle
    /// value was made: the token value of the installed wake handle, or
    /// `None` while the slot was empty.
    pub closed spec fn slot_view(self) -> Option<nat> {
        slot_state(self.waker)
    }

    /// Enqueue `t` without blocking; on success, trigger the wake handle the
    /// shared slot currently holds, if any, discarding any error of the
    /// trigger itself. Fails with `SendError`, handing `t` back, exactly
    /// when the receiving handle was dropped.
    pub fn send(&self, t: T) -> (r: Result<(), SendError<T>>)
        ensures
            r matches Err(e) ==> e.0 == t,
    {
        match mpsc_send(&self.tx, t) {
            Ok(()) => {
                self.waker.wake_if_registered();
                Ok(())
            },
            Err(e) => Err(e),
        }
    }
}

impl<T> Clone for Sender<T> {
    /// The clone feeds the same queue and shares the same waker slot, so its
    /// sends reach the same receiver and trigger the same wake handle; in
    /// particular it carries its source's view of the slot.
    fn clone(&self) -> (r: Self)
        ensures
            r.slot_view() == self.slot_view(),
    {
        Sender { waker: self.waker.clone(), tx: mpsc_sender_clone(&self.tx) }
    }
}

impl<T> SyncSender<T> {
    /// The registration the shared waker slot held at the moment this handle
    /// value was made: the token value of the installed wake handle, or
    /// `None` while the slot was empty.
    pub closed spec fn slot_view(self) -> Option<nat> {
        slot_state(self.waker)
    }

    /// Enqueue `t`, blocking while the queue is at capacity; on success,
    /// trigger the wake handle the shared slot currently holds, if any,
    /// discarding any error of the trigger itself. Fails with `SendError`,
    /// handing `t` back, exactly when the receiving handle was dropped.
    pub fn send(&self, t: T) -> (r: Result<(), SendError<T>>)
        ensures
            r matches Err(e) ==> e.0 == t,
    {
        match mpsc_sync_send(&self.tx, t) {
            Ok(()) => {
                self.waker.wake_if_registered();
                Ok(())
            },
            Err(e) => Err(e),
        }
    }

    /// Enqueue `t` without ever blocking; on success, trigger the wake
    /// handle the shared slot currently holds, if any, discarding any error
    /// of the trigger itself. Hands `t` back inside `Full` when the queue is
    /// at capacity at the instant of the call, and inside `Disconnected`
    /// when the receiving handle was dropped.
    pub fn try_send(&self, t: T) -> (r: Result<(), TrySendError<T>>)
        ensures
            r matches Err(e) ==> e.value() == t,
    {
        match mpsc_try_send(&self.tx, t) {
            Ok(()) => {
                self.waker.wake_if_registered();
                Ok(())
            },
            Err(e) => Err(e),
        }
    }
}

impl<T> Clone for SyncSender<T> {
    /// The clone feeds the same queue, competing for the same capacity, and
    /// shares the same waker slot, so its sends reach the same receiver and
    /// trigger the same wake handle; in particular it carries its source's
    /// view of the slot.
    fn clone(&self) -> (r: Self)
        ensures
            r.slot_view() == self.slot_view(),
    {
        SyncSender { waker: self.waker.clone(), tx: mpsc_sync_sender_clone(&self.tx) }
    }
}

} // verus!
