use vstd::prelude::*;

verus! {

/// A shared, mutually exclusive slot holding at most one `mio::Waker`,
/// together with a monotone flag recording whether a wake handle was ever
/// created through this slot.
///
/// Every sender handle and the receiver of one channel share the same slot.
/// The receiver is its only writer (through `install` and `clear`); sender
/// handles only trigger whatever handle the slot holds at the moment they
/// complete an enqueue.
///
/// mio admits a single wake handle per poll instance: creating a second one
/// for the same poll is documented as unspecified and aborts a build with
/// debug assertions, and `mio::Registry` offers nothing by which two
/// registries could be told apart. The slot therefore creates a wake handle
/// at most once in its lifetime: once the flag is set, `install` must not be
/// called again, and the callers refuse the registration instead.
#[verifier::external_body]
pub struct WakerSlot {
    inner: std::sync::Arc<std::sync::Mutex<(Option<mio::Waker>, bool)>>,
}

/// The registration a slot holds: `Some(t)` when it holds a wake handle
/// bound to the token value `t`, `None` when it is empty.
pub uninterp spec fn slot_state(s: WakerSlot) -> Option<nat>;

/// Whether a wake handle was ever created through the slot, counting failed
/// creation attempts: mio marks its poll instance as owning a wake handle
/// before the creation can fail, so even a failed attempt spends the one
/// creation the poll admits.
pub uninterp spec fn slot_spent(s: WakerSlot) -> bool;

impl WakerSlot {
    /// Relies on `std::sync::Arc::new` and `std::sync::Mutex::new`: a fresh
    /// slot holds no handle and has never created one.
    #[verifier::external_body]
    pub(crate) fn new() -> (s: Self)
        ensures
            slot_state(s) is None,
            !slot_spent(s),
    {
        WakerSlot { inner: std::sync::Arc::new(std::sync::Mutex::new((None, false))) }
    }

    /// Relies on `std::sync::Mutex::lock` and `Option::is_some`: whether the
    /// slot currently holds a handle.
    #[verifier::external_body]
    pub(crate) fn is_registered(&self) -> (r: bool)
        ensures
            r == (slot_state(*self) is Some),
    {
        self.inner.lock().unwrap().0.is_some()
    }

    /// Relies on `std::sync::Mutex::lock`: whether a wake handle was ever
    /// created through this slot.
    #[verifier::external_body]
    pub(crate) fn is_spent(&self) -> (r: bool)
        ensures
            r == slot_spent(*self),
    {
        self.inner.lock().unwrap().1
    }

    /// Relies on `mio::Waker::new`: on success the fresh handle is bound to
    /// `token` and replaces whatever the slot held; on failure the slot's
    /// handle is left as it was. Either way the slot is spent: mio sets the
    /// poll's own once-only wake-handle mark before the creation can fail.
    ///
    /// The caller must never ask for a second creation — mio admits one wake
    /// handle per poll instance and aborts a debug build on a second — so
    /// this requires an unspent slot, which also relies on the poll instance
    /// behind `registry` having created no wake handle outside this slot.
    #[verifier::external_body]
    pub(crate) fn install(&mut self, registry: &mio::Registry, token: mio::Token) -> (r: Result<(), std::io::Error>)
        requires
            !slot_spent(*old(self)),
        ensures
            slot_spent(*final(self)),
            r is Ok ==> slot_state(*final(self)) == Some(token.0 as nat),
            r is Err ==> slot_state(*final(self)) == slot_state(*old(self)),
    {
        let mut guard = self.inner.lock().unwrap();
        guard.1 = true;
        let w = mio::Waker::new(registry, token)?;
        guard.0 = Some(w);
        Ok(())
    }

    /// Relies on `std::sync::Mutex::lock`: empties the slot, dropping any
    /// handle it held; whether one was ever created is left as it was.
    #[verifier::external_body]
    pub(crate) fn clear(&mut self)
        ensures
            slot_state(*final(self)) is None,
            slot_spent(*final(self)) == slot_spent(*old(self)),
    {
        self.inner.lock().unwrap().0 = None;
    }

    /// Relies on `mio::Waker::wake`: triggers the handle the slot currently
    /// holds, if any, and discards the outcome of the trigger, so a failed
    /// wake never surfaces to the sender.
    #[verifier::external_body]
    pub(crate) fn wake_if_registered(&self) {
        if let Some(w) = &self.inner.lock().unwrap().0 {
            let _ = w.wake();
        }
    }
}

impl Clone for WakerSlot {
    /// Relies on `std::sync::Arc::clone`: the clone shares the same slot, so
    /// at the moment of cloning it holds the same registration and the same
    /// creation record.
    #[verifier::external_body]
    fn clone(&self) -> (s: Self)
        ensures
            slot_state(s) == slot_state(*self),
            slot_spent(s) == slot_spent(*self),
    {
        WakerSlot { inner: std::sync::Arc::clone(&self.inner) }
    }
}

/// Relies on `std::io::Error::new`: an error reporting that the channel
/// cannot create another wake handle.
#[verifier::external_body]
pub(crate) fn handle_refused_error() -> std::io::Error {
    std::io::Error::new(
        std::io::ErrorKind::Unsupported,
        "this channel already created its wake handle, and a poll instance admits only one",
    )
}

} // verus!
