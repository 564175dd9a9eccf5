//! The semaphore: the admission state behind one lock, beside the wakeup
//! primitive that suspended callers wait on.
//!
//! The lock carries the invariant of that state, so whatever other callers do in
//! between, every value read from it is well-formed and belongs to the
//! configuration the semaphore was built with.

use vstd::prelude::*;
use vstd::rwlock::{RwLock, RwLockPredicate};
use tokio::sync::Notify;
use crate::aimd::{Aimd, AimdConfig, ConfigError};
use crate::gate::State;

verus! {

/// `tokio::sync::Notify`, the wakeup primitive: it stores at most one pending
/// wakeup, and releases its waiters one at a time in the order in which they
/// came. Its inside is not visible to a contract.
#[verifier::external_type_specification]
#[verifier::external_body]
pub struct ExNotify(tokio::sync::Notify);

/// `tokio::sync::Notify::new`: a fresh wakeup primitive, with no wakeup
/// pending. Nothing is claimed of the value.
pub assume_specification[ tokio::sync::Notify::new ]() -> (notify: tokio::sync::Notify);

/// `tokio::sync::Notify::notify_one`: wakes the waiter that has waited
/// longest or, with nobody waiting, leaves one pending wakeup; a wakeup that
/// is already pending is not doubled. It returns nothing, and nothing is
/// claimed of its effect.
pub assume_specification[ tokio::sync::Notify::notify_one ](notify: &tokio::sync::Notify);

/// What the lock admits: well-formed gates of one configuration.
pub struct GateInv {
    pub config: AimdConfig,
}

impl RwLockPredicate<State> for GateInv {
    open spec fn inv(self, v: State) -> bool {
        v@.wf() && v@.config == self.config
    }
}

/// An adaptive semaphore.
pub struct AimdSemaphore {
    aimd: RwLock<State, GateInv>,
    notify: Notify,
}

/// One permit that is out. It is handed back by `release`.
pub struct Permit<'a> {
    sem: &'a AimdSemaphore,
}

impl AimdSemaphore {
    /// The configuration the semaphore was built with.
    pub closed spec fn config(&self) -> AimdConfig {
        self.aimd.pred().config
    }

    /// Builds the semaphore with the limit at its maximum, no permit out and
    /// one wakeup pending, or refuses an invalid configuration.
    pub fn new(config: AimdConfig) -> (r: Result<AimdSemaphore, ConfigError>)
        ensures
            r is Ok <==> config.valid(),
            r is Ok ==> r->Ok_0.config() == config,
            r is Err ==> Some(r->Err_0) == config.defect(),
    {
        match Aimd::new(config) {
            Ok(aimd) => {
                let notify = Notify::new();
                notify.notify_one();
                let state = State::new(aimd);
                let aimd = RwLock::new(state, Ghost(GateInv { config }));
                Ok(AimdSemaphore { aimd, notify })
            },
            Err(e) => Err(e),
        }
    }

    /// Reports a success, and arms a wakeup where there is room afterwards.
    pub fn success(&self) {
        let (mut state, handle) = self.aimd.acquire_write();
        let wake = state.success();
        if wake {
            self.notify.notify_one();
        }
        handle.release_write(state);
    }

    /// Reports a failure. No wakeup is armed.
    pub fn failure(&self) {
        let (mut state, handle) = self.aimd.acquire_write();
        state.failure();
        handle.release_write(state);
    }

    /// The limit at the moment of the call.
    pub fn limit(&self) -> (r: u64)
        ensures
            self.config().min <= r <= self.config().max,
    {
        let handle = self.aimd.acquire_read();
        let r = handle.borrow().limit();
        handle.release_read();
        r
    }

    /// The number of permits that could be handed out at the moment of the
    /// call.
    pub fn available(&self) -> (r: u64)
        ensures
            r <= self.config().max,
    {
        let handle = self.aimd.acquire_read();
        let r = handle.borrow().available();
        handle.release_read();
        r
    }

    /// The wakeup primitive, for a caller to wait on before it asks for a
    /// permit: the one that this semaphore arms.
    pub fn notifier(&self) -> (notify: &Notify)
        ensures
            *notify == self.wakeup(),
    {
        &self.notify
    }

    /// One attempt of a woken caller: takes a permit if there is room, and
    /// then passes the wakeup on. Without room it returns `None`, and the
    /// caller is to wait on the wakeup primitive before it asks again.
    pub fn acquire(&self) -> (r: Option<Permit<'_>>)
        ensures
            r is Some ==> r->Some_0.owner() == self,
    {
        let (mut state, handle) = self.aimd.acquire_write();
        let admitted = state.try_acquire();
        if admitted {
            self.notify.notify_one();
        }
        handle.release_write(state);
        if admitted {
            Some(Permit { sem: self })
        } else {
            None
        }
    }

    /// The wakeup primitive that the semaphore arms and that suspended
    /// callers wait on.
    pub closed spec fn wakeup(&self) -> Notify {
        self.notify
    }
}

impl<'a> Permit<'a> {
    /// The semaphore that handed the permit out.
    pub closed spec fn owner(&self) -> &AimdSemaphore {
        self.sem
    }

    /// Hands the permit back, and arms a wakeup where there is room
    /// afterwards.
    pub fn release(self) {
        let (mut state, handle) = self.sem.aimd.acquire_write();
        if state.acquired() > 0 {
            let wake = state.release();
            if wake {
                self.sem.notify.notify_one();
            }
        }
        handle.release_write(state);
    }
}

} // verus!
