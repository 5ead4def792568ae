//! Keeping a mobile device awake while the library works.
use vstd::prelude::*;

verus! {

/// What the host platform offers to keep the device awake.
pub trait PowerManager {
    fn acquire_wake_lock(&self);
    fn release_wake_lock(&self);
}

/// Holds a wake lock from its making until it is released.
#[derive(Debug)]
pub struct WakeLockGuard<P: PowerManager> {
    power_manager: P,
}

impl<P: PowerManager> WakeLockGuard<P> {
    /// The power manager whose lock is held.
    pub closed spec fn power_manager(&self) -> P {
        self.power_manager
    }

    /// Acquires a wake lock from `power_manager` and holds it.
    pub fn new(power_manager: P) -> (r: WakeLockGuard<P>)
        ensures
            r.power_manager() == power_manager,
    {
        power_manager.acquire_wake_lock();
        WakeLockGuard { power_manager }
    }

    /// Releases the wake lock, and gives the power manager back.
    pub fn release(self) -> (r: P)
        ensures
            r == self.power_manager(),
    {
        self.power_manager.release_wake_lock();
        self.power_manager
    }
}

} // verus!
