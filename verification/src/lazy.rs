//! A single-slot, write-once-or-replace container.
//!
//! GPU buffers are declared before their final size and usage are known, so
//! the backing allocation is installed on first real use rather than at
//! declaration time.  The slot may later be replaced wholesale; the previous
//! value is handed back to the caller, who decides when to reclaim it.

use vstd::prelude::*;

verus! {

/// A value that is installed after the container is created.
#[derive(Debug)]
pub struct LazilyInitialized<T> {
    /// The slot: `None` until a value is installed.
    pub slot: Option<T>,
}

impl<T> LazilyInitialized<T> {
    /// Whether a value has been installed.
    pub open spec fn is_init(self) -> bool {
        self.slot is Some
    }

    /// The installed value.
    pub open spec fn value(self) -> T
        recommends
            self.is_init(),
    {
        self.slot->Some_0
    }

    /// An empty container.
    pub fn uninitialized() -> (r: Self)
        ensures
            !r.is_init(),
    {
        LazilyInitialized { slot: None }
    }

    /// Installs `t` into a container that must still be empty.
    pub fn initialize_with(&mut self, t: T)
        requires
            !old(self).is_init(),
        ensures
            final(self).is_init(),
            final(self).value() == t,
    {
        self.slot = Some(t);
    }

    /// Installs `t`, returning the previously installed value if any.
    pub fn initialize_or_replace_with(&mut self, t: T) -> (prev: Option<T>)
        ensures
            final(self).is_init(),
            final(self).value() == t,
            prev == old(self).slot,
    {
        let prev = self.slot.take();
        self.slot = Some(t);
        prev
    }

    /// Whether a value has been installed yet.
    pub fn is_initialized(&self) -> (r: bool)
        ensures
            r == self.is_init(),
    {
        self.slot.is_some()
    }

    /// A read view of the installed value; the container must be initialized.
    pub fn assume_init(&self) -> (r: &T)
        requires
            self.is_init(),
        ensures
            *r == self.value(),
    {
        match &self.slot {
            Some(t) => t,
            None => unreached(),
        }
    }

    /// A write view of the installed value; the container must be initialized.
    pub fn assume_init_mut(&mut self) -> (r: &mut T)
        requires
            old(self).is_init(),
        ensures
            *r == old(self).value(),
            final(self).is_init(),
            final(self).value() == *final(r),
    {
        match &mut self.slot {
            Some(t) => t,
            None => unreached(),
        }
    }
}

} // verus!
