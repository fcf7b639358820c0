//! Background reference holder: a single-assignment container for the
//! one reference tensor captured before streaming begins.
//!
//! The reference is set exactly once: setting demands an empty holder,
//! and is only ever handed out by shared reference afterwards, so no
//! frame iteration can alter it.

use crate::tensor::FrameTensor;
use vstd::prelude::*;

verus! {

/// Holds the background reference tensor once it has been captured.
pub struct BackgroundRef {
    reference: Option<FrameTensor>,
}

impl BackgroundRef {
    /// Whether the reference has been captured and stored.
    pub closed spec fn is_set(self) -> bool {
        self.reference is Some
    }

    /// The stored reference tensor.
    pub closed spec fn stored(self) -> FrameTensor {
        self.reference->Some_0
    }

    /// An empty holder, before the background capture.
    pub fn new() -> (h: Self)
        ensures
            !h.is_set(),
    {
        BackgroundRef { reference: None }
    }

    /// Store the captured reference tensor. Allowed exactly once: the
    /// holder must still be empty, and is full ever after.
    pub fn set(&mut self, t: FrameTensor)
        requires
            !old(self).is_set(),
        ensures
            final(self).is_set(),
            final(self).stored() == t,
    {
        self.reference = Some(t);
    }

    /// Read the stored reference tensor. Shared access only: the holder,
    /// and with it the reference, stays exactly as it was.
    pub fn get(&self) -> (t: &FrameTensor)
        requires
            self.is_set(),
        ensures
            *t == self.stored(),
    {
        match &self.reference {
            Some(t) => t,
            None => unreached(),
        }
    }
}

} // verus!
