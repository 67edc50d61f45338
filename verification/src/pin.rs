//! Pinned mutable references to host objects.
//!
//! The host's mutating operations are reached through a reference whose
//! target is promised to stay where it is. Guest code holds plain mutable
//! references; [`Repin`] turns one into the other and back. The promise is
//! the caller's: nothing here can check that the object is not moved.

use crate::host::WideCharList;
use vstd::prelude::*;

verus! {

/// A mutable reference to a host object of type `H` that carries the promise
/// that the object stays at its address for as long as the reference lives.
pub struct PinnedMutableRef<'a, H> {
    target: &'a mut H,
}

impl<'a, H> PinnedMutableRef<'a, H> {
    /// The plain reference that the pinned one stands for.
    pub closed spec fn target(self) -> &'a mut H {
        self.target
    }
}

/// Host types whose mutating operations the guest calls. A type joins by one
/// line: an impl without items.
pub trait Repin: Sized {
    /// A pinned reference to the object that `self` refers to: it sees the
    /// object as it is now, and what is done through it is done to the
    /// object.
    fn pin(&mut self) -> (pinned: PinnedMutableRef<'_, Self>)
        ensures
            *pinned.target() == *old(self),
            *final(self) == *final(pinned.target()),
    {
        PinnedMutableRef { target: self }
    }

    /// The plain reference to the object that `pinned` refers to.
    fn unpin<'a>(pinned: PinnedMutableRef<'a, Self>) -> (plain: &'a mut Self)
        ensures
            *plain == *pinned.target(),
            *final(plain) == *final(pinned.target()),
    {
        pinned.target
    }
}

impl Repin for WideCharList {}

/// Pinning a reference and unpinning the result gives a reference to the
/// object that the first one referred to: it sees the same value, and a
/// change made through it is a change of that object.
pub proof fn lemma_pin_identity<'a, H: Repin>(
    first: &'a mut H,
    pinned: PinnedMutableRef<'a, H>,
    plain: &'a mut H,
)
    requires
        call_ensures(H::pin, (first,), pinned),
        call_ensures(H::unpin, (pinned,), plain),
    ensures
        *old(plain) == *old(first),
        *final(plain) == *final(first),
{
}

} // verus!
