//! The one container through which the foreground and the interrupt
//! handler reach the touch controller.

use vstd::prelude::*;

verus! {

/// The shared slot for the touch-controller handle.
///
/// It starts `Unconfigured`, becomes `Ready` when the foreground installs
/// the handle, and stays `Ready` from then on. Every operation takes the
/// container by `&mut`, so whoever runs one holds it alone for exactly the
/// span of that call.
#[derive(Debug, PartialEq, Eq)]
pub enum SharedTouchState<H> {
    Unconfigured,
    Ready(H),
}

impl<H> SharedTouchState<H> {
    /// Whether a handle has been installed.
    pub open spec fn spec_is_ready(&self) -> bool {
        self is Ready
    }

    /// The empty container.
    pub fn new() -> (state: Self)
        ensures
            state is Unconfigured,
    {
        SharedTouchState::Unconfigured
    }

    /// Whether a handle has been installed.
    #[verifier::when_used_as_spec(spec_is_ready)]
    pub fn is_ready(&self) -> (ready: bool)
        ensures
            ready == (self is Ready),
    {
        match self {
            SharedTouchState::Unconfigured => false,
            SharedTouchState::Ready(_) => true,
        }
    }

    /// Stores the handle. To be called once, on the empty container.
    pub fn install(&mut self, handle: H)
        requires
            *old(self) is Unconfigured,
        ensures
            *final(self) == SharedTouchState::Ready(handle),
    {
        *self = SharedTouchState::Ready(handle);
    }

    /// Runs `operation` on the handle if one is installed and returns its
    /// result; returns `None`, without running it, if none is.
    ///
    /// The operation is run once, on the handle as it was installed or as
    /// the last operation left it, and what it leaves is what the container
    /// holds afterwards. The container never goes back to `Unconfigured`.
    pub fn with_exclusive_access<R, F: FnOnce(&mut H) -> R>(&mut self, operation: F) -> (result:
        Option<R>)
        requires
            *old(self) is Ready ==> forall|h: &mut H|
                *h == (*old(self))->Ready_0 ==> #[trigger] operation.requires((h,)),
        ensures
            *old(self) is Unconfigured ==> result is None && *final(self) is Unconfigured,
            *old(self) is Ready ==> result is Some && *final(self) is Ready,
            *old(self) is Ready ==> exists|h: &mut H|
                {
                    &&& *h == (*old(self))->Ready_0
                    &&& *final(h) == (*final(self))->Ready_0
                    &&& operation.ensures((h,), result->0)
                },
    {
        match self {
            SharedTouchState::Unconfigured => None,
            SharedTouchState::Ready(handle) => {
                let ghost before = *handle;
                let outcome = operation(handle);
                assert(exists|h: &mut H|
                    {
                        &&& *h == before
                        &&& *final(h) == *handle
                        &&& operation.ensures((h,), outcome)
                    });
                Some(outcome)
            },
        }
    }
}

} // verus!
