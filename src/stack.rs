use vstd::prelude::*;
use amplify::confinement::Confined;
use crate::util::LibSite;

verus! {

/// The largest number of frames the call stack may hold.
pub const CALL_STACK_SIZE_MAX: u16 = 0xFF;

/// The call stack (`CS`): a vector of return sites confined to at most
/// [`CALL_STACK_SIZE_MAX`] frames.
#[verifier::external_body]
pub struct CallStack {
    frames: Confined<Vec<LibSite>, 0, 255>,
}

/// The frames held by a call stack, bottom first.
pub uninterp spec fn stack_frames(s: CallStack) -> Seq<LibSite>;

impl CallStack {
    /// Relies on `Confined::with_capacity`: a confined vector with no elements.
    #[verifier::external_body]
    pub(crate) fn new() -> (r: CallStack)
        ensures
            stack_frames(r) == Seq::<LibSite>::empty(),
    {
        CallStack { frames: Confined::with_capacity(CALL_STACK_SIZE_MAX as usize) }
    }

    /// Relies on `Confined::len`, through `Deref` to the inner vector: the number of frames.
    #[verifier::external_body]
    pub(crate) fn len(&self) -> (r: usize)
        ensures
            r == stack_frames(*self).len(),
            r <= CALL_STACK_SIZE_MAX,
    {
        self.frames.len()
    }

    /// Relies on `Confined::push`: appends the frame unless the vector already holds its
    /// maximum of 255 elements, in which case it fails and leaves the vector unchanged.
    #[verifier::external_body]
    pub(crate) fn push(&mut self, site: LibSite) -> (r: bool)
        ensures
            r <==> stack_frames(*old(self)).len() < CALL_STACK_SIZE_MAX,
            r ==> stack_frames(*final(self)) == stack_frames(*old(self)).push(site),
            !r ==> stack_frames(*final(self)) == stack_frames(*old(self)),
    {
        self.frames.push(site).is_ok()
    }

    /// Relies on `Confined::pop` for vectors: removes and returns the last element, or
    /// returns `None` on an empty vector.
    #[verifier::external_body]
    pub(crate) fn pop(&mut self) -> (r: Option<LibSite>)
        ensures
            stack_frames(*old(self)).len() == 0 ==> r.is_none() && stack_frames(*final(self))
                == stack_frames(*old(self)),
            stack_frames(*old(self)).len() > 0 ==> r == Some(stack_frames(*old(self)).last())
                && stack_frames(*final(self)) == stack_frames(*old(self)).drop_last(),
    {
        self.frames.pop()
    }
}

impl Clone for CallStack {
    /// Relies on the derived `Clone` of `Confined`: a copy with the same elements.
    #[verifier::external_body]
    fn clone(&self) -> (r: CallStack)
        ensures
            stack_frames(r) == stack_frames(*self),
    {
        CallStack { frames: self.frames.clone() }
    }
}

} // verus!
