use vstd::prelude::*;

verus! {

/// An uninhabited error type: a filter whose error type is `Never` is
/// statically guaranteed not to reject, so composition code can see at
/// compile time that no rejection path exists.
#[derive(Debug)]
pub struct Never {
    empty: core::convert::Infallible,
}

impl View for Never {
    type V = Never;

    open spec fn view(&self) -> Never {
        *self
    }
}

impl DeepView for Never {
    type V = Never;

    open spec fn deep_view(&self) -> Never {
        *self
    }
}

} // verus!
