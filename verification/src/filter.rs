use vstd::prelude::*;

use crate::reject::Rejection;
use crate::reject::SpecCause;
use crate::reject::spec_combine;
use crate::request::HeadersView;
use crate::request::Request;

verus! {

/// A filter: a function-like value that attempts to extract a typed value
/// from a request, possibly failing with a typed rejection. Its whole
/// behaviour is the mathematical function `spec_run` from the request
/// snapshot to extract-or-error; `run` realises exactly that function, so
/// a filter is side-effect-free and two runs on one unmodified snapshot
/// give identical outcomes.
pub trait Filter: Sized {
    /// The value this filter produces on success.
    type Extract: DeepView;

    /// The error this filter can produce; an uninhabited type here states
    /// that no rejection path exists.
    type Error: DeepView;

    /// The outcome of this filter on a request snapshot, as abstract
    /// values.
    spec fn spec_run(&self, req: HeadersView) -> Result<
        <Self::Extract as DeepView>::V,
        <Self::Error as DeepView>::V,
    >;

    /// Run the filter on a request.
    fn run(&self, req: &Request) -> (r: Result<Self::Extract, Self::Error>)
        ensures
            match r {
                Ok(x) => self.spec_run(req@) == Ok::<
                    <Self::Extract as DeepView>::V,
                    <Self::Error as DeepView>::V,
                >(x.deep_view()),
                Err(e) => self.spec_run(req@) == Err::<
                    <Self::Extract as DeepView>::V,
                    <Self::Error as DeepView>::V,
                >(e.deep_view()),
            },
    ;
}

/// A total function applied to an extract by [`MapFilter`]: it cannot
/// fail, and its whole behaviour is the function `spec_call`.
pub trait MapStep: Sized {
    type In: DeepView;

    type Out: DeepView;

    /// What the step produces, as abstract values.
    spec fn spec_call(&self, x: <Self::In as DeepView>::V) -> <Self::Out as DeepView>::V;

    /// Apply the step.
    fn call(&self, x: Self::In) -> (r: Self::Out)
        ensures
            r.deep_view() == self.spec_call(x.deep_view()),
    ;
}

/// A step applied to an extract by [`AndThenFilter`]: it produces either a
/// new extract or a rejection, and its whole behaviour is the function
/// `spec_call`.
pub trait AndThenStep: Sized {
    type In: DeepView;

    type Out: DeepView;

    type Error: DeepView;

    /// What the step produces, as abstract values.
    spec fn spec_call(&self, x: <Self::In as DeepView>::V) -> Result<
        <Self::Out as DeepView>::V,
        <Self::Error as DeepView>::V,
    >;

    /// Apply the step.
    fn call(&self, x: Self::In) -> (r: Result<Self::Out, Self::Error>)
        ensures
            match r {
                Ok(y) => self.spec_call(x.deep_view()) == Ok::<
                    <Self::Out as DeepView>::V,
                    <Self::Error as DeepView>::V,
                >(y.deep_view()),
                Err(e) => self.spec_call(x.deep_view()) == Err::<
                    <Self::Out as DeepView>::V,
                    <Self::Error as DeepView>::V,
                >(e.deep_view()),
            },
    ;
}

/// On success of the inner filter, applies a total function to the
/// extract; cannot itself fail, and preserves the inner error type.
pub struct MapFilter<F, G> {
    pub filter: F,
    pub step: G,
}

impl<F, G> MapFilter<F, G> where F: Filter, G: MapStep<In = F::Extract> {
    pub fn new(filter: F, step: G) -> (r: MapFilter<F, G>)
        ensures
            r == (MapFilter { filter, step }),
    {
        MapFilter { filter, step }
    }
}

impl<F, G> Filter for MapFilter<F, G> where F: Filter, G: MapStep<In = F::Extract> {
    type Extract = G::Out;

    type Error = F::Error;

    open spec fn spec_run(&self, req: HeadersView) -> Result<
        <G::Out as DeepView>::V,
        <F::Error as DeepView>::V,
    > {
        match self.filter.spec_run(req) {
            Ok(x) => Ok(self.step.spec_call(x)),
            Err(e) => Err(e),
        }
    }

    fn run(&self, req: &Request) -> (r: Result<G::Out, F::Error>) {
        match self.filter.run(req) {
            Ok(x) => Ok(self.step.call(x)),
            Err(e) => Err(e),
        }
    }
}

/// On success of the inner filter, applies a step that may itself reject;
/// short-circuits: if the inner filter already failed, the step is never
/// invoked and the inner rejection propagates unchanged.
pub struct AndThenFilter<F, G> {
    pub filter: F,
    pub step: G,
}

impl<F, G> AndThenFilter<F, G> where
    F: Filter,
    G: AndThenStep<In = F::Extract, Error = F::Error>,
 {
    pub fn new(filter: F, step: G) -> (r: AndThenFilter<F, G>)
        ensures
            r == (AndThenFilter { filter, step }),
    {
        AndThenFilter { filter, step }
    }
}

impl<F, G> Filter for AndThenFilter<F, G> where
    F: Filter,
    G: AndThenStep<In = F::Extract, Error = F::Error>,
 {
    type Extract = G::Out;

    type Error = F::Error;

    open spec fn spec_run(&self, req: HeadersView) -> Result<
        <G::Out as DeepView>::V,
        <F::Error as DeepView>::V,
    > {
        match self.filter.spec_run(req) {
            Ok(x) => self.step.spec_call(x),
            Err(e) => Err(e),
        }
    }

    fn run(&self, req: &Request) -> (r: Result<G::Out, F::Error>) {
        match self.filter.run(req) {
            Ok(x) => self.step.call(x),
            Err(e) => Err(e),
        }
    }
}

/// Tries the first filter; on its rejection tries the second; if both
/// reject, the two rejections are merged into the more specific one.
pub struct OrFilter<F, G> {
    pub first: F,
    pub second: G,
}

impl<F, G> OrFilter<F, G> where
    F: Filter<Error = Rejection>,
    G: Filter<Extract = F::Extract, Error = Rejection>,
 {
    pub fn new(first: F, second: G) -> (r: OrFilter<F, G>)
        ensures
            r == (OrFilter { first, second }),
    {
        OrFilter { first, second }
    }
}

impl<F, G> Filter for OrFilter<F, G> where
    F: Filter<Error = Rejection>,
    G: Filter<Extract = F::Extract, Error = Rejection>,
 {
    type Extract = F::Extract;

    type Error = Rejection;

    open spec fn spec_run(&self, req: HeadersView) -> Result<
        <F::Extract as DeepView>::V,
        SpecCause,
    > {
        match self.first.spec_run(req) {
            Ok(x) => Ok(x),
            Err(e1) => match self.second.spec_run(req) {
                Ok(x) => Ok(x),
                Err(e2) => Err(spec_combine(e1, e2)),
            },
        }
    }

    fn run(&self, req: &Request) -> (r: Result<F::Extract, Rejection>) {
        match self.first.run(req) {
            Ok(x) => Ok(x),
            Err(e1) => match self.second.run(req) {
                Ok(x) => Ok(x),
                Err(e2) => Err(e1.combine(e2)),
            },
        }
    }
}

/// Idempotence: any two outcomes a filter's `run` may hand back for one
/// unmodified request snapshot are the same abstract outcome, since each
/// equals `spec_run` of the snapshot.
pub proof fn lemma_run_deterministic<F: Filter>(
    f: F,
    req: HeadersView,
    r1: Result<F::Extract, F::Error>,
    r2: Result<F::Extract, F::Error>,
)
    requires
        (match r1 {
            Ok(x) => f.spec_run(req) == Ok::<
                <F::Extract as DeepView>::V,
                <F::Error as DeepView>::V,
            >(x.deep_view()),
            Err(e) => f.spec_run(req) == Err::<
                <F::Extract as DeepView>::V,
                <F::Error as DeepView>::V,
            >(e.deep_view()),
        }),
        (match r2 {
            Ok(x) => f.spec_run(req) == Ok::<
                <F::Extract as DeepView>::V,
                <F::Error as DeepView>::V,
            >(x.deep_view()),
            Err(e) => f.spec_run(req) == Err::<
                <F::Extract as DeepView>::V,
                <F::Error as DeepView>::V,
            >(e.deep_view()),
        }),
    ensures
        match (r1, r2) {
            (Ok(x1), Ok(x2)) => x1.deep_view() == x2.deep_view(),
            (Err(e1), Err(e2)) => e1.deep_view() == e2.deep_view(),
            _ => false,
        },
{
}

/// Short-circuit: once the inner filter of an [`AndThenFilter`] rejects,
/// the combined filter's outcome is that same rejection, unchanged.
pub proof fn lemma_and_then_short_circuit<F, G>(
    c: AndThenFilter<F, G>,
    req: HeadersView,
    e: <F::Error as DeepView>::V,
) where F: Filter, G: AndThenStep<In = F::Extract, Error = F::Error>
    requires
        c.filter.spec_run(req) == Err::<<F::Extract as DeepView>::V, <F::Error as DeepView>::V>(e),
    ensures
        c.spec_run(req) == Err::<<G::Out as DeepView>::V, <F::Error as DeepView>::V>(e),
{
}

} // verus!
