use vstd::prelude::*;

use crate::filter::Filter;
use crate::never::Never;
use crate::reject::Rejection;
use crate::reject::SpecCause;
use crate::request::HeadersView;
use crate::request::Request;
use crate::request::spec_header_value;

verus! {

/// A typed header: a name under which it is sent, and a parse from the
/// raw header value to the typed representation. The parse is a function
/// of the raw value alone, so one raw value always parses one way.
pub trait TypedHeader: Sized + DeepView {
    /// The header's name.
    spec fn spec_name() -> Seq<char>;

    /// What a raw header value parses to, if anything, as abstract
    /// values.
    spec fn spec_parse(raw: Seq<char>) -> Option<<Self as DeepView>::V>;

    /// The header's name.
    fn name() -> (r: String)
        ensures
            r@ == Self::spec_name(),
    ;

    /// Parse a raw header value.
    fn parse(raw: &str) -> (r: Option<Self>)
        ensures
            match r {
                Some(h) => Self::spec_parse(raw@) == Some(h.deep_view()),
                None => Self::spec_parse(raw@) is None,
            },
    ;
}

/// The outcome of the required header adapter for `H` on a snapshot:
/// the parsed header, or a rejection naming the header when it is absent
/// or its value does not parse.
pub open spec fn spec_required_header<H: TypedHeader>(req: HeadersView) -> Result<
    <H as DeepView>::V,
    SpecCause,
> {
    match spec_header_value(req, H::spec_name()) {
        None => Err(SpecCause::HeaderAbsent { header: H::spec_name() }),
        Some(raw) => match H::spec_parse(raw) {
            None => Err(SpecCause::HeaderMalformed { header: H::spec_name() }),
            Some(v) => Ok(v),
        },
    }
}

/// The outcome of the optional header adapter for `H` on a snapshot:
/// `Some` parsed header, or `None` when the header is absent or its value
/// does not parse — absence and a malformed value collapse alike, so this
/// adapter never fails.
pub open spec fn spec_optional_header<H: TypedHeader>(req: HeadersView) -> Option<
    <H as DeepView>::V,
> {
    match spec_header_value(req, H::spec_name()) {
        None => None,
        Some(raw) => match H::spec_parse(raw) {
            None => None,
            Some(v) => Some(v),
        },
    }
}

/// The required header adapter: extracts the typed header `H`, rejecting
/// when it is absent or malformed.
pub struct RequiredHeader<H> {
    marker: core::marker::PhantomData<H>,
}

impl<H: TypedHeader> RequiredHeader<H> {
    pub fn new() -> (r: RequiredHeader<H>) {
        RequiredHeader { marker: core::marker::PhantomData }
    }
}

impl<H: TypedHeader> Filter for RequiredHeader<H> {
    type Extract = H;

    type Error = Rejection;

    open spec fn spec_run(&self, req: HeadersView) -> Result<<H as DeepView>::V, SpecCause> {
        spec_required_header::<H>(req)
    }

    fn run(&self, req: &Request) -> (r: Result<H, Rejection>) {
        let name = H::name();
        match req.header_value(name.as_str()) {
            None => Err(Rejection::header_absent(name)),
            Some(raw) => match H::parse(raw.as_str()) {
                None => Err(Rejection::header_malformed(name)),
                Some(h) => Ok(h),
            },
        }
    }
}

/// The optional header adapter: extracts `Some` typed header `H`, or
/// `None` when it is absent or malformed; statically incapable of
/// failing.
pub struct OptionalHeader<H> {
    marker: core::marker::PhantomData<H>,
}

impl<H: TypedHeader> OptionalHeader<H> {
    pub fn new() -> (r: OptionalHeader<H>) {
        OptionalHeader { marker: core::marker::PhantomData }
    }
}

impl<H: TypedHeader> Filter for OptionalHeader<H> {
    type Extract = Option<H>;

    type Error = Never;

    open spec fn spec_run(&self, req: HeadersView) -> Result<Option<<H as DeepView>::V>, Never> {
        Ok(spec_optional_header::<H>(req))
    }

    fn run(&self, req: &Request) -> (r: Result<Option<H>, Never>) {
        let name = H::name();
        match req.header_value(name.as_str()) {
            None => Ok(None),
            Some(raw) => match H::parse(raw.as_str()) {
                None => Ok(None),
                Some(h) => Ok(Some(h)),
            },
        }
    }
}

} // verus!
