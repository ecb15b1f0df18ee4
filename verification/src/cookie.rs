use vstd::prelude::*;
use vstd::string::StrSliceExecFns;

use crate::filter::AndThenFilter;
use crate::filter::AndThenStep;
use crate::filter::Filter;
use crate::filter::MapFilter;
use crate::filter::MapStep;
use crate::header::OptionalHeader;
use crate::header::RequiredHeader;
use crate::header::TypedHeader;
use crate::header::spec_optional_header;
use crate::header::spec_required_header;
use crate::never::Never;
use crate::reject::Rejection;
use crate::reject::SpecCause;
use crate::reject::contains_substr;
use crate::reject::spec_describe;
use crate::request::HeadersView;
use crate::request::spec_header_value;

verus! {

/// Declares `headers::Cookie` so values of it can stand in fields and
/// signatures; such a value is opaque here and is only read through
/// [`cookie_entries`].
#[verifier::external_type_specification]
#[verifier::external_body]
pub struct ExCookie(headers::Cookie);

/// What the cookie header parsing library makes of one raw `Cookie`
/// header value: a mapping from cookie name to cookie value, or nothing
/// when the raw value cannot be a header value at all. The result depends
/// on the raw value alone.
pub uninterp spec fn cookie_parse(raw: Seq<char>) -> Option<Map<Seq<char>, Seq<char>>>;

/// The name-to-value mapping a parsed `headers::Cookie` holds.
pub uninterp spec fn cookie_entries(c: headers::Cookie) -> Map<Seq<char>, Seq<char>>;

/// Relies on `headers::Header::decode` for `headers::Cookie`, fed one
/// `headers::HeaderValue` built with `HeaderValue::from_str`: the parse
/// is a function of the raw value alone; it yields nothing only when the
/// raw string cannot be carried as a header value at all.
#[verifier::external_body]
fn decode_cookie_header(raw: &str) -> (r: Option<headers::Cookie>)
    ensures
        match r {
            Some(c) => cookie_parse(raw@) == Some(cookie_entries(c)),
            None => cookie_parse(raw@) is None,
        },
{
    let value = match headers::HeaderValue::from_str(raw) {
        Ok(v) => v,
        Err(_) => return None,
    };
    let mut values = core::iter::once(&value);
    <headers::Cookie as headers::Header>::decode(&mut values).ok()
}

/// Relies on `headers::Cookie::get`: it looks a cookie name up in the
/// parsed header and hands back that cookie's value, an owned copy here.
#[verifier::external_body]
fn cookie_header_get(c: &headers::Cookie, name: &str) -> (r: Option<String>)
    ensures
        match r {
            Some(v) => cookie_entries(*c).contains_pair(name@, v@),
            None => !cookie_entries(*c).contains_key(name@),
        },
{
    c.get(name).map(String::from)
}

/// A parsed view over the request's cookie header: a mapping from cookie
/// name to cookie value, produced once per request by the header adapter.
pub struct CookieHeader {
    inner: headers::Cookie,
}

impl View for CookieHeader {
    type V = Map<Seq<char>, Seq<char>>;

    closed spec fn view(&self) -> Map<Seq<char>, Seq<char>> {
        cookie_entries(self.inner)
    }
}

impl DeepView for CookieHeader {
    type V = Map<Seq<char>, Seq<char>>;

    closed spec fn deep_view(&self) -> Map<Seq<char>, Seq<char>> {
        cookie_entries(self.inner)
    }
}

impl TypedHeader for CookieHeader {
    open spec fn spec_name() -> Seq<char> {
        "cookie"@
    }

    open spec fn spec_parse(raw: Seq<char>) -> Option<Map<Seq<char>, Seq<char>>> {
        cookie_parse(raw)
    }

    fn name() -> (r: String) {
        "cookie".to_owned()
    }

    fn parse(raw: &str) -> (r: Option<CookieHeader>) {
        match decode_cookie_header(raw) {
            Some(c) => Some(CookieHeader { inner: c }),
            None => None,
        }
    }
}

/// The mapping the request's cookie header parses to, if the header is
/// present and parses.
pub open spec fn spec_cookie_mapping(req: HeadersView) -> Option<Map<Seq<char>, Seq<char>>> {
    match spec_header_value(req, "cookie"@) {
        None => None,
        Some(raw) => cookie_parse(raw),
    }
}

/// The outcome of the required cookie filter: the named cookie's value;
/// or the header adapter's own rejection, propagated unchanged; or a
/// missing-cookie rejection naming the cookie.
pub open spec fn spec_cookie(name: Seq<char>, req: HeadersView) -> Result<Seq<char>, SpecCause> {
    match spec_required_header::<CookieHeader>(req) {
        Err(e) => Err(e),
        Ok(m) => if m.contains_key(name) {
            Ok(m[name])
        } else {
            Err(SpecCause::MissingCookie { name })
        },
    }
}

/// The outcome of the optional cookie filter: the named cookie's value if
/// the cookie header is present, parses, and contains the name; `None`
/// otherwise — never a rejection.
pub open spec fn spec_optional(name: Seq<char>, req: HeadersView) -> Option<Seq<char>> {
    match spec_optional_header::<CookieHeader>(req) {
        None => None,
        Some(m) => if m.contains_key(name) {
            Some(m[name])
        } else {
            None
        },
    }
}

/// The outcome of the value-mapping filter: the optional cookie filter's
/// outcome, with the caller's transformation applied to the value when
/// one is present — the composed form, not an independent lookup.
pub open spec fn spec_optional_value<G: ValueFn>(
    func: G,
    name: Seq<char>,
    req: HeadersView,
) -> Option<<G::Out as DeepView>::V> {
    match spec_optional(name, req) {
        None => None,
        Some(v) => Some(func.spec_call(v)),
    }
}

/// The lookup-by-name step of the required cookie filter: extracts the
/// named cookie's value as an owned copy, or rejects naming the cookie.
pub struct CookieLookup {
    pub name: String,
}

impl AndThenStep for CookieLookup {
    type In = CookieHeader;

    type Out = String;

    type Error = Rejection;

    open spec fn spec_call(&self, m: Map<Seq<char>, Seq<char>>) -> Result<Seq<char>, SpecCause> {
        if m.contains_key(self.name@) {
            Ok(m[self.name@])
        } else {
            Err(SpecCause::MissingCookie { name: self.name@ })
        }
    }

    fn call(&self, h: CookieHeader) -> (r: Result<String, Rejection>) {
        match cookie_header_get(&h.inner, self.name.as_str()) {
            Some(v) => Ok(v),
            None => Err(Rejection::missing_cookie(self.name.clone())),
        }
    }
}

/// The lookup-by-name step of the optional cookie filter: maps an absent
/// or unparsed header to `None`, and a parsed one to the named cookie's
/// value, if it is there.
pub struct OptionalLookup {
    pub name: String,
}

impl MapStep for OptionalLookup {
    type In = Option<CookieHeader>;

    type Out = Option<String>;

    open spec fn spec_call(&self, m: Option<Map<Seq<char>, Seq<char>>>) -> Option<Seq<char>> {
        match m {
            None => None,
            Some(mm) => if mm.contains_key(self.name@) {
                Some(mm[self.name@])
            } else {
                None
            },
        }
    }

    fn call(&self, h: Option<CookieHeader>) -> (r: Option<String>) {
        match h {
            None => None,
            Some(hh) => cookie_header_get(&hh.inner, self.name.as_str()),
        }
    }
}

/// A caller-supplied pure transformation of a cookie's raw value: its
/// whole behaviour is the function `spec_call`.
pub trait ValueFn: Sized {
    type Out: DeepView;

    /// What the transformation produces, as abstract values.
    spec fn spec_call(&self, v: Seq<char>) -> <Self::Out as DeepView>::V;

    /// Apply the transformation.
    fn call(&self, v: &str) -> (r: Self::Out)
        ensures
            r.deep_view() == self.spec_call(v@),
    ;
}

/// Lifts a [`ValueFn`] over an optional extract: applies it to the value
/// when one is present.
pub struct ApplyValue<G> {
    pub func: G,
}

impl<G: ValueFn> MapStep for ApplyValue<G> {
    type In = Option<String>;

    type Out = Option<G::Out>;

    open spec fn spec_call(&self, v: Option<Seq<char>>) -> Option<<G::Out as DeepView>::V> {
        match v {
            None => None,
            Some(s) => Some(self.func.spec_call(s)),
        }
    }

    fn call(&self, v: Option<String>) -> (r: Option<G::Out>) {
        match v {
            None => None,
            Some(s) => Some(self.func.call(s.as_str())),
        }
    }
}

/// The transformation that keeps a cookie's value as it is.
pub struct ValueOwned;

impl ValueFn for ValueOwned {
    type Out = String;

    open spec fn spec_call(&self, v: Seq<char>) -> Seq<char> {
        v
    }

    fn call(&self, v: &str) -> (r: String) {
        v.to_owned()
    }
}

/// The transformation that takes a cookie's value to its length in
/// characters.
pub struct ValueLength;

impl ValueFn for ValueLength {
    type Out = usize;

    open spec fn spec_call(&self, v: Seq<char>) -> usize {
        v.len() as usize
    }

    fn call(&self, v: &str) -> (r: usize) {
        v.unicode_len()
    }
}

/// The required cookie filter: the required cookie-header adapter
/// followed by the lookup-by-name step.
pub type CookieFilter = AndThenFilter<RequiredHeader<CookieHeader>, CookieLookup>;

/// The optional cookie filter: the optional cookie-header adapter
/// followed by the lookup-by-name mapping step.
pub type OptionalCookieFilter = MapFilter<OptionalHeader<CookieHeader>, OptionalLookup>;

/// The optional cookie filter with a caller-supplied transformation
/// mapped over its extract.
pub type OptionalValueFilter<G> = MapFilter<OptionalCookieFilter, ApplyValue<G>>;

/// A filter that requires a cookie by name: if found, it extracts an
/// owned copy of the cookie's value, otherwise it rejects — naming the
/// cookie when the header was there, and propagating the header adapter's
/// own rejection unchanged when it was not.
pub fn cookie(name: &str) -> (f: CookieFilter)
    ensures
        forall|req: HeadersView| #[trigger] f.spec_run(req) == spec_cookie(name@, req),
{
    AndThenFilter::new(
        RequiredHeader::<CookieHeader>::new(),
        CookieLookup { name: name.to_owned() },
    )
}

/// A filter that looks for an optional cookie by name: it extracts
/// `Some` owned copy of the cookie's value if found, `None` otherwise,
/// and is statically guaranteed never to reject.
pub fn optional(name: &str) -> (f: OptionalCookieFilter)
    ensures
        forall|req: HeadersView| #[trigger] f.spec_run(req) == Ok::<Option<Seq<char>>, Never>(
            spec_optional(name@, req),
        ),
{
    MapFilter::new(
        OptionalHeader::<CookieHeader>::new(),
        OptionalLookup { name: name.to_owned() },
    )
}

/// A filter that looks for an optional cookie by name and applies a
/// caller-supplied pure transformation to its value when one is present;
/// statically guaranteed never to reject. A compatibility shim: it is the
/// composed form — [`optional`] with the transformation mapped over the
/// extract — not an independent lookup.
pub fn optional_value<G: ValueFn>(name: &str, func: G) -> (f: OptionalValueFilter<G>)
    ensures
        forall|req: HeadersView| #[trigger] f.spec_run(req) == Ok::<
            Option<<G::Out as DeepView>::V>,
            Never,
        >(spec_optional_value(func, name@, req)),
{
    MapFilter::new(
        MapFilter::new(
            OptionalHeader::<CookieHeader>::new(),
            OptionalLookup { name: name.to_owned() },
        ),
        ApplyValue { func },
    )
}

/// For every request whose cookie header is present, parses, and holds
/// `name` with value `value` (beside any other cookies), the required
/// cookie filter extracts exactly `value`.
pub proof fn lemma_cookie_present(name: Seq<char>, value: Seq<char>, req: HeadersView)
    requires
        spec_cookie_mapping(req) matches Some(m) && m.contains_pair(name, value),
    ensures
        spec_cookie(name, req) == Ok::<Seq<char>, SpecCause>(value),
{
}

/// For every request whose cookie header is present and parses but lacks
/// `name`, the required cookie filter rejects, and the rejection's
/// description contains `name`.
pub proof fn lemma_cookie_not_found(name: Seq<char>, req: HeadersView)
    requires
        spec_cookie_mapping(req) matches Some(m) && !m.contains_key(name),
    ensures
        spec_cookie(name, req) == Err::<Seq<char>, SpecCause>(
            SpecCause::MissingCookie { name },
        ),
        contains_substr(spec_describe(SpecCause::MissingCookie { name }), name),
{
    crate::reject::lemma_describe_missing_cookie_contains_name(name);
}

/// For every request lacking a cookie header that parses — the header is
/// absent, or its value does not parse — the required cookie filter
/// rejects, with the header adapter's own cause, naming the header.
pub proof fn lemma_cookie_rejects_without_mapping(name: Seq<char>, req: HeadersView)
    requires
        spec_cookie_mapping(req) is None,
    ensures
        spec_cookie(name, req) is Err,
        spec_header_value(req, "cookie"@) is None ==> spec_cookie(name, req) == Err::<
            Seq<char>,
            SpecCause,
        >(SpecCause::HeaderAbsent { header: "cookie"@ }),
        spec_header_value(req, "cookie"@) is Some ==> spec_cookie(name, req) == Err::<
            Seq<char>,
            SpecCause,
        >(SpecCause::HeaderMalformed { header: "cookie"@ }),
{
}

/// The optional cookie filter never rejects: its outcome is `Some(value)`
/// exactly when the cookie header parses to a mapping that holds `name`
/// with `value`, and `None` otherwise.
pub proof fn lemma_optional_some_iff(name: Seq<char>, value: Seq<char>, req: HeadersView)
    ensures
        spec_optional(name, req) == Some(value) <==> (spec_cookie_mapping(req) matches Some(m)
            && m.contains_pair(name, value)),
        spec_optional(name, req) is None <==> !(spec_cookie_mapping(req) matches Some(m)
            && m.contains_key(name)),
{
}

/// The value-mapping filter returns the transformed value exactly when
/// the cookie header parses to a mapping that holds `name` — with
/// `Some(value)` there, it returns the transformation of `value` — and
/// `None` otherwise; it never rejects.
pub proof fn lemma_optional_value_some_iff<G: ValueFn>(
    func: G,
    name: Seq<char>,
    value: Seq<char>,
    req: HeadersView,
)
    ensures
        (spec_cookie_mapping(req) matches Some(m) && m.contains_pair(name, value))
            ==> spec_optional_value(func, name, req) == Some(func.spec_call(value)),
        spec_optional_value(func, name, req) is None <==> !(spec_cookie_mapping(req)
            matches Some(m) && m.contains_key(name)),
{
}

/// Short-circuit: when the cookie-header adapter itself rejects — the
/// header is absent or its value malformed — the required cookie filter's
/// outcome is that same rejection, propagated unchanged and never
/// replaced by a missing-cookie rejection.
pub proof fn lemma_cookie_short_circuit(name: Seq<char>, req: HeadersView, e: SpecCause)
    requires
        spec_required_header::<CookieHeader>(req) == Err::<Map<Seq<char>, Seq<char>>, SpecCause>(
            e,
        ),
    ensures
        spec_cookie(name, req) == Err::<Seq<char>, SpecCause>(e),
        e != (SpecCause::MissingCookie { name }),
{
}

} // verus!
