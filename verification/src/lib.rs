//! A composable, typed request-data extraction core for an HTTP
//! request-handling pipeline: filters pull typed values (such as cookies)
//! out of a request, short-circuiting with a typed rejection as soon as
//! any step cannot produce its value.

mod cookie;
mod filter;
mod header;
mod never;
mod reject;
mod request;

pub use cookie::ApplyValue;
pub use cookie::CookieFilter;
pub use cookie::CookieHeader;
pub use cookie::CookieLookup;
pub use cookie::OptionalCookieFilter;
pub use cookie::OptionalLookup;
pub use cookie::OptionalValueFilter;
pub use cookie::ValueFn;
pub use cookie::ValueLength;
pub use cookie::ValueOwned;
pub use cookie::cookie;
pub use cookie::cookie_entries;
pub use cookie::cookie_parse;
pub use cookie::optional;
pub use cookie::optional_value;
pub use cookie::lemma_cookie_not_found;
pub use cookie::lemma_cookie_present;
pub use cookie::lemma_cookie_rejects_without_mapping;
pub use cookie::lemma_cookie_short_circuit;
pub use cookie::lemma_optional_some_iff;
pub use cookie::lemma_optional_value_some_iff;
pub use cookie::spec_cookie;
pub use cookie::spec_cookie_mapping;
pub use cookie::spec_optional;
pub use cookie::spec_optional_value;
pub use filter::AndThenFilter;
pub use filter::AndThenStep;
pub use filter::Filter;
pub use filter::MapFilter;
pub use filter::MapStep;
pub use filter::OrFilter;
pub use filter::lemma_and_then_short_circuit;
pub use filter::lemma_run_deterministic;
pub use header::OptionalHeader;
pub use header::RequiredHeader;
pub use header::TypedHeader;
pub use header::spec_optional_header;
pub use header::spec_required_header;
pub use never::Never;
pub use reject::Rejection;
pub use reject::SpecCause;
pub use reject::contains_substr;
pub use reject::lemma_describe_missing_cookie_contains_name;
pub use reject::spec_combine;
pub use reject::spec_describe;
pub use reject::spec_rank;
pub use request::HeadersView;
pub use request::Request;
pub use request::spec_header_value;
