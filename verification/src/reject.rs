use vstd::prelude::*;

verus! {

/// The abstract cause of a rejection: why a filter could not produce its
/// extract. `HeaderAbsent` and `HeaderMalformed` come from the header
/// adapter and carry the header's name; `MissingCookie` comes from the
/// cookie lookup and carries the cookie's name.
pub enum SpecCause {
    HeaderAbsent { header: Seq<char> },
    HeaderMalformed { header: Seq<char> },
    MissingCookie { name: Seq<char> },
}

/// How specific a cause is, for merging two rejections: a missing named
/// cookie points at the exact datum, a malformed header at a parse
/// failure, an absent header only at a generic miss.
pub open spec fn spec_rank(c: SpecCause) -> int {
    match c {
        SpecCause::HeaderAbsent { .. } => 0,
        SpecCause::HeaderMalformed { .. } => 1,
        SpecCause::MissingCookie { .. } => 2,
    }
}

/// The more specific of two causes; the first wins a tie.
pub open spec fn spec_combine(a: SpecCause, b: SpecCause) -> SpecCause {
    if spec_rank(b) > spec_rank(a) {
        b
    } else {
        a
    }
}

/// The human-readable description of a cause.
pub open spec fn spec_describe(c: SpecCause) -> Seq<char> {
    match c {
        SpecCause::HeaderAbsent { header } => "Missing request header '"@ + header + "'"@,
        SpecCause::HeaderMalformed { header } => "Invalid request header '"@ + header + "'"@,
        SpecCause::MissingCookie { name } => "Missing request cookie '"@ + name + "'"@,
    }
}

/// Whether `needle` occurs contiguously somewhere in `haystack`.
pub open spec fn contains_substr(haystack: Seq<char>, needle: Seq<char>) -> bool {
    exists|i: int|
        0 <= i && i + needle.len() <= haystack.len() && #[trigger] haystack.subrange(
            i,
            i + needle.len(),
        ) == needle
}

/// The description of a missing-cookie cause contains the cookie's name.
pub proof fn lemma_describe_missing_cookie_contains_name(name: Seq<char>)
    ensures
        contains_substr(spec_describe(SpecCause::MissingCookie { name }), name),
{
    let pre = "Missing request cookie '"@;
    let d = spec_describe(SpecCause::MissingCookie { name });
    assert(d.subrange(pre.len() as int, pre.len() as int + name.len() as int) =~= name);
}

/// The executable counterpart of [`SpecCause`].
#[derive(Debug)]
enum Cause {
    HeaderAbsent { header: String },
    HeaderMalformed { header: String },
    MissingCookie { name: String },
}

/// A typed failure value: a filter could not produce its extract, for the
/// reason its view gives. It never carries partial extract state.
#[derive(Debug)]
pub struct Rejection {
    cause: Cause,
}

impl View for Rejection {
    type V = SpecCause;

    closed spec fn view(&self) -> SpecCause {
        match self.cause {
            Cause::HeaderAbsent { header } => SpecCause::HeaderAbsent { header: header@ },
            Cause::HeaderMalformed { header } => SpecCause::HeaderMalformed { header: header@ },
            Cause::MissingCookie { name } => SpecCause::MissingCookie { name: name@ },
        }
    }
}

impl DeepView for Rejection {
    type V = SpecCause;

    open spec fn deep_view(&self) -> SpecCause {
        self.view()
    }
}

/// Relies on `String::push_str` of std: it appends the given string slice
/// onto the end of the string.
pub assume_specification[ String::push_str ](s: &mut String, other: &str)
    ensures
        final(s)@ == old(s)@ + other@,
;

impl Rejection {
    /// A rejection for a request that lacks the named header.
    pub fn header_absent(header: String) -> (r: Rejection)
        ensures
            r@ == (SpecCause::HeaderAbsent { header: header@ }),
    {
        Rejection { cause: Cause::HeaderAbsent { header } }
    }

    /// A rejection for a named header whose value could not be parsed.
    pub fn header_malformed(header: String) -> (r: Rejection)
        ensures
            r@ == (SpecCause::HeaderMalformed { header: header@ }),
    {
        Rejection { cause: Cause::HeaderMalformed { header } }
    }

    /// A rejection for a cookie header that lacks the named cookie.
    pub fn missing_cookie(name: String) -> (r: Rejection)
        ensures
            r@ == (SpecCause::MissingCookie { name: name@ }),
    {
        Rejection { cause: Cause::MissingCookie { name } }
    }

    /// Whether the cause is an absent header.
    pub fn is_header_absent(&self) -> (r: bool)
        ensures
            r == (self@ is HeaderAbsent),
    {
        match &self.cause {
            Cause::HeaderAbsent { .. } => true,
            _ => false,
        }
    }

    /// Whether the cause is a header whose value could not be parsed.
    pub fn is_header_malformed(&self) -> (r: bool)
        ensures
            r == (self@ is HeaderMalformed),
    {
        match &self.cause {
            Cause::HeaderMalformed { .. } => true,
            _ => false,
        }
    }

    /// Whether the cause is a cookie missing from the cookie header.
    pub fn is_missing_cookie(&self) -> (r: bool)
        ensures
            r == (self@ is MissingCookie),
    {
        match &self.cause {
            Cause::MissingCookie { .. } => true,
            _ => false,
        }
    }

    /// How specific this rejection's cause is.
    pub fn rank(&self) -> (r: u32)
        ensures
            r == spec_rank(self@),
    {
        match &self.cause {
            Cause::HeaderAbsent { .. } => 0,
            Cause::HeaderMalformed { .. } => 1,
            Cause::MissingCookie { .. } => 2,
        }
    }

    /// Merge two rejections, keeping the more specific cause; `self` wins
    /// a tie.
    pub fn combine(self, other: Rejection) -> (r: Rejection)
        ensures
            r@ == spec_combine(self@, other@),
    {
        if other.rank() > self.rank() {
            other
        } else {
            self
        }
    }

    /// A human-readable description of the cause, naming the header or
    /// cookie that could not be produced.
    pub fn describe(&self) -> (r: String)
        ensures
            r@ == spec_describe(self@),
    {
        match &self.cause {
            Cause::HeaderAbsent { header } => {
                let mut s: String = "Missing request header '".to_owned();
                s.push_str(header.as_str());
                s.push_str("'");
                s
            },
            Cause::HeaderMalformed { header } => {
                let mut s: String = "Invalid request header '".to_owned();
                s.push_str(header.as_str());
                s.push_str("'");
                s
            },
            Cause::MissingCookie { name } => {
                let mut s: String = "Missing request cookie '".to_owned();
                s.push_str(name.as_str());
                s.push_str("'");
                s
            },
        }
    }
}

} // verus!
