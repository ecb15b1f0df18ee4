use vstd::prelude::*;

verus! {

/// The abstract content of a request's header collection: the ordered
/// name/value pairs, each as a sequence of characters.
pub type HeadersView = Seq<(Seq<char>, Seq<char>)>;

/// A request snapshot, as far as this core is concerned: the header
/// collection of one incoming request. Header names are matched exactly,
/// so callers store them in one chosen form (conventionally lower-case).
///
/// Every entity here is created fresh per incoming request, consumed by
/// the combinator chain, and discarded with the response; extracted
/// values are owned copies and never alias this storage.
pub struct Request {
    headers: Vec<(String, String)>,
}

impl View for Request {
    type V = HeadersView;

    closed spec fn view(&self) -> HeadersView {
        self.headers.deep_view()
    }
}

/// The value of the first header named `name`, if any.
pub open spec fn spec_header_value(headers: HeadersView, name: Seq<char>) -> Option<Seq<char>>
    decreases headers.len(),
{
    if headers.len() == 0 {
        None
    } else if headers.first().0 == name {
        Some(headers.first().1)
    } else {
        spec_header_value(headers.drop_first(), name)
    }
}

impl Request {
    /// A request with no headers.
    pub fn new() -> (r: Request)
        ensures
            r@ == Seq::<(Seq<char>, Seq<char>)>::empty(),
    {
        let r = Request { headers: Vec::new() };
        proof {
            assert(r@ =~= Seq::<(Seq<char>, Seq<char>)>::empty());
        }
        r
    }

    /// Append one header to the collection.
    pub fn add_header(&mut self, name: String, value: String)
        ensures
            final(self)@ == old(self)@.push((name@, value@)),
    {
        let ghost before = self@;
        let ghost pushed = (name@, value@);
        self.headers.push((name, value));
        proof {
            assert(self@ =~= before.push(pushed));
        }
    }

    /// Retrieve the value of the first header named `name`, as an owned
    /// copy, or `None` when no header of that name is present.
    pub fn header_value(&self, name: &str) -> (r: Option<String>)
        ensures
            match r {
                Some(v) => spec_header_value(self@, name@) == Some(v@),
                None => spec_header_value(self@, name@) is None,
            },
    {
        let wanted: String = name.to_owned();
        let n = self.headers.len();
        let mut i: usize = 0;
        proof {
            assert(self@.skip(0) =~= self@);
        }
        while i < n
            invariant
                0 <= i <= n,
                n == self@.len(),
                wanted@ == name@,
                spec_header_value(self@, name@) == spec_header_value(
                    self@.skip(i as int),
                    name@,
                ),
            decreases n - i,
        {
            let entry = &self.headers[i];
            proof {
                assert(self@.skip(i as int).first() == self@[i as int]);
                assert(self@.skip(i as int).drop_first() =~= self@.skip(i as int + 1));
            }
            if entry.0 == wanted {
                return Some(entry.1.clone());
            }
            i = i + 1;
        }
        proof {
            assert(self@.skip(n as int) =~= Seq::<(Seq<char>, Seq<char>)>::empty());
        }
        None
    }
}

} // verus!
