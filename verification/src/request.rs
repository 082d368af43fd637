//! The one GET request that a lookup sends.

use vstd::prelude::*;

verus! {

/// A query parameter.
#[derive(Debug)]
pub struct QueryParam {
    pub key: String,
    pub value: String,
}

impl View for QueryParam {
    type V = (Seq<char>, Seq<char>);

    open spec fn view(&self) -> (Seq<char>, Seq<char>) {
        (self.key@, self.value@)
    }
}

/// A GET request: the address and the query parameters, in order.
#[derive(Debug)]
pub struct Request {
    pub url: String,
    pub query: Vec<QueryParam>,
}

/// A [`Request`] as sequences of characters.
pub struct RequestView {
    pub url: Seq<char>,
    pub query: Seq<(Seq<char>, Seq<char>)>,
}

impl View for Request {
    type V = RequestView;

    open spec fn view(&self) -> RequestView {
        RequestView { url: self.url@, query: Seq::new(self.query@.len(), |i: int| self.query@[i]@) }
    }
}

/// The call to make, of a provider's calls `C`, and the request that makes
/// it.
#[derive(Debug)]
pub struct Plan<C> {
    pub call: C,
    pub request: Request,
}

/// A [`Plan`] with its request as sequences of characters.
pub struct PlanView<C> {
    pub call: C,
    pub request: RequestView,
}

impl<C> View for Plan<C> {
    type V = PlanView<C>;

    open spec fn view(&self) -> PlanView<C> {
        PlanView { call: self.call, request: self.request@ }
    }
}

impl Request {
    /// A request to `url` without parameters.
    pub fn new(url: String) -> (r: Request)
        ensures
            r@ == (RequestView { url: url@, query: Seq::empty() }),
    {
        let r = Request { url, query: Vec::new() };
        assert(r@.query =~= Seq::empty());
        r
    }

    /// Adds a parameter after those already there.
    pub fn param(&mut self, key: &str, value: &str)
        ensures
            final(self)@ == (RequestView {
                url: old(self)@.url,
                query: old(self)@.query.push((key@, value@)),
            }),
    {
        self.query.push(QueryParam { key: key.to_owned(), value: value.to_owned() });
        assert(final(self)@.query =~= old(self)@.query.push((key@, value@)));
    }
}

} // verus!
