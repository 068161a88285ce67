//! Requests and responses: method or status, path, query, headers and body.

use vstd::prelude::*;
use crate::assoc::all_named;
use crate::patterns::{NifJsonPattern, NifStringPattern, PatternModel};

verus! {

/// The text an optional string holds, if any.
pub open spec fn text_of(text: Option<String>) -> Option<Seq<char>> {
    match text {
        Some(s) => Some(s@),
        None => None,
    }
}

/// A header: its name, the pattern for its value and, where the provider
/// fills the value in from its state, the expression that says how.
#[derive(Debug)]
pub struct HeaderEntry {
    pub name: String,
    pub value: NifStringPattern,
    pub expression: Option<String>,
}

/// What a [`HeaderEntry`] stands for.
pub ghost struct HeaderModel {
    pub name: Seq<char>,
    pub value: PatternModel,
    pub expression: Option<Seq<char>>,
}

impl View for HeaderEntry {
    type V = HeaderModel;

    open spec fn view(&self) -> HeaderModel {
        HeaderModel { name: self.name@, value: self.value@, expression: text_of(self.expression) }
    }
}

impl Clone for HeaderEntry {
    /// A copy that stands for the same header.
    fn clone(&self) -> (r: HeaderEntry)
        ensures
            r@ == self@,
    {
        HeaderEntry { name: self.name.clone(), value: self.value.clone(), expression: self.expression.clone() }
    }
}

/// A query parameter: its name and one value for it.
#[derive(Debug)]
pub struct QueryParam {
    pub key: String,
    pub value: String,
}

impl View for QueryParam {
    type V = (Seq<char>, Seq<char>);

    open spec fn view(&self) -> (Seq<char>, Seq<char>) {
        (self.key@, self.value@)
    }
}

impl Clone for QueryParam {
    /// A copy with the same name and value.
    fn clone(&self) -> (r: QueryParam)
        ensures
            r@ == self@,
    {
        QueryParam { key: self.key.clone(), value: self.value.clone() }
    }
}

/// The body of a request, a response or a message. There is one body at a
/// time: setting one replaces what was there.
#[derive(Debug)]
#[allow(inconsistent_fields)]
pub enum Body {
    /// No body.
    Missing,
    /// Literal text, with the content type it was given, if any.
    Text { text: String, content_type: Option<String> },
    /// A JSON body given as a pattern.
    Json(NifJsonPattern),
    /// A textual body given as a string pattern, with the content type it was
    /// given, if any.
    Matching { pattern: NifStringPattern, content_type: Option<String> },
    /// A body that the content generator registered for `content_type` makes
    /// from `definition`, a JSON text.
    Contents { content_type: String, definition: String },
}

/// What a [`Body`] stands for.
#[allow(inconsistent_fields)]
pub ghost enum BodyModel {
    Missing,
    Text { text: Seq<char>, content_type: Option<Seq<char>> },
    Json(PatternModel),
    Matching { pattern: PatternModel, content_type: Option<Seq<char>> },
    Contents { content_type: Seq<char>, definition: Seq<char> },
}

impl View for Body {
    type V = BodyModel;

    open spec fn view(&self) -> BodyModel {
        match self {
            Body::Missing => BodyModel::Missing,
            Body::Text { text, content_type } => BodyModel::Text {
                text: text@,
                content_type: text_of(*content_type),
            },
            Body::Json(pattern) => BodyModel::Json(pattern@),
            Body::Matching { pattern, content_type } => BodyModel::Matching {
                pattern: pattern@,
                content_type: text_of(*content_type),
            },
            Body::Contents { content_type, definition } => BodyModel::Contents {
                content_type: content_type@,
                definition: definition@,
            },
        }
    }
}

impl Clone for Body {
    /// A copy that stands for the same body.
    fn clone(&self) -> (r: Body)
        ensures
            r@ == self@,
    {
        match self {
            Body::Missing => Body::Missing,
            Body::Text { text, content_type } => Body::Text {
                text: text.clone(),
                content_type: content_type.clone(),
            },
            Body::Json(pattern) => Body::Json(pattern.clone()),
            Body::Matching { pattern, content_type } => Body::Matching {
                pattern: pattern.clone(),
                content_type: content_type.clone(),
            },
            Body::Contents { content_type, definition } => Body::Contents {
                content_type: content_type.clone(),
                definition: definition.clone(),
            },
        }
    }
}

/// What each of `items` stands for, in order.
pub open spec fn views<T: View>(items: Seq<T>) -> Seq<T::V> {
    Seq::new(items.len(), |i: int| items[i]@)
}

/// The headers as a list of names and patterns.
pub open spec fn named_patterns(headers: Seq<HeaderModel>) -> Seq<(Seq<char>, PatternModel)> {
    Seq::new(headers.len(), |i: int| (headers[i].name, headers[i].value))
}

/// The patterns of the headers called `name`, in the order the headers were
/// added. The name is taken as it is written.
pub fn header_values(headers: &Vec<HeaderEntry>, name: &String) -> (r: Vec<NifStringPattern>)
    ensures
        views(r@) == all_named(named_patterns(views(headers@)), name@),
{
    let ghost all = named_patterns(views(headers@));
    let mut out: Vec<NifStringPattern> = Vec::new();
    let mut i: usize = 0;
    assert(all.take(0) =~= Seq::empty());
    assert(views(out@) =~= Seq::empty());
    while i < headers.len()
        invariant
            i <= headers.len(),
            all == named_patterns(views(headers@)),
            views(out@) == all_named(all.take(i as int), name@),
        decreases headers.len() - i,
    {
        let ghost before = views(out@);
        assert(all.take(i + 1).drop_last() =~= all.take(i as int));
        assert(all.take(i + 1).last() == (headers@[i as int].name@, headers@[i as int].value@));
        if headers[i].name == *name {
            out.push(headers[i].value.clone());
            assert(views(out@) =~= before.push(headers@[i as int].value@));
        }
        i += 1;
    }
    assert(all.take(i as int) =~= all);
    out
}

/// The values of the query parameter `key`, in the order they were added.
pub fn query_values(query: &Vec<QueryParam>, key: &String) -> (r: Vec<String>)
    ensures
        views(r@) == all_named(views(query@), key@),
{
    let ghost all = views(query@);
    let mut out: Vec<String> = Vec::new();
    let mut i: usize = 0;
    assert(all.take(0) =~= Seq::empty());
    assert(views(out@) =~= Seq::empty());
    while i < query.len()
        invariant
            i <= query.len(),
            all == views(query@),
            views(out@) == all_named(all.take(i as int), key@),
        decreases query.len() - i,
    {
        let ghost before = views(out@);
        assert(all.take(i + 1).drop_last() =~= all.take(i as int));
        assert(all.take(i + 1).last() == query@[i as int]@);
        if query[i].key == *key {
            out.push(query[i].value.clone());
            assert(views(out@) =~= before.push(query@[i as int].value@));
        }
        i += 1;
    }
    assert(all.take(i as int) =~= all);
    out
}

/// An HTTP request in the extended representation.
#[derive(Debug)]
pub struct NifHttpRequest {
    pub method: String,
    pub path: NifStringPattern,
    /// Where the provider fills the path in from its state, the expression
    /// that says how.
    pub path_expression: Option<String>,
    /// The query parameters, in the order they were added.
    pub query: Vec<QueryParam>,
    /// The headers, in the order they were added.
    pub headers: Vec<HeaderEntry>,
    pub body: Body,
}

/// What a request stands for.
pub ghost struct HttpRequestModel {
    pub method: Seq<char>,
    pub path: PatternModel,
    pub path_expression: Option<Seq<char>>,
    pub query: Seq<(Seq<char>, Seq<char>)>,
    pub headers: Seq<HeaderModel>,
    pub body: BodyModel,
}

impl View for NifHttpRequest {
    type V = HttpRequestModel;

    open spec fn view(&self) -> HttpRequestModel {
        HttpRequestModel {
            method: self.method@,
            path: self.path@,
            path_expression: text_of(self.path_expression),
            query: views(self.query@),
            headers: views(self.headers@),
            body: self.body@,
        }
    }
}

impl Clone for NifHttpRequest {
    /// A copy that stands for the same request.
    fn clone(&self) -> (r: NifHttpRequest)
        ensures
            r@ == self@,
    {
        let query = self.query.clone();
        let headers = self.headers.clone();
        assert(views(query@) =~= views(self.query@));
        assert(views(headers@) =~= views(self.headers@));
        NifHttpRequest {
            method: self.method.clone(),
            path: self.path.clone(),
            path_expression: self.path_expression.clone(),
            query,
            headers,
            body: self.body.clone(),
        }
    }
}

/// An HTTP response in the extended representation.
#[derive(Debug)]
pub struct NifHttpResponse {
    pub status: u16,
    /// The headers, in the order they were added.
    pub headers: Vec<HeaderEntry>,
    pub body: Body,
}

/// What a response stands for.
pub ghost struct HttpResponseModel {
    pub status: u16,
    pub headers: Seq<HeaderModel>,
    pub body: BodyModel,
}

impl View for NifHttpResponse {
    type V = HttpResponseModel;

    open spec fn view(&self) -> HttpResponseModel {
        HttpResponseModel { status: self.status, headers: views(self.headers@), body: self.body@ }
    }
}

impl Clone for NifHttpResponse {
    /// A copy that stands for the same response.
    fn clone(&self) -> (r: NifHttpResponse)
        ensures
            r@ == self@,
    {
        let headers = self.headers.clone();
        assert(views(headers@) =~= views(self.headers@));
        NifHttpResponse { status: self.status, headers, body: self.body.clone() }
    }
}

} // verus!
