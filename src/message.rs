use vstd::prelude::*;

verus! {

/// The content of a request or a response.
#[derive(Debug, PartialEq, Eq)]
pub enum Body {
    Empty,
    Text(String),
    Binary(Vec<u8>),
}

/// What a `Body` holds.
pub enum BodyView {
    Empty,
    Text(Seq<char>),
    Binary(Seq<u8>),
}

impl View for Body {
    type V = BodyView;

    open spec fn view(&self) -> BodyView {
        match self {
            Body::Empty => BodyView::Empty,
            Body::Text(s) => BodyView::Text(s@),
            Body::Binary(b) => BodyView::Binary(b@),
        }
    }
}

impl Clone for Body {
    fn clone(&self) -> (r: Self)
        ensures
            r@ == self@,
    {
        match self {
            Body::Empty => Body::Empty,
            Body::Text(s) => Body::Text(s.clone()),
            Body::Binary(b) => {
                let c = b.clone();
                assert(c@ =~= b@);
                Body::Binary(c)
            },
        }
    }
}

impl Default for Body {
    fn default() -> (r: Self)
        ensures
            r@ == BodyView::Empty,
    {
        Body::Empty
    }
}

/// One header: a name and its value.
#[derive(Debug)]
pub struct HeaderField {
    pub name: String,
    pub value: String,
}

impl Clone for HeaderField {
    fn clone(&self) -> (r: Self)
        ensures
            r == *self,
    {
        HeaderField { name: self.name.clone(), value: self.value.clone() }
    }
}

/// No two fields of `fields` share a name.
pub open spec fn names_unique(fields: Seq<HeaderField>) -> bool {
    forall|i: int, j: int|
        0 <= i < j < fields.len() ==> #[trigger] fields[i].name@ != #[trigger] fields[j].name@
}

/// The headers held by `fields`, as a map from name to value.
pub open spec fn fields_map(fields: Seq<HeaderField>) -> Map<Seq<char>, Seq<char>>
    decreases fields.len(),
{
    if fields.len() == 0 {
        Map::empty()
    } else {
        fields_map(fields.drop_last()).insert(fields.last().name@, fields.last().value@)
    }
}

/// With unique names, the map holds exactly the names of the fields, each with
/// the value of its field.
pub proof fn lemma_fields_map(fields: Seq<HeaderField>)
    requires
        names_unique(fields),
    ensures
        forall|i: int|
            0 <= i < fields.len() ==> #[trigger] fields_map(fields).contains_key(fields[i].name@)
                && fields_map(fields)[fields[i].name@] == fields[i].value@,
        forall|n: Seq<char>|
            #[trigger] fields_map(fields).contains_key(n) ==> exists|i: int|
                0 <= i < fields.len() && fields[i].name@ == n,
    decreases fields.len(),
{
    if fields.len() > 0 {
        let init = fields.drop_last();
        assert(names_unique(init));
        lemma_fields_map(init);
        assert(fields_map(fields) == fields_map(init).insert(fields.last().name@, fields.last().value@));
        assert forall|n: Seq<char>| #[trigger] fields_map(fields).contains_key(n) implies exists|i: int|
            0 <= i < fields.len() && fields[i].name@ == n by {
            if n != fields.last().name@ {
                let i = choose|i: int| 0 <= i < init.len() && init[i].name@ == n;
                assert(fields[i] == init[i]);
            }
        }
        assert forall|i: int| 0 <= i < fields.len() implies #[trigger] fields_map(fields).contains_key(
            fields[i].name@,
        ) && fields_map(fields)[fields[i].name@] == fields[i].value@ by {
            if i < fields.len() - 1 {
                assert(fields[i] == init[i]);
                assert(fields[i].name@ != fields[fields.len() - 1].name@);
            }
        }
    }
}

/// An incoming request.
#[derive(Debug)]
pub struct Request {
    pub method: String,
    pub uri: String,
    pub headers: Vec<HeaderField>,
    pub body: Body,
}

impl Default for Request {
    /// A `GET` of `/` with no headers and an empty body.
    fn default() -> (r: Self)
        ensures
            r.method@ == "GET"@,
            r.uri@ == "/"@,
            r.headers@.len() == 0,
            r.body@ == BodyView::Empty,
    {
        Request { method: String::from_str("GET"), uri: String::from_str("/"), headers: Vec::new(), body: Body::Empty }
    }
}

/// Per-invocation metadata handed to every handler; the chain only passes it on.
#[derive(Debug)]
pub struct Context {
    pub request_id: String,
    pub deadline_ms: i64,
}

impl Default for Context {
    fn default() -> (r: Self)
        ensures
            r.request_id@.len() == 0,
            r.deadline_ms == 0,
    {
        Context { request_id: String::new(), deadline_ms: 0 }
    }
}

/// A response produced by a handler.
#[derive(Debug)]
pub struct Response {
    pub status: u16,
    pub headers: Vec<HeaderField>,
    pub body: Body,
}

/// What a `Response` holds: its status, its headers by name, and its body.
pub struct ResponseView {
    pub status: u16,
    pub headers: Map<Seq<char>, Seq<char>>,
    pub body: BodyView,
}

impl View for Response {
    type V = ResponseView;

    open spec fn view(&self) -> ResponseView {
        ResponseView { status: self.status, headers: fields_map(self.headers@), body: self.body@ }
    }
}

/// A status code that HTTP accepts: from 100 to 599.
pub open spec fn valid_status(code: u16) -> bool {
    100 <= code <= 599
}

/// The response that a handler gives by default: status 200, no headers, no body.
pub open spec fn default_response() -> ResponseView {
    ResponseView { status: 200, headers: Map::empty(), body: BodyView::Empty }
}

/// A header value can be sent exactly when each of its UTF-8 bytes is a tab or
/// at least 32 and other than 127. Every byte of a character above 127 is
/// at least 128, so the condition reads the same on characters.
pub open spec fn encodable_header_value(value: Seq<char>) -> bool {
    forall|i: int|
        0 <= i < value.len() ==> {
            let c = #[trigger] value[i] as u32;
            (c >= 32 && c != 127) || c == 9
        }
}

/// Relies on `http::HeaderValue::from_str`, which accepts a value exactly when
/// every byte of it is a tab or at least 32 and not 127.
#[verifier::external_body]
fn header_value_encodable(value: &str) -> (r: bool)
    ensures
        r == encodable_header_value(value@),
{
    lambda_http::http::HeaderValue::from_str(value).is_ok()
}

impl Response {
    /// The status is a valid HTTP status code and the headers are held once
    /// per name.
    pub open spec fn wf(&self) -> bool {
        &&& valid_status(self.status)
        &&& names_unique(self.headers@)
    }

    /// Whether the status is valid and no two headers of the response share a
    /// name.
    pub fn is_well_formed(&self) -> (r: bool)
        ensures
            r == self.wf(),
    {
        if self.status < 100 || self.status > 599 {
            return false;
        }
        let n = self.headers.len();
        let mut i: usize = 0;
        while i < n
            invariant
                i <= n,
                n == self.headers@.len(),
                forall|a: int, b: int|
                    0 <= a < b < n && a < i ==> #[trigger] self.headers@[a].name@ != #[trigger] self.headers@[b].name@,
            decreases n - i,
        {
            let mut j: usize = i + 1;
            while j < n
                invariant
                    i < n,
                    i + 1 <= j <= n,
                    n == self.headers@.len(),
                    forall|a: int, b: int|
                        0 <= a < b < n && a < i ==> #[trigger] self.headers@[a].name@ != #[trigger] self.headers@[b].name@,
                    forall|b: int| i < b < j ==> self.headers@[i as int].name@ != #[trigger] self.headers@[b].name@,
                decreases n - j,
            {
                if self.headers[i].name == self.headers[j].name {
                    assert(self.headers@[i as int].name@ == self.headers@[j as int].name@);
                    return false;
                }
                j += 1;
            }
            i += 1;
        }
        true
    }

    /// A response with the given status and body and no headers.
    pub fn new(status: u16, body: Body) -> (r: Response)
        requires
            valid_status(status),
        ensures
            r.wf(),
            r@ == (ResponseView { status, headers: Map::empty(), body: body@ }),
    {
        Response { status, headers: Vec::new(), body }
    }

    /// A copy of the response.
    pub fn duplicate(&self) -> (r: Response)
        requires
            self.wf(),
        ensures
            r.wf(),
            r@ == self@,
    {
        let headers = self.headers.clone();
        assert(headers@ =~= self.headers@);
        Response { status: self.status, headers, body: self.body.clone() }
    }

    /// The value of the header `name`, if the response has one.
    pub fn header(&self, name: &str) -> (r: Option<String>)
        requires
            self.wf(),
        ensures
            r.is_some() == self@.headers.contains_key(name@),
            r.is_some() ==> r.unwrap()@ == self@.headers[name@],
    {
        proof {
            lemma_fields_map(self.headers@);
        }
        let wanted = String::from_str(name);
        let mut i: usize = 0;
        while i < self.headers.len()
            invariant
                i <= self.headers@.len(),
                wanted@ == name@,
                self.wf(),
                forall|j: int| 0 <= j < i ==> self.headers@[j].name@ != name@,
            decreases self.headers@.len() - i,
        {
            if self.headers[i].name == wanted {
                proof {
                    lemma_fields_map(self.headers@);
                }
                assert(fields_map(self.headers@).contains_key(self.headers@[i as int].name@));
                return Some(self.headers[i].value.clone());
            }
            i += 1;
        }
        None
    }

    /// Sets the header `name` to `value`, replacing any value it had.
    pub fn insert_header(&mut self, name: String, value: String)
        requires
            old(self).wf(),
        ensures
            final(self).wf(),
            final(self)@ == (ResponseView {
                headers: old(self)@.headers.insert(name@, value@),
                ..old(self)@
            }),
    {
        proof {
            lemma_fields_map(self.headers@);
        }
        let mut i: usize = 0;
        while i < self.headers.len()
            invariant
                i <= self.headers@.len(),
                self.wf(),
                self.headers@ == old(self).headers@,
                self.status == old(self).status,
                self.body == old(self).body,
                forall|j: int| 0 <= j < i ==> self.headers@[j].name@ != name@,
            decreases self.headers@.len() - i,
        {
            if self.headers[i].name == name {
                let ghost before = self.headers@;
                let ghost expected = fields_map(before).insert(name@, value@);
                self.headers.set(i, HeaderField { name, value });
                proof {
                    lemma_fields_map(before);
                    let after = self.headers@;
                    assert(names_unique(after)) by {
                        assert forall|a: int, b: int| 0 <= a < b < after.len() implies #[trigger] after[a].name@
                            != #[trigger] after[b].name@ by {
                            assert(before[a].name@ != before[b].name@);
                        }
                    }
                    lemma_fields_map(after);
                    assert forall|n: Seq<char>| #[trigger] fields_map(after).contains_key(n) <==> expected.contains_key(n) by {
                        if fields_map(after).contains_key(n) {
                            let j = choose|j: int| 0 <= j < after.len() && after[j].name@ == n;
                            if j != i {
                                assert(after[j] == before[j]);
                                assert(fields_map(before).contains_key(before[j].name@));
                            }
                        }
                        if expected.contains_key(n) {
                            if n == name@ {
                                assert(fields_map(after).contains_key(after[i as int].name@));
                            } else {
                                assert(fields_map(before).contains_key(n));
                                let j = choose|j: int| 0 <= j < before.len() && before[j].name@ == n;
                                assert(after[j] == before[j]);
                                assert(fields_map(after).contains_key(after[j].name@));
                            }
                        }
                    }
                    assert forall|n: Seq<char>| #[trigger] fields_map(after).contains_key(n) implies fields_map(after)[n]
                        == expected[n] by {
                        let j = choose|j: int| 0 <= j < after.len() && after[j].name@ == n;
                        if j != i {
                            assert(after[j] == before[j]);
                            assert(fields_map(before).contains_key(before[j].name@));
                        }
                    }
                    assert(fields_map(after) =~= expected);
                }
                return;
            }
            i += 1;
        }
        let ghost before = self.headers@;
        let ghost field_name = name@;
        let ghost field_value = value@;
        self.headers.push(HeaderField { name, value });
        assert(self.headers@.drop_last() =~= before);
        assert(names_unique(self.headers@)) by {
            assert forall|a: int, b: int| 0 <= a < b < self.headers@.len() implies #[trigger] self.headers@[a].name@
                != #[trigger] self.headers@[b].name@ by {
                if b < before.len() {
                    assert(before[a].name@ != before[b].name@);
                } else {
                    assert(before[a].name@ != field_name);
                }
            }
        }
        assert(fields_map(self.headers@) == fields_map(before).insert(field_name, field_value));
    }
}

impl Default for Response {
    fn default() -> (r: Self)
        ensures
            r.wf(),
            r@ == default_response(),
    {
        Response { status: 200, headers: Vec::new(), body: Body::Empty }
    }
}

/// Sets the header `name` to `value` on `response`, unless the value cannot be
/// sent as a header, in which case the response is left as it was.
pub fn set_header_if_encodable(response: &mut Response, name: &str, value: &str)
    requires
        old(response).wf(),
    ensures
        final(response).wf(),
        final(response)@ == if encodable_header_value(value@) {
            ResponseView { headers: old(response)@.headers.insert(name@, value@), ..old(response)@ }
        } else {
            old(response)@
        },
{
    if header_value_encodable(value) {
        response.insert_header(String::from_str(name), String::from_str(value));
    }
}

} // verus!
