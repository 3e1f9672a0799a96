//! Resources: what a request must look like to reach one, and what it answers.

use crate::error::ConfigError;
use crate::http::{Method, Status};
use crate::matcher::{capture, is_match, regex_capture, regex_is_match, regex_valid};
use crate::params::{lemma_key_index_is, lookup, put, ParamMap};
use crate::stream::{kept, lemma_kept_all_or_none, lemma_kept_len, Broadcaster};
use crate::text::{
    append_decimal, append_str, decimal, from_chars, replace_all, replaced, str_equal, to_chars,
};
use crate::uri::{
    create_uri_regex, extract_query_params, lemma_single_parameter, texts, uri_path_names,
    uri_pattern, uri_query,
};
use std::sync::mpsc::{Receiver, Sender};
use std::time::Duration;
use vstd::prelude::*;

verus! {

/// The parameters of one request: what its path holds in the place of each
/// path parameter, and the parameters of its query.
#[derive(Debug)]
pub struct RequestParameters {
    pub path: ParamMap,
    pub query: ParamMap,
}

/// Whether the value `actual` of a request's query parameter meets the
/// `expected` one: a parameter that is absent meets nothing, `*` is met by any
/// value, and any other text only by itself.
pub open spec fn accepts(expected: Seq<char>, actual: Option<Seq<char>>) -> bool {
    match actual {
        Some(value) => expected == value || expected == "*"@,
        None => false,
    }
}

/// Whether the query parameters `actual` of a request meet every one of the
/// `expected` ones.
pub open spec fn query_satisfied(
    expected: Seq<(Seq<char>, Seq<char>)>,
    actual: Seq<(Seq<char>, Seq<char>)>,
) -> bool {
    forall|i: int| 0 <= i < expected.len() ==> accepts(#[trigger] expected[i].1, lookup(actual, expected[i].0))
}

/// The path parameters that `pattern` finds in `uri` for `names[..upto]`: each
/// name with what its group holds, but for the names whose group holds
/// nothing.
pub open spec fn captured(
    pattern: Seq<char>,
    uri: Seq<char>,
    names: Seq<Seq<char>>,
    upto: int,
) -> Seq<(Seq<char>, Seq<char>)>
    decreases upto,
{
    if upto <= 0 || upto > names.len() {
        Seq::empty()
    } else {
        let before = captured(pattern, uri, names, upto - 1);
        match regex_capture(pattern, uri, names[upto - 1]) {
            Some(value) => put(before, names[upto - 1], value),
            None => before,
        }
    }
}

/// How a parameter is written in a body template: `{path.id}` for the path
/// parameter `id`, `{query.id}` for the query parameter.
pub open spec fn template_key(kind: Seq<char>, name: Seq<char>) -> Seq<char> {
    "{"@ + kind + "."@ + name + "}"@
}

/// `text` after the parameters `params[..upto]` are filled in, one after the
/// other: every occurrence of a parameter's key gives way to its value.
pub open spec fn filled(
    text: Seq<char>,
    kind: Seq<char>,
    params: Seq<(Seq<char>, Seq<char>)>,
    upto: int,
) -> Seq<char>
    decreases upto,
{
    if upto <= 0 || upto > params.len() {
        text
    } else {
        replaced(
            filled(text, kind, params, upto - 1),
            template_key(kind, params[upto - 1].0),
            params[upto - 1].1,
        )
    }
}

/// The header lines for `headers[..upto]`: `Name: Value` and a line break for
/// each.
pub open spec fn header_lines(headers: Seq<(Seq<char>, Seq<char>)>, upto: int) -> Seq<char>
    decreases upto,
{
    if upto <= 0 || upto > headers.len() {
        Seq::empty()
    } else {
        header_lines(headers, upto - 1) + headers[upto - 1].0 + ": "@ + headers[upto - 1].1
            + "\r\n"@
    }
}

/// The text of a response: the status line, the header lines, an empty line
/// and the body, with nothing after it.
pub open spec fn response_text(
    status_line: Seq<char>,
    headers: Seq<(Seq<char>, Seq<char>)>,
    body: Seq<char>,
) -> Seq<char> {
    "HTTP/1.1 "@ + status_line + "\r\n"@ + header_lines(headers, headers.len() as int) + "\r\n"@
        + body
}

/// What a resource is, as contracts see it.
pub struct ResourceView<F> {
    /// The URI declaration the resource was created with.
    pub uri: Seq<char>,
    /// The pattern that the declaration compiled to.
    pub pattern: Seq<char>,
    /// The names of the path parameters, in the order of the declaration.
    pub path_names: Seq<Seq<char>>,
    /// The values expected of query parameters.
    pub query: Seq<(Seq<char>, Seq<char>)>,
    /// The named status.
    pub status: Status,
    /// The custom status line, which goes before the named status.
    pub custom_status: Option<Seq<char>>,
    /// The response headers.
    pub headers: Seq<(Seq<char>, Seq<char>)>,
    /// The literal body, a template.
    pub body: Option<Seq<char>>,
    /// The body generator.
    pub body_fn: Option<F>,
    /// The method the resource answers to.
    pub method: Method,
    /// How long the response is held back.
    pub delay: Option<Duration>,
    /// How many requests were routed to the resource.
    pub request_count: nat,
    /// Whether connections stay open after the response.
    pub is_stream: bool,
    /// The channels of the open connections.
    pub listeners: Seq<Sender<String>>,
}

impl<F> ResourceView<F> {
    /// The resource as it is created for a URI declaration: it answers `GET`
    /// with `200 Ok`, no headers and an empty body, at once, has seen no
    /// request, and does not stream.
    pub open spec fn fresh(uri: Seq<char>) -> Self {
        ResourceView {
            uri: uri,
            pattern: uri_pattern(uri),
            path_names: uri_path_names(uri),
            query: uri_query(uri),
            status: Status::OK,
            custom_status: None,
            headers: Seq::empty(),
            body: None,
            body_fn: None,
            method: Method::GET,
            delay: None,
            request_count: 0,
            is_stream: false,
            listeners: Seq::empty(),
        }
    }

    /// The resource after a named status was set: the custom status is gone.
    pub open spec fn with_status(self, status: Status) -> Self {
        ResourceView { status: status, custom_status: None, ..self }
    }

    /// The resource after a custom status was set: the status line is the
    /// code in decimal, a space, and the description.
    pub open spec fn with_custom_status(self, code: u16, description: Seq<char>) -> Self {
        ResourceView {
            custom_status: Some(decimal(code as nat) + " "@ + description),
            ..self
        }
    }

    /// The resource after a header was set.
    pub open spec fn with_header(self, name: Seq<char>, value: Seq<char>) -> Self {
        ResourceView { headers: put(self.headers, name, value), ..self }
    }

    /// The resource after a value was set that it expects of a query
    /// parameter.
    pub open spec fn with_query(self, name: Seq<char>, value: Seq<char>) -> Self {
        ResourceView { query: put(self.query, name, value), ..self }
    }

    /// The resource after a literal body was set.
    pub open spec fn with_body(self, content: Seq<char>) -> Self {
        ResourceView { body: Some(content), ..self }
    }

    /// The resource after a body generator was set.
    pub open spec fn with_body_fn(self, builder: F) -> Self {
        ResourceView { body_fn: Some(builder), ..self }
    }

    /// The resource after its method was set.
    pub open spec fn with_method(self, method: Method) -> Self {
        ResourceView { method: method, ..self }
    }

    /// The resource after a delay was set.
    pub open spec fn with_delay(self, delay: Duration) -> Self {
        ResourceView { delay: Some(delay), ..self }
    }

    /// The resource after it was made a stream.
    pub open spec fn streaming(self) -> Self {
        ResourceView { is_stream: true, ..self }
    }

    /// The resource after its open connections were closed.
    pub open spec fn disconnected(self) -> Self {
        ResourceView { listeners: Seq::empty(), ..self }
    }

    /// What the status line says after the protocol version: the custom
    /// status if there is one, else the named status.
    pub open spec fn status_line(self) -> Seq<char> {
        match self.custom_status {
            Some(line) => line,
            None => self.status.line(),
        }
    }

    /// Whether a request target reaches the resource, whatever the method:
    /// the pattern matches it, and its query meets what the resource expects.
    pub open spec fn matches_uri(self, uri: Seq<char>) -> bool {
        regex_is_match(self.pattern, uri) && query_satisfied(self.query, uri_query(uri))
    }

    /// Whether a request reaches the resource.
    pub open spec fn matches_request(self, method: Seq<char>, uri: Seq<char>) -> bool {
        self.matches_uri(uri) && self.method.name() == method
    }

    /// The path parameters of a request.
    pub open spec fn path_params(self, uri: Seq<char>) -> Seq<(Seq<char>, Seq<char>)> {
        captured(self.pattern, uri, self.path_names, self.path_names.len() as int)
    }

    /// The body that the template gives for a request: the path parameters
    /// are filled in first, then the query parameters. A resource without a
    /// template has the empty body.
    pub open spec fn template_body(self, uri: Seq<char>) -> Seq<char> {
        match self.body {
            Some(template) => {
                let path = self.path_params(uri);
                let query = uri_query(uri);
                filled(
                    filled(template, "path"@, path, path.len() as int),
                    "query"@,
                    query,
                    query.len() as int,
                )
            },
            None => Seq::empty(),
        }
    }

    /// The response with the given body.
    pub open spec fn response(self, body: Seq<char>) -> Seq<char> {
        response_text(self.status_line(), self.headers, body)
    }

    /// The resource after something was sent to its open connections, where
    /// `delivered` says of each whether it took the message: those that did
    /// not are forgotten.
    pub open spec fn after_send(self, delivered: Seq<bool>) -> Self {
        ResourceView {
            listeners: kept(self.listeners, delivered, self.listeners.len() as int),
            ..self
        }
    }

    /// The resource after one more request was routed to it. The count stops
    /// at the largest number it can hold.
    pub open spec fn counted(self) -> Self {
        ResourceView {
            request_count: if self.request_count < u32::MAX {
                self.request_count + 1
            } else {
                self.request_count
            },
            ..self
        }
    }
}

impl<F: Fn(RequestParameters) -> String> ResourceView<F> {
    /// Whether `body` can be the body for a request. A generator decides by
    /// what it ensures of the parameters of the request; without one, the body
    /// is what the template gives.
    pub open spec fn writes_body(self, uri: Seq<char>, body: Seq<char>) -> bool {
        match self.body_fn {
            Some(f) => exists|p: RequestParameters, text: String|
                {
                    &&& p.path@ == self.path_params(uri)
                    &&& p.query@ == uri_query(uri)
                    &&& #[trigger] call_ensures(f, (p,), text)
                    &&& text@ == body
                },
            None => body == self.template_body(uri),
        }
    }

    /// Whether `text` can be the response to a request.
    pub open spec fn answers(self, uri: Seq<char>, text: Seq<char>) -> bool {
        exists|body: Seq<char>|
            #[trigger] self.writes_body(uri, body) && text == self.response(body)
    }
}

/// A resource that was just created answers every request with `200 Ok`, no
/// headers and an empty body.
pub proof fn lemma_fresh_resource_answers_ok<F: Fn(RequestParameters) -> String>(
    declaration: Seq<char>,
    uri: Seq<char>,
    text: Seq<char>,
)
    requires
        ResourceView::<F>::fresh(declaration).answers(uri, text),
    ensures
        text == "HTTP/1.1 200 Ok\r\n\r\n"@,
{
    reveal_strlit("HTTP/1.1 200 Ok\r\n\r\n");
    reveal_strlit("HTTP/1.1 ");
    reveal_strlit("200 Ok");
    reveal_strlit("\r\n");
    let resource = ResourceView::<F>::fresh(declaration);
    let body = choose|body: Seq<char>| #[trigger]
        resource.writes_body(uri, body) && text == resource.response(body);
    assert(body =~= Seq::<char>::empty());
    assert(text =~= "HTTP/1.1 200 Ok\r\n\r\n"@);
}

/// A custom status goes before the named status, until a named status is set
/// again: from then on the named status is what the status line says.
pub proof fn lemma_named_status_replaces_custom<F>(
    resource: ResourceView<F>,
    code: u16,
    description: Seq<char>,
    status: Status,
)
    ensures
        resource.with_custom_status(code, description).status_line() == decimal(code as nat) + " "@
            + description,
        resource.with_custom_status(code, description).with_status(status).status_line()
            == status.line(),
        resource.with_status(status).with_custom_status(code, description).status_line()
            == decimal(code as nat) + " "@ + description,
{
}

/// A query parameter that is expected as `*` is met by a request that has the
/// parameter, whatever its value, and by no request that lacks it: such a
/// request meets nothing that expects the parameter.
pub proof fn lemma_wildcard_query(
    expected: Seq<(Seq<char>, Seq<char>)>,
    actual: Seq<(Seq<char>, Seq<char>)>,
    i: int,
)
    requires
        0 <= i < expected.len(),
    ensures
        expected[i].1 == "*"@ ==> (accepts(expected[i].1, lookup(actual, expected[i].0)) <==> lookup(
            actual,
            expected[i].0,
        ) is Some),
        lookup(actual, expected[i].0) is None ==> !query_satisfied(expected, actual),
{
    if lookup(actual, expected[i].0) is None {
        assert(!accepts(expected[i].1, lookup(actual, expected[i].0)));
    }
}

/// A resource never matches a request that lacks a query parameter of which
/// it expects something.
pub proof fn lemma_missing_query_parameter<F>(resource: ResourceView<F>, uri: Seq<char>, i: int)
    requires
        0 <= i < resource.query.len(),
        lookup(uri_query(uri), resource.query[i].0) is None,
    ensures
        !resource.matches_uri(uri),
{
    lemma_wildcard_query(resource.query, uri_query(uri), i);
}

/// A resource that expects one query parameter, as `*`, is reached by every
/// request `path?name=value` that its pattern matches, whatever the value.
pub proof fn lemma_wildcard_accepts_any_value<F>(
    resource: ResourceView<F>,
    path: Seq<char>,
    name: Seq<char>,
    value: Seq<char>,
)
    requires
        resource.query == seq![(name, "*"@)],
        forall|i: int| 0 <= i < path.len() ==> path[i] != '?',
        name.len() > 0,
        forall|i: int| 0 <= i < name.len() ==> name[i] != '&',
        value.len() > 0,
        forall|i: int| 0 <= i < value.len() ==> value[i] != '&' && value[i] != '=',
    ensures
        resource.matches_uri(path + seq!['?'] + name + seq!['='] + value) == regex_is_match(
            resource.pattern,
            path + seq!['?'] + name + seq!['='] + value,
        ),
{
    let uri = path + seq!['?'] + name + seq!['='] + value;
    lemma_single_parameter(path, name, value);
    lemma_key_index_is(uri_query(uri), name, 0);
    assert(lookup(uri_query(uri), name) == Some(value));
    assert(accepts(resource.query[0].1, lookup(uri_query(uri), resource.query[0].0)));
}

/// Sending drops no connection that took the message: where all of them did,
/// all stay open. Closing the connections leaves none open.
pub proof fn lemma_open_connections<F>(resource: ResourceView<F>, delivered: Seq<bool>)
    requires
        delivered.len() == resource.listeners.len(),
    ensures
        (forall|i: int| 0 <= i < delivered.len() ==> delivered[i]) ==> resource.after_send(
            delivered,
        ) == resource,
        resource.after_send(delivered).listeners.len() <= resource.listeners.len(),
        resource.disconnected().listeners.len() == 0,
{
    let count = resource.listeners.len() as int;
    lemma_kept_all_or_none(resource.listeners, delivered, count);
    lemma_kept_len(resource.listeners, delivered, count);
    assert(resource.listeners.take(count) =~= resource.listeners);
}

/// A resource: a URI declaration with the method it answers to, the response
/// it gives, and what it has seen so far.
///
/// `F` is the type of its body generator.
pub struct Resource<F: Fn(RequestParameters) -> String> {
    uri: String,
    pattern: String,
    path_names: Vec<String>,
    query: ParamMap,
    status_code: Status,
    custom_status_code: Option<String>,
    headers: ParamMap,
    body: Option<String>,
    body_builder: Option<F>,
    method: Method,
    delay: Option<Duration>,
    request_count: u32,
    is_stream: bool,
    stream_listeners: Broadcaster,
}

impl<F: Fn(RequestParameters) -> String> View for Resource<F> {
    type V = ResourceView<F>;

    closed spec fn view(&self) -> ResourceView<F> {
        ResourceView {
            uri: self.uri@,
            pattern: self.pattern@,
            path_names: texts(self.path_names@),
            query: self.query@,
            status: self.status_code,
            custom_status: match self.custom_status_code {
                Some(line) => Some(line@),
                None => None,
            },
            headers: self.headers@,
            body: match self.body {
                Some(text) => Some(text@),
                None => None,
            },
            body_fn: self.body_builder,
            method: self.method,
            delay: self.delay,
            request_count: self.request_count as nat,
            is_stream: self.is_stream,
            listeners: self.stream_listeners@,
        }
    }
}

/// What holds of every resource: its pattern is the one its declaration
/// compiles to, and the engine accepts it; it never has both a literal body
/// and a generator; and its generator takes any parameters.
pub open spec fn well_formed<F: Fn(RequestParameters) -> String>(r: ResourceView<F>) -> bool {
    &&& r.pattern == uri_pattern(r.uri)
    &&& r.path_names == uri_path_names(r.uri)
    &&& regex_valid(r.pattern)
    &&& !(r.body is Some && r.body_fn is Some)
    &&& r.body_fn matches Some(f) ==> forall|p: RequestParameters| call_requires(f, (p,))
}

impl<F: Fn(RequestParameters) -> String> Resource<F> {
    #[verifier::type_invariant]
    spec fn valid(self) -> bool {
        well_formed(self@)
    }

    /// A resource for the given URI declaration. It answers `GET` with
    /// `200 Ok`, no headers and an empty body, at once, and does not stream.
    /// The declaration is refused when its pattern does not compile.
    pub fn new(uri: &str) -> (r: Result<Resource<F>, ConfigError>)
        ensures
            match r {
                Ok(resource) => {
                    &&& regex_valid(uri_pattern(uri@))
                    &&& well_formed(resource@)
                    &&& resource@ == ResourceView::<F>::fresh(uri@)
                },
                Err(e) => e == ConfigError::MalformedPattern && !regex_valid(uri_pattern(uri@)),
            },
    {
        match create_uri_regex(uri) {
            Ok((pattern, params)) => {
                let resource = Resource {
                    uri: String::from_str(uri),
                    pattern,
                    path_names: params.path,
                    query: params.query,
                    status_code: Status::OK,
                    custom_status_code: None,
                    headers: ParamMap::new(),
                    body: None,
                    body_builder: None,
                    method: Method::GET,
                    delay: None,
                    request_count: 0,
                    is_stream: false,
                    stream_listeners: Broadcaster::new(),
                };
                assert(resource@.listeners =~= Seq::empty());
                Ok(resource)
            },
            Err(e) => Err(e),
        }
    }

    /// The URI declaration the resource was created with.
    pub fn uri(&self) -> (r: &str)
        ensures
            r@ == self@.uri,
    {
        self.uri.as_str()
    }

    /// Sets the named status of the response, and clears the custom status.
    pub fn status(&mut self, status_code: Status) -> (r: &mut Self)
        ensures
            *final(self) == *final(r),
            r@ == old(self)@.with_status(status_code),
    {
        proof {
            use_type_invariant(&*self);
        }
        self.status_code = status_code;
        self.custom_status_code = None;
        self
    }

    /// What the status line says after the protocol version.
    pub fn get_status_description(&self) -> (r: String)
        ensures
            r@ == self@.status_line(),
    {
        match &self.custom_status_code {
            Some(custom_status) => custom_status.clone(),
            None => String::from_str(self.status_code.description()),
        }
    }

    /// Sets a custom status line, for a status that has no name: the code in
    /// decimal, a space, and the description. It goes before the named
    /// status until a named status is set again.
    pub fn custom_status(&mut self, status_code: u16, description: &str) -> (r: &mut Self)
        ensures
            *final(self) == *final(r),
            r@ == old(self)@.with_custom_status(status_code, description@),
    {
        proof {
            use_type_invariant(&*self);
        }
        let mut line: Vec<char> = Vec::new();
        append_decimal(&mut line, status_code);
        append_str(&mut line, " ");
        append_str(&mut line, description);
        self.custom_status_code = Some(from_chars(line.as_slice()));
        self
    }

    /// Sets a response header. A header of the same name is replaced.
    pub fn header(&mut self, header_name: &str, header_value: &str) -> (r: &mut Self)
        ensures
            *final(self) == *final(r),
            r@ == old(self)@.with_header(header_name@, header_value@),
    {
        proof {
            use_type_invariant(&*self);
        }
        let mut headers = ParamMap::new();
        core::mem::swap(&mut self.headers, &mut headers);
        headers.insert(header_name, header_value);
        self.headers = headers;
        self
    }

    /// The header lines of the response, in the order in which the headers
    /// were first set.
    pub fn get_headers(&self) -> (r: String)
        ensures
            r@ == header_lines(self@.headers, self@.headers.len() as int),
    {
        let mut lines: Vec<char> = Vec::new();
        let mut i: usize = 0;
        while i < self.headers.len()
            invariant
                i <= self.headers@.len(),
                lines@ == header_lines(self.headers@, i as int),
            decreases self.headers@.len() - i,
        {
            if let Some((name, value)) = self.headers.entry(i) {
                let ghost before = lines@;
                append_str(&mut lines, name.as_str());
                append_str(&mut lines, ": ");
                append_str(&mut lines, value.as_str());
                append_str(&mut lines, "\r\n");
                assert(lines@ =~= before + name@ + ": "@ + value@ + "\r\n"@);
            }
            i += 1;
        }
        from_chars(lines.as_slice())
    }

    /// Expects the query parameter `name` of a request to be `value`, or
    /// to be there with any value where `value` is `*`.
    pub fn query(&mut self, name: &str, value: &str) -> (r: &mut Self)
        ensures
            *final(self) == *final(r),
            r@ == old(self)@.with_query(name@, value@),
    {
        proof {
            use_type_invariant(&*self);
        }
        let mut query = ParamMap::new();
        core::mem::swap(&mut self.query, &mut query);
        query.insert(name, value);
        self.query = query;
        self
    }

    /// Sets the literal body, a template in which `{path.<name>}` and
    /// `{query.<name>}` stand for the parameters of the request. It is
    /// refused, and nothing changes, when the resource has a body generator.
    pub fn body(&mut self, content: &str) -> (r: Result<&mut Self, ConfigError>)
        ensures
            match r {
                Ok(resource) => {
                    &&& old(self)@.body_fn is None
                    &&& *final(self) == *final(resource)
                    &&& resource@ == old(self)@.with_body(content@)
                },
                Err(e) => {
                    &&& old(self)@.body_fn is Some
                    &&& e == ConfigError::BodyFnAlreadyDefined
                    &&& *final(self) == *old(self)
                },
            },
    {
        proof {
            use_type_invariant(&*self);
        }
        if self.body_builder.is_some() {
            return Err(ConfigError::BodyFnAlreadyDefined);
        }
        self.body = Some(String::from_str(content));
        Ok(self)
    }

    /// Sets the body generator: the function that writes the body for the
    /// parameters of each request. It is refused, and nothing changes, when
    /// the resource has a literal body.
    pub fn body_fn(&mut self, builder: F) -> (r: Result<&mut Self, ConfigError>)
        requires
            forall|p: RequestParameters| call_requires(builder, (p,)),
        ensures
            match r {
                Ok(resource) => {
                    &&& old(self)@.body is None
                    &&& *final(self) == *final(resource)
                    &&& resource@ == old(self)@.with_body_fn(builder)
                },
                Err(e) => {
                    &&& old(self)@.body is Some
                    &&& e == ConfigError::BodyAlreadyDefined
                    &&& *final(self) == *old(self)
                },
            },
    {
        proof {
            use_type_invariant(&*self);
        }
        if self.body.is_some() {
            return Err(ConfigError::BodyAlreadyDefined);
        }
        self.body_builder = Some(builder);
        Ok(self)
    }

    /// Sets the method the resource answers to.
    pub fn method(&mut self, method: Method) -> (r: &mut Self)
        ensures
            *final(self) == *final(r),
            r@ == old(self)@.with_method(method),
    {
        proof {
            use_type_invariant(&*self);
        }
        self.method = method;
        self
    }

    /// The method the resource answers to.
    pub fn get_method(&self) -> (r: Method)
        ensures
            r == self@.method,
    {
        self.method
    }

    /// Holds the response back for the given time after a client connected.
    pub fn delay(&mut self, delay: Duration) -> (r: &mut Self)
        ensures
            *final(self) == *final(r),
            r@ == old(self)@.with_delay(delay),
    {
        proof {
            use_type_invariant(&*self);
        }
        self.delay = Some(delay);
        self
    }

    /// How long the response is held back, if at all.
    pub fn get_delay(&self) -> (r: Option<Duration>)
        ensures
            r == self@.delay,
    {
        self.delay
    }

    /// Makes the resource a stream: its connections stay open after the
    /// response, and take what is sent later.
    pub fn stream(&mut self) -> (r: &mut Self)
        ensures
            *final(self) == *final(r),
            r@ == old(self)@.streaming(),
    {
        proof {
            use_type_invariant(&*self);
        }
        self.is_stream = true;
        self
    }

    /// Whether the resource is a stream.
    pub fn is_stream(&self) -> (r: bool)
        ensures
            r == self@.is_stream,
    {
        self.is_stream
    }

    /// How many requests were routed to the resource.
    pub fn request_count(&self) -> (r: u32)
        ensures
            r == self@.request_count,
    {
        self.request_count
    }

    /// Counts one more request.
    pub fn increment_request_count(&mut self)
        ensures
            final(self)@ == old(self)@.counted(),
    {
        proof {
            use_type_invariant(&*self);
        }
        if self.request_count < u32::MAX {
            self.request_count = self.request_count + 1;
        }
    }

    /// Whether the query of a request target meets what the resource expects.
    pub fn matches_query_parameters(&self, uri: &str) -> (r: bool)
        ensures
            r == query_satisfied(self@.query, uri_query(uri@)),
    {
        let query_params = extract_query_params(uri);
        let mut i: usize = 0;
        while i < self.query.len()
            invariant
                i <= self.query@.len(),
                query_params@ == uri_query(uri@),
                forall|j: int|
                    0 <= j < i ==> accepts(
                        #[trigger] self.query@[j].1,
                        lookup(query_params@, self.query@[j].0),
                    ),
            decreases self.query@.len() - i,
        {
            if let Some((expected_key, expected_value)) = self.query.entry(i) {
                match query_params.get(expected_key.as_str()) {
                    Some(value) => {
                        if !str_equal(expected_value.as_str(), value.as_str()) && !str_equal(
                            expected_value.as_str(),
                            "*",
                        ) {
                            assert(!accepts(
                                self.query@[i as int].1,
                                lookup(query_params@, self.query@[i as int].0),
                            ));
                            return false;
                        }
                    },
                    None => {
                        assert(!accepts(
                            self.query@[i as int].1,
                            lookup(query_params@, self.query@[i as int].0),
                        ));
                        return false;
                    },
                }
            }
            i += 1;
        }
        true
    }

    /// Whether a request target reaches the resource, whatever the method.
    pub fn matches_uri(&self, uri: &str) -> (r: bool)
        ensures
            r == self@.matches_uri(uri@),
    {
        is_match(self.pattern.as_str(), uri) && self.matches_query_parameters(uri)
    }

    /// Whether a request reaches the resource: its target does, and its
    /// method is the one the resource answers to.
    pub fn matches_request(&self, method: &str, uri: &str) -> (r: bool)
        ensures
            r == self@.matches_request(method@, uri@),
    {
        self.matches_uri(uri) && self.method.equal(method)
    }

    /// The path parameters of a request: for each name of the declaration,
    /// what the request's path holds in its place.
    pub fn extra_path_params(&self, uri: &str) -> (r: ParamMap)
        ensures
            r@ == self@.path_params(uri@),
    {
        let mut params = ParamMap::new();
        let mut i: usize = 0;
        while i < self.path_names.len()
            invariant
                i <= self.path_names@.len(),
                params@ == captured(self.pattern@, uri@, texts(self.path_names@), i as int),
            decreases self.path_names@.len() - i,
        {
            let name = &self.path_names[i];
            assert(texts(self.path_names@)[i as int] == name@);
            match capture(self.pattern.as_str(), uri, name.as_str()) {
                Some(value) => {
                    params.insert(name.as_str(), value.as_str());
                },
                None => {},
            }
            i += 1;
        }
        params
    }

    /// The parameters of a request.
    pub fn extract_params_from_uri(&self, uri: &str) -> (r: RequestParameters)
        ensures
            r.path@ == self@.path_params(uri@),
            r.query@ == uri_query(uri@),
    {
        RequestParameters { path: self.extra_path_params(uri), query: extract_query_params(uri) }
    }

    /// The body for a request. The generator, where there is one, writes it
    /// from the parameters of the request; else it is the template with the
    /// parameters filled in.
    pub fn create_body(&self, uri: &str) -> (r: String)
        ensures
            self@.writes_body(uri@, r@),
    {
        proof {
            use_type_invariant(self);
        }
        let params = self.extract_params_from_uri(uri);
        if let Some(body_builder) = &self.body_builder {
            return body_builder(params);
        }
        match &self.body {
            Some(template) => fill_template(template.as_str(), &params),
            None => String::new(),
        }
    }

    /// The response with the given body: the status line, the header lines,
    /// an empty line, and the body.
    pub fn response_with(&self, body: &str) -> (r: String)
        ensures
            r@ == self@.response(body@),
    {
        let status = self.get_status_description();
        let headers = self.get_headers();
        let mut text: Vec<char> = Vec::new();
        append_str(&mut text, "HTTP/1.1 ");
        append_str(&mut text, status.as_str());
        append_str(&mut text, "\r\n");
        append_str(&mut text, headers.as_str());
        append_str(&mut text, "\r\n");
        append_str(&mut text, body);
        assert(text@ =~= self@.response(body@));
        from_chars(text.as_slice())
    }

    /// The response to a request.
    pub fn build_response(&self, uri: &str) -> (r: String)
        ensures
            self@.answers(uri@, r@),
    {
        let body = self.create_body(uri);
        self.response_with(body.as_str())
    }

    /// Sends `data` to every open connection. A connection that does not
    /// take it is gone, and is forgotten; the others stay, in their order.
    pub fn send(&mut self, data: &str) -> (r: &mut Self)
        ensures
            *final(self) == *final(r),
            exists|delivered: Seq<bool>|
                delivered.len() == old(self)@.listeners.len() && r@ == #[trigger] old(
                    self,
                )@.after_send(delivered),
            r@.listeners.len() <= old(self)@.listeners.len(),
    {
        proof {
            use_type_invariant(&*self);
        }
        let mut listeners = Broadcaster::new();
        core::mem::swap(&mut self.stream_listeners, &mut listeners);
        let delivered = listeners.send(data);
        self.stream_listeners = listeners;
        assert(self@ == old(self)@.after_send(delivered@));
        self
    }

    /// Sends `data` and a line feed to every open connection.
    pub fn send_line(&mut self, data: &str) -> (r: &mut Self)
        ensures
            *final(self) == *final(r),
            exists|delivered: Seq<bool>|
                delivered.len() == old(self)@.listeners.len() && r@ == #[trigger] old(
                    self,
                )@.after_send(delivered),
            r@.listeners.len() <= old(self)@.listeners.len(),
    {
        let line = line_of(data);
        self.send(line.as_str())
    }

    /// Closes every open connection.
    pub fn close_open_connections(&mut self)
        ensures
            final(self)@ == old(self)@.disconnected(),
    {
        proof {
            use_type_invariant(&*self);
        }
        self.stream_listeners = Broadcaster::new();
        assert(self@.listeners =~= Seq::empty());
    }

    /// The number of open connections.
    pub fn open_connections_count(&self) -> (r: usize)
        ensures
            r == self@.listeners.len(),
    {
        self.stream_listeners.count()
    }

    /// Opens a connection to the stream: what is sent from now on arrives at
    /// the receiver that is handed out.
    pub fn stream_receiver(&mut self) -> (r: Receiver<String>)
        ensures
            final(self)@.listeners.len() == old(self)@.listeners.len() + 1,
            final(self)@.listeners.take(old(self)@.listeners.len() as int) == old(self)@.listeners,
            final(self)@ == (ResourceView { listeners: final(self)@.listeners, ..old(self)@ }),
    {
        proof {
            use_type_invariant(&*self);
        }
        let mut listeners = Broadcaster::new();
        core::mem::swap(&mut self.stream_listeners, &mut listeners);
        let receiver = listeners.subscribe();
        self.stream_listeners = listeners;
        receiver
    }
}

/// `data` followed by a line feed.
pub fn line_of(data: &str) -> (r: String)
    ensures
        r@ == data@ + "\n"@,
{
    let mut line = String::from_str(data);
    line.append("\n");
    line
}

/// Fills the parameters `params` of the given kind into `text`, one after the
/// other.
fn fill(text: Vec<char>, kind: &str, params: &ParamMap) -> (r: Vec<char>)
    ensures
        r@ == filled(text@, kind@, params@, params@.len() as int),
{
    let mut body = text;
    let mut i: usize = 0;
    while i < params.len()
        invariant
            i <= params@.len(),
            body@ == filled(text@, kind@, params@, i as int),
        decreases params@.len() - i,
    {
        if let Some((name, value)) = params.entry(i) {
            let mut key: Vec<char> = Vec::new();
            append_str(&mut key, "{");
            append_str(&mut key, kind);
            append_str(&mut key, ".");
            append_str(&mut key, name.as_str());
            append_str(&mut key, "}");
            assert(key@ =~= template_key(kind@, name@));
            let value = to_chars(value.as_str());
            body = replace_all(body.as_slice(), key.as_slice(), value.as_slice());
        }
        i += 1;
    }
    body
}

/// The body that a template gives for the parameters of a request: the path
/// parameters are filled in first, then the query parameters. What the
/// template names and the request does not have stays as it is.
pub fn fill_template(template: &str, params: &RequestParameters) -> (r: String)
    ensures
        r@ == filled(
            filled(template@, "path"@, params.path@, params.path@.len() as int),
            "query"@,
            params.query@,
            params.query@.len() as int,
        ),
{
    let body = to_chars(template);
    let body = fill(body, "path", &params.path);
    let body = fill(body, "query", &params.query);
    from_chars(body.as_slice())
}

} // verus!
