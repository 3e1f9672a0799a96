//! The registry of a server: its resources, in the order in which they were
//! created, and the rule that finds the resource for a request.

use crate::error::ConfigError;
use crate::http::{Method, Status};
use crate::resource::{response_text, RequestParameters, Resource, ResourceView};
use crate::text::{append_str, from_chars};
use crate::matcher::regex_valid;
use crate::uri::uri_pattern;
use std::sync::mpsc::Receiver;
use std::time::Duration;
use vstd::prelude::*;

verus! {

/// Where a request goes.
#[derive(Debug, Clone, Copy, PartialEq, Eq, Structural)]
pub enum Route {
    /// To the resource at this position of the registry.
    Found(usize),
    /// Nowhere: no resource matches the request's target.
    NotFound,
    /// Nowhere: resources match the target, but none of them answers to the
    /// request's method.
    MethodNotAllowed,
}

/// Whether one of `resources` matches the request target, whatever its method.
pub open spec fn target_known<F>(resources: Seq<ResourceView<F>>, uri: Seq<char>) -> bool {
    exists|i: int| 0 <= i < resources.len() && (#[trigger] resources[i]).matches_uri(uri)
}

/// The position of the first of `resources[from..]` that matches the request,
/// target and method, or `resources.len()` when none does.
pub open spec fn first_match<F>(
    resources: Seq<ResourceView<F>>,
    method: Seq<char>,
    uri: Seq<char>,
    from: int,
) -> int
    decreases resources.len() - from,
{
    if from < 0 || from >= resources.len() {
        resources.len() as int
    } else if resources[from].matches_request(method, uri) {
        from
    } else {
        first_match(resources, method, uri, from + 1)
    }
}

/// Where a request goes: to the first resource that matches its target and
/// answers to its method. Where there is none, the request is refused, as
/// not found when no resource matches its target at all.
pub open spec fn route<F>(resources: Seq<ResourceView<F>>, method: Seq<char>, uri: Seq<char>) -> Route {
    let first = first_match(resources, method, uri, 0);
    if first < resources.len() {
        Route::Found(first as usize)
    } else if target_known(resources, uri) {
        Route::MethodNotAllowed
    } else {
        Route::NotFound
    }
}

/// The resources after a request was routed: the resource it went to has
/// counted it, and nothing else has changed.
pub open spec fn routed<F>(
    resources: Seq<ResourceView<F>>,
    method: Seq<char>,
    uri: Seq<char>,
) -> Seq<ResourceView<F>> {
    let first = first_match(resources, method, uri, 0);
    if first < resources.len() {
        resources.update(first, resources[first].counted())
    } else {
        resources
    }
}

/// The response of the server itself, where no resource answers: the status
/// line, no headers and no body.
pub open spec fn refusal(status: Status) -> Seq<char> {
    response_text(status.line(), Seq::empty(), Seq::empty())
}

/// Whether `text` can be the response to a request that was routed along
/// `route`: the response of the resource it went to, or the server's refusal.
pub open spec fn responds<F: Fn(RequestParameters) -> String>(
    resources: Seq<ResourceView<F>>,
    route: Route,
    uri: Seq<char>,
    text: Seq<char>,
) -> bool {
    match route {
        Route::Found(id) => id < resources.len() && resources[id as int].answers(uri, text),
        Route::NotFound => text == refusal(Status::NotFound),
        Route::MethodNotAllowed => text == refusal(Status::MethodNotAllowed),
    }
}

/// The delay of the resource that a request went to, if it went to one and
/// that one has a delay.
pub open spec fn delay_of<F>(resources: Seq<ResourceView<F>>, route: Route) -> Option<Duration> {
    match route {
        Route::Found(id) => if id < resources.len() {
            resources[id as int].delay
        } else {
            None
        },
        _ => None,
    }
}

/// Whether a request went to a resource that is a stream.
pub open spec fn streams<F>(resources: Seq<ResourceView<F>>, route: Route) -> bool {
    route matches Route::Found(id) && id < resources.len() && resources[id as int].is_stream
}

/// Whether `after` is `resources` with one more open connection at the
/// resource `id`, and no other change.
pub open spec fn joined<F>(
    resources: Seq<ResourceView<F>>,
    after: Seq<ResourceView<F>>,
    id: int,
) -> bool {
    let before = resources[id].listeners;
    &&& 0 <= id < resources.len()
    &&& after[id].listeners.len() == before.len() + 1
    &&& after[id].listeners.take(before.len() as int) == before
    &&& after == resources.update(id, ResourceView { listeners: after[id].listeners, ..resources[id] })
}

/// `first_match` is the least position at or after `from` whose resource
/// matches the request.
pub proof fn lemma_first_match<F>(
    resources: Seq<ResourceView<F>>,
    method: Seq<char>,
    uri: Seq<char>,
    from: int,
)
    requires
        0 <= from <= resources.len(),
    ensures
        from <= first_match(resources, method, uri, from) <= resources.len(),
        first_match(resources, method, uri, from) < resources.len() ==> resources[first_match(
            resources,
            method,
            uri,
            from,
        )].matches_request(method, uri),
        forall|j: int|
            from <= j < first_match(resources, method, uri, from) ==> !(
            #[trigger] resources[j]).matches_request(method, uri),
    decreases resources.len() - from,
{
    if from < resources.len() && !resources[from].matches_request(method, uri) {
        lemma_first_match(resources, method, uri, from + 1);
    }
}

/// What the server's own responses say, to the letter.
pub proof fn lemma_refusal_texts()
    ensures
        refusal(Status::NotFound) == "HTTP/1.1 404 Not Found\r\n\r\n"@,
        refusal(Status::MethodNotAllowed) == "HTTP/1.1 405 Method Not Allowed\r\n\r\n"@,
{
    reveal_strlit("HTTP/1.1 ");
    reveal_strlit("\r\n");
    reveal_strlit("404 Not Found");
    reveal_strlit("405 Method Not Allowed");
    reveal_strlit("HTTP/1.1 404 Not Found\r\n\r\n");
    reveal_strlit("HTTP/1.1 405 Method Not Allowed\r\n\r\n");
    assert(refusal(Status::NotFound) =~= "HTTP/1.1 404 Not Found\r\n\r\n"@);
    assert(refusal(Status::MethodNotAllowed) =~= "HTTP/1.1 405 Method Not Allowed\r\n\r\n"@);
}

/// A request for a target that no resource matches is answered with exactly
/// `404 Not Found` and an empty body, whatever its method, and no resource
/// counts it.
pub proof fn lemma_unknown_target_not_found<F: Fn(RequestParameters) -> String>(
    resources: Seq<ResourceView<F>>,
    method: Seq<char>,
    uri: Seq<char>,
    text: Seq<char>,
)
    requires
        forall|i: int| 0 <= i < resources.len() ==> !(#[trigger] resources[i]).matches_uri(uri),
        responds(resources, route(resources, method, uri), uri, text),
    ensures
        route(resources, method, uri) == Route::NotFound,
        routed(resources, method, uri) == resources,
        text == "HTTP/1.1 404 Not Found\r\n\r\n"@,
{
    lemma_first_match(resources, method, uri, 0);
    lemma_refusal_texts();
}

/// A request whose target is matched by some resource, but by none that
/// answers to its method, is answered with exactly `405 Method Not Allowed`
/// and an empty body, and no resource counts it.
pub proof fn lemma_other_method_not_allowed<F: Fn(RequestParameters) -> String>(
    resources: Seq<ResourceView<F>>,
    method: Seq<char>,
    uri: Seq<char>,
    other: int,
    text: Seq<char>,
)
    requires
        0 <= other < resources.len(),
        resources[other].matches_uri(uri),
        forall|i: int|
            0 <= i < resources.len() && (#[trigger] resources[i]).matches_uri(uri)
                ==> resources[i].method.name() != method,
        responds(resources, route(resources, method, uri), uri, text),
    ensures
        route(resources, method, uri) == Route::MethodNotAllowed,
        routed(resources, method, uri) == resources,
        text == "HTTP/1.1 405 Method Not Allowed\r\n\r\n"@,
{
    lemma_first_match(resources, method, uri, 0);
    lemma_refusal_texts();
}

/// Counting a request changes nothing by which requests are routed.
pub proof fn lemma_route_ignores_counts<F>(
    resources: Seq<ResourceView<F>>,
    method: Seq<char>,
    uri: Seq<char>,
    later_method: Seq<char>,
    later_uri: Seq<char>,
)
    ensures
        route(routed(resources, method, uri), later_method, later_uri) == route(
            resources,
            later_method,
            later_uri,
        ),
{
    let after = routed(resources, method, uri);
    lemma_first_match(resources, method, uri, 0);
    assert(after.len() == resources.len());
    assert forall|i: int| 0 <= i < resources.len() implies (#[trigger] after[i]).matches_uri(
        later_uri,
    ) == resources[i].matches_uri(later_uri) && after[i].method == resources[i].method by {}
    lemma_same_matches(resources, after, later_method, later_uri, 0);
    if target_known(resources, later_uri) {
        let i = choose|i: int|
            0 <= i < resources.len() && (#[trigger] resources[i]).matches_uri(later_uri);
        assert(after[i].matches_uri(later_uri));
    }
    if target_known(after, later_uri) {
        let i = choose|i: int| 0 <= i < after.len() && (#[trigger] after[i]).matches_uri(later_uri);
        assert(resources[i].matches_uri(later_uri));
    }
}

proof fn lemma_same_matches<F>(
    a: Seq<ResourceView<F>>,
    b: Seq<ResourceView<F>>,
    method: Seq<char>,
    uri: Seq<char>,
    from: int,
)
    requires
        a.len() == b.len(),
        forall|i: int|
            0 <= i < a.len() ==> (#[trigger] b[i]).matches_uri(uri) == a[i].matches_uri(uri)
                && b[i].method == a[i].method,
    ensures
        first_match(a, method, uri, from) == first_match(b, method, uri, from),
    decreases a.len() - from,
{
    if 0 <= from < a.len() {
        assert(b[from].matches_uri(uri) == a[from].matches_uri(uri));
        lemma_same_matches(a, b, method, uri, from + 1);
    }
}

/// Two requests in a row that go to one resource leave its count two higher,
/// as long as the count has room; and a request that is refused leaves every
/// count as it was.
pub proof fn lemma_counts_add_up<F>(
    resources: Seq<ResourceView<F>>,
    method: Seq<char>,
    uri: Seq<char>,
)
    requires
        resources.len() <= usize::MAX,
    ensures
        match route(resources, method, uri) {
            Route::Found(i) => {
                let once = routed(resources, method, uri);
                let twice = routed(once, method, uri);
                &&& route(once, method, uri) == Route::Found(i)
                &&& resources[i as int].request_count + 2 <= u32::MAX ==> twice[i as int].request_count
                    == resources[i as int].request_count + 2
                &&& forall|j: int|
                    0 <= j < resources.len() && j != i ==> #[trigger] twice[j] == resources[j]
            },
            _ => routed(resources, method, uri) == resources,
        },
{
    lemma_first_match(resources, method, uri, 0);
    lemma_route_ignores_counts(resources, method, uri, method, uri);
    lemma_first_match(routed(resources, method, uri), method, uri, 0);
}

/// The resources of a server.
pub struct Registry<F: Fn(RequestParameters) -> String> {
    resources: Vec<Resource<F>>,
}

impl<F: Fn(RequestParameters) -> String> View for Registry<F> {
    type V = Seq<ResourceView<F>>;

    /// The resources, the first created first.
    closed spec fn view(&self) -> Seq<ResourceView<F>> {
        Seq::new(self.resources@.len(), |i: int| self.resources@[i]@)
    }
}

impl<F: Fn(RequestParameters) -> String> Registry<F> {
    /// A registry without resources.
    pub fn new() -> (r: Registry<F>)
        ensures
            r@ == Seq::<ResourceView<F>>::empty(),
    {
        let r = Registry { resources: Vec::new() };
        assert(r@ =~= Seq::<ResourceView<F>>::empty());
        r
    }

    /// The number of resources.
    pub fn len(&self) -> (r: usize)
        ensures
            r == self@.len(),
    {
        self.resources.len()
    }

    /// Creates a resource for the given URI declaration and adds it after
    /// the others. The result is its position, by which it is configured
    /// later. A declaration that does not compile adds nothing.
    pub fn create_resource(&mut self, uri: &str) -> (r: Result<usize, ConfigError>)
        ensures
            match r {
                Ok(id) => {
                    &&& id == old(self)@.len()
                    &&& final(self)@.len() == id + 1
                    &&& final(self)@.take(id as int) == old(self)@
                    &&& final(self)@[id as int] == ResourceView::<F>::fresh(uri@)
                },
                Err(e) => {
                    &&& e == ConfigError::MalformedPattern
                    &&& !regex_valid(uri_pattern(uri@))
                    &&& final(self)@ == old(self)@
                },
            },
    {
        match Resource::new(uri) {
            Ok(resource) => {
                let id = self.resources.len();
                self.resources.push(resource);
                assert(self@.take(id as int) =~= old(self)@);
                Ok(id)
            },
            Err(e) => Err(e),
        }
    }

    /// The resource at position `id`, if there is one.
    pub fn resource(&self, id: usize) -> (r: Option<&Resource<F>>)
        ensures
            id >= self@.len() ==> r is None,
            id < self@.len() ==> (r matches Some(resource) && resource@ == self@[id as int]),
    {
        if id < self.resources.len() {
            Some(&self.resources[id])
        } else {
            None
        }
    }

    /// The resource at position `id`, if there is one, to configure it.
    pub fn resource_mut(&mut self, id: usize) -> (r: Option<&mut Resource<F>>)
        ensures
            match r {
                Some(resource) => {
                    &&& id < old(self)@.len()
                    &&& resource@ == old(self)@[id as int]
                    &&& final(self)@ == old(self)@.update(id as int, final(resource)@)
                },
                None => id >= old(self)@.len() && final(self)@ == old(self)@,
            },
    {
        if id < self.resources.len() {
            Some(&mut self.resources[id])
        } else {
            None
        }
    }

    /// Routes a request: finds the resource it goes to, and has that
    /// resource count it.
    pub fn find_resource(&mut self, method: &str, url: &str) -> (r: Route)
        ensures
            r == route(old(self)@, method@, url@),
            final(self)@ == routed(old(self)@, method@, url@),
            final(self)@.len() == old(self)@.len(),
            r matches Route::Found(id) ==> id < old(self)@.len(),
    {
        proof {
            lemma_first_match(self@, method@, url@, 0);
        }
        let mut known = false;
        let mut i: usize = 0;
        while i < self.resources.len()
            invariant
                i <= self.resources.len(),
                *self == *old(self),
                known == exists|j: int| 0 <= j < i && (#[trigger] self@[j]).matches_uri(url@),
                first_match(self@, method@, url@, 0) == first_match(self@, method@, url@, i as int),
            decreases self.resources.len() - i,
        {
            if self.resources[i].matches_uri(url) {
                known = true;
                if self.resources[i].get_method().equal(method) {
                    self.resources[i].increment_request_count();
                    assert(self@ =~= routed(old(self)@, method@, url@));
                    return Route::Found(i);
                }
            }
            i += 1;
        }
        if known {
            Route::MethodNotAllowed
        } else {
            Route::NotFound
        }
    }

    /// The delay of the resource that a request went to, if it went to one
    /// and that one has a delay.
    pub fn delay_for(&self, route: Route) -> (r: Option<Duration>)
        ensures
            r == delay_of(self@, route),
    {
        match route {
            Route::Found(id) => {
                if id < self.resources.len() {
                    self.resources[id].get_delay()
                } else {
                    None
                }
            },
            _ => None,
        }
    }

    /// Opens a connection to the stream of the resource that a request went
    /// to. Nothing is opened where the request went to no resource, or to
    /// one that is no stream.
    pub fn subscribe(&mut self, route: Route) -> (r: Option<Receiver<String>>)
        ensures
            match r {
                Some(_) => streams(old(self)@, route) && joined(
                    old(self)@,
                    final(self)@,
                    route->Found_0 as int,
                ),
                None => !streams(old(self)@, route) && final(self)@ == old(self)@,
            },
    {
        match route {
            Route::Found(id) => {
                if id < self.resources.len() && self.resources[id].is_stream() {
                    let receiver = self.resources[id].stream_receiver();
                    assert(final(self)@ =~= old(self)@.update(
                        id as int,
                        ResourceView {
                            listeners: final(self)@[id as int].listeners,
                            ..old(self)@[id as int]
                        },
                    ));
                    Some(receiver)
                } else {
                    None
                }
            },
            _ => None,
        }
    }

    /// The response to a request that was routed along `route`. There is none
    /// where the route leads to a position that the registry does not have.
    pub fn build_response(&self, route: Route, url: &str) -> (r: Option<String>)
        ensures
            match r {
                Some(text) => responds(self@, route, url@, text@),
                None => route matches Route::Found(id) && id >= self@.len(),
            },
    {
        match route {
            Route::Found(id) => {
                if id < self.resources.len() {
                    Some(self.resources[id].build_response(url))
                } else {
                    None
                }
            },
            Route::NotFound => Some(refuse(Status::NotFound)),
            Route::MethodNotAllowed => Some(refuse(Status::MethodNotAllowed)),
        }
    }
}

/// The response of the server itself, where no resource answers.
pub fn refuse(status: Status) -> (r: String)
    ensures
        r@ == refusal(status),
{
    let mut text: Vec<char> = Vec::new();
    append_str(&mut text, "HTTP/1.1 ");
    append_str(&mut text, status.description());
    append_str(&mut text, "\r\n");
    append_str(&mut text, "\r\n");
    assert(text@ =~= refusal(status));
    from_chars(text.as_slice())
}

} // verus!
