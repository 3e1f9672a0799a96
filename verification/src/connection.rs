//! What the server does with one connection, step by step.
//!
//! The server's owner reads and writes the socket, sleeps, and hands out what
//! it is asked to. After each of these it reports what happened, as an
//! `Event`, and is told what to do next, as an `Action`. The rules are here:
//! the request is routed when its first line is in; a delayed response is
//! written only after the delay; the request is reported only after the
//! response; and a stream is joined last.

use crate::params::{put, ParamMap};
use crate::registry::{
    delay_of, joined, responds, route, routed, streams, Registry, Route,
};
use crate::request::{header_line, parse_header, parse_request_header, request_line, Request};
use crate::resource::{RequestParameters, ResourceView};
use std::sync::mpsc::Receiver;
use std::time::Duration;
use vstd::prelude::*;

verus! {

/// How far a connection has come.
#[derive(Debug, Clone, Copy, PartialEq, Eq, Structural)]
pub enum Phase {
    /// Accepted: the request line is awaited.
    Accepted,
    /// Routed to a resource with a delay: the end of the delay is awaited.
    Delayed,
    /// The response is being written.
    Responding,
    /// The response was sent, and the header lines are read for the report.
    CollectingHeaders,
    /// The report of the request is being handed out.
    Reporting,
    /// The connection relays what the resource sends.
    Streaming,
    /// Nothing more happens on the connection.
    Closed,
}

/// What happened on a connection.
#[derive(Debug)]
pub enum Event {
    /// The first line of the request was read.
    RequestLine(String),
    /// The delay is over.
    DelayElapsed,
    /// The response was written. `listening` says whether somebody takes
    /// reports of requests at this moment.
    ResponseWritten { listening: bool },
    /// A further line of the request was read; its line break is taken off.
    HeaderLine(String),
    /// The request has no further line.
    EndOfHeaders,
    /// The report was handed out.
    Reported,
    /// The stream was closed, or the client is gone.
    StreamClosed,
}

/// What is to be done next on a connection.
#[derive(Debug)]
pub enum Action {
    /// Wait for this long, then report `DelayElapsed`.
    Sleep(Duration),
    /// Write this text to the client, then report `ResponseWritten`.
    Write(String),
    /// Read one more line, then report `HeaderLine` or `EndOfHeaders`.
    ReadHeader,
    /// Hand this report to whoever takes them, then report `Reported`.
    Report(Request),
    /// Write to the client whatever arrives at this receiver, until it is
    /// closed; then report `StreamClosed`.
    Relay(Receiver<String>),
    /// Close the connection.
    Close,
}

/// One connection.
#[derive(Debug)]
pub struct Connection {
    phase: Phase,
    method: String,
    url: String,
    route: Route,
    headers: ParamMap,
}

/// What a connection is, as contracts see it.
pub struct ConnectionView {
    /// How far the connection has come.
    pub phase: Phase,
    /// The method of the request.
    pub method: Seq<char>,
    /// The target of the request.
    pub url: Seq<char>,
    /// Where the request went.
    pub route: Route,
    /// The headers read so far.
    pub headers: Seq<(Seq<char>, Seq<char>)>,
}

impl ConnectionView {
    /// The connection in another phase.
    pub open spec fn in_phase(self, phase: Phase) -> Self {
        ConnectionView { phase: phase, ..self }
    }
}

impl View for Connection {
    type V = ConnectionView;

    closed spec fn view(&self) -> ConnectionView {
        ConnectionView {
            phase: self.phase,
            method: self.method@,
            url: self.url@,
            route: self.route,
            headers: self.headers@,
        }
    }
}

/// The step that closes the connection and leaves everything else alone.
pub open spec fn closes<F>(
    pre: ConnectionView,
    resources: Seq<ResourceView<F>>,
    post: ConnectionView,
    after: Seq<ResourceView<F>>,
    action: Action,
) -> bool {
    post == pre.in_phase(Phase::Closed) && after == resources && action is Close
}

/// The step that writes the response.
pub open spec fn writes<F: Fn(RequestParameters) -> String>(
    pre: ConnectionView,
    resources: Seq<ResourceView<F>>,
    post: ConnectionView,
    action: Action,
) -> bool {
    &&& post == pre.in_phase(Phase::Responding)
    &&& action matches Action::Write(text) && responds(resources, pre.route, pre.url, text@)
}

/// The step on the request line. A line that names no method and target
/// closes the connection. Else the request is routed, and counted by the
/// resource it goes to; then the delay of that resource is waited for, or,
/// where it has none, the response is written at once.
pub open spec fn begins<F: Fn(RequestParameters) -> String>(
    pre: ConnectionView,
    resources: Seq<ResourceView<F>>,
    line: Seq<char>,
    post: ConnectionView,
    after: Seq<ResourceView<F>>,
    action: Action,
) -> bool {
    match request_line(line) {
        Some((method, url)) => {
            let routed_to = ConnectionView {
                method: method,
                url: url,
                route: route(resources, method, url),
                ..pre
            };
            &&& after == routed(resources, method, url)
            &&& match delay_of(after, routed_to.route) {
                Some(delay) => post == routed_to.in_phase(Phase::Delayed) && action == Action::Sleep(
                    delay,
                ),
                None => writes(routed_to, after, post, action),
            }
        },
        None => closes(pre, resources, post, after, action),
    }
}

/// The step after the response, and after the report where one is made: the
/// connection joins the stream of its resource, or is closed.
pub open spec fn finishes<F>(
    pre: ConnectionView,
    resources: Seq<ResourceView<F>>,
    post: ConnectionView,
    after: Seq<ResourceView<F>>,
    action: Action,
) -> bool {
    if streams(resources, pre.route) {
        &&& post == pre.in_phase(Phase::Streaming)
        &&& action is Relay
        &&& joined(resources, after, pre.route->Found_0 as int)
    } else {
        closes(pre, resources, post, after, action)
    }
}

/// The step at the end of the header lines: the request is reported, with
/// the headers that were read.
pub open spec fn reports(pre: ConnectionView, post: ConnectionView, action: Action) -> bool {
    &&& post == (ConnectionView { phase: Phase::Reporting, headers: Seq::empty(), ..pre })
    &&& action matches Action::Report(request) && request.url@ == pre.url && request.method@
        == pre.method && request.headers@ == pre.headers
}

/// The step on a further line of the request. An empty line ends the
/// headers. A header line adds its header, in the place of an earlier one of
/// the same name. A line that is neither closes the connection.
pub open spec fn collects<F>(
    pre: ConnectionView,
    resources: Seq<ResourceView<F>>,
    line: Seq<char>,
    post: ConnectionView,
    after: Seq<ResourceView<F>>,
    action: Action,
) -> bool {
    if line.len() == 0 {
        after == resources && reports(pre, post, action)
    } else {
        match header_line(line) {
            Some((name, value)) => {
                &&& post == (ConnectionView { headers: put(pre.headers, name, value), ..pre })
                &&& after == resources
                &&& action is ReadHeader
            },
            None => closes(pre, resources, post, after, action),
        }
    }
}

/// What one step does: for a connection `pre`, the resources of the server
/// and an event, the connection and the resources after the step, and the
/// action that it asks for. An event that the phase does not await closes
/// the connection.
pub open spec fn transition<F: Fn(RequestParameters) -> String>(
    pre: ConnectionView,
    resources: Seq<ResourceView<F>>,
    event: Event,
    post: ConnectionView,
    after: Seq<ResourceView<F>>,
    action: Action,
) -> bool {
    match (pre.phase, event) {
        (Phase::Accepted, Event::RequestLine(line)) => begins(
            pre,
            resources,
            line@,
            post,
            after,
            action,
        ),
        (Phase::Delayed, Event::DelayElapsed) => {
            if pre.route matches Route::Found(id) && id >= resources.len() {
                closes(pre, resources, post, after, action)
            } else {
                after == resources && writes(pre, resources, post, action)
            }
        },
        (Phase::Responding, Event::ResponseWritten { listening }) => {
            if listening {
                &&& post == pre.in_phase(Phase::CollectingHeaders)
                &&& after == resources
                &&& action is ReadHeader
            } else {
                finishes(pre, resources, post, after, action)
            }
        },
        (Phase::CollectingHeaders, Event::HeaderLine(line)) => collects(
            pre,
            resources,
            line@,
            post,
            after,
            action,
        ),
        (Phase::CollectingHeaders, Event::EndOfHeaders) => after == resources && reports(
            pre,
            post,
            action,
        ),
        (Phase::Reporting, Event::Reported) => finishes(pre, resources, post, after, action),
        _ => closes(pre, resources, post, after, action),
    }
}

/// The response is written only when the request was routed and the delay of
/// its resource, if it has one, is over; and a stream is joined only after
/// the response was written.
pub proof fn lemma_order_of_actions<F: Fn(RequestParameters) -> String>(
    pre: ConnectionView,
    resources: Seq<ResourceView<F>>,
    event: Event,
    post: ConnectionView,
    after: Seq<ResourceView<F>>,
    action: Action,
)
    requires
        transition(pre, resources, event, post, after, action),
    ensures
        action is Write ==> (pre.phase == Phase::Delayed && event is DelayElapsed) || (pre.phase
            == Phase::Accepted && event is RequestLine && delay_of(after, post.route) is None),
        pre.phase == Phase::Accepted && delay_of(after, post.route) is Some ==> !(action is Write),
        action is Relay ==> pre.phase == Phase::Responding || pre.phase == Phase::Reporting,
        action is Report ==> pre.phase == Phase::CollectingHeaders,
{
}

impl Connection {
    /// A connection that was just accepted.
    pub fn new() -> (r: Connection)
        ensures
            r@ == (ConnectionView {
                phase: Phase::Accepted,
                method: Seq::empty(),
                url: Seq::empty(),
                route: Route::NotFound,
                headers: Seq::empty(),
            }),
    {
        Connection {
            phase: Phase::Accepted,
            method: String::new(),
            url: String::new(),
            route: Route::NotFound,
            headers: ParamMap::new(),
        }
    }

    /// How far the connection has come.
    pub fn phase(&self) -> (r: Phase)
        ensures
            r == self@.phase,
    {
        self.phase
    }

    /// Where the request went.
    pub fn route(&self) -> (r: Route)
        ensures
            r == self@.route,
    {
        self.route
    }

    fn close<F: Fn(RequestParameters) -> String>(&mut self, registry: &Registry<F>) -> (action:
        Action)
        ensures
            closes(old(self)@, registry@, final(self)@, registry@, action),
    {
        self.phase = Phase::Closed;
        Action::Close
    }

    fn respond<F: Fn(RequestParameters) -> String>(&mut self, registry: &Registry<F>) -> (action:
        Action)
        ensures
            if old(self)@.route matches Route::Found(id) && id >= registry@.len() {
                closes(old(self)@, registry@, final(self)@, registry@, action)
            } else {
                writes(old(self)@, registry@, final(self)@, action)
            },
    {
        match registry.build_response(self.route, self.url.as_str()) {
            Some(text) => {
                self.phase = Phase::Responding;
                Action::Write(text)
            },
            None => self.close(registry),
        }
    }

    fn begin<F: Fn(RequestParameters) -> String>(
        &mut self,
        registry: &mut Registry<F>,
        line: &str,
    ) -> (action: Action)
        ensures
            begins(old(self)@, old(registry)@, line@, final(self)@, final(registry)@, action),
    {
        match parse_request_header(line) {
            Some((method, url)) => {
                self.route = registry.find_resource(method.as_str(), url.as_str());
                self.method = method;
                self.url = url;
                match registry.delay_for(self.route) {
                    Some(delay) => {
                        self.phase = Phase::Delayed;
                        Action::Sleep(delay)
                    },
                    None => self.respond(registry),
                }
            },
            None => self.close(registry),
        }
    }

    fn finish<F: Fn(RequestParameters) -> String>(&mut self, registry: &mut Registry<F>) -> (action:
        Action)
        ensures
            finishes(old(self)@, old(registry)@, final(self)@, final(registry)@, action),
    {
        match registry.subscribe(self.route) {
            Some(receiver) => {
                self.phase = Phase::Streaming;
                Action::Relay(receiver)
            },
            None => self.close(registry),
        }
    }

    fn report(&mut self) -> (action: Action)
        ensures
            reports(old(self)@, final(self)@, action),
    {
        let mut headers = ParamMap::new();
        core::mem::swap(&mut self.headers, &mut headers);
        self.phase = Phase::Reporting;
        Action::Report(Request { url: self.url.clone(), method: self.method.clone(), headers })
    }

    fn collect<F: Fn(RequestParameters) -> String>(
        &mut self,
        registry: &Registry<F>,
        line: &str,
    ) -> (action: Action)
        ensures
            collects(old(self)@, registry@, line@, final(self)@, registry@, action),
    {
        if line.is_empty() {
            return self.report();
        }
        match parse_header(line) {
            Some((name, value)) => {
                self.headers.insert(name.as_str(), value.as_str());
                Action::ReadHeader
            },
            None => self.close(registry),
        }
    }

    /// Takes one step: for what happened, says what is to be done next.
    pub fn step<F: Fn(RequestParameters) -> String>(
        &mut self,
        registry: &mut Registry<F>,
        event: Event,
    ) -> (action: Action)
        ensures
            transition(old(self)@, old(registry)@, event, final(self)@, final(registry)@, action),
    {
        match self.phase {
            Phase::Accepted => match event {
                Event::RequestLine(line) => self.begin(registry, line.as_str()),
                _ => self.close(registry),
            },
            Phase::Delayed => match event {
                Event::DelayElapsed => self.respond(registry),
                _ => self.close(registry),
            },
            Phase::Responding => match event {
                Event::ResponseWritten { listening } => {
                    if listening {
                        self.phase = Phase::CollectingHeaders;
                        Action::ReadHeader
                    } else {
                        self.finish(registry)
                    }
                },
                _ => self.close(registry),
            },
            Phase::CollectingHeaders => match event {
                Event::HeaderLine(line) => self.collect(registry, line.as_str()),
                Event::EndOfHeaders => self.report(),
                _ => self.close(registry),
            },
            Phase::Reporting => match event {
                Event::Reported => self.finish(registry),
                _ => self.close(registry),
            },
            _ => self.close(registry),
        }
    }
}

} // verus!
