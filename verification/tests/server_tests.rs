use http_test_server::connection::{Action, Connection, Event, Phase};
use http_test_server::http::{Method, Status};
use http_test_server::registry::{Registry, Route};
use http_test_server::request::Request;
use http_test_server::resource::RequestParameters;
use std::sync::mpsc::Receiver;
use std::time::Duration;

type Generator = fn(RequestParameters) -> String;

/// What one connection gave: the text written to the client, the delays that
/// were asked for before it, the report of the request, and the stream.
struct Exchange {
    response: String,
    delays: Vec<Duration>,
    report: Option<Request>,
    stream: Option<Receiver<String>>,
}

/// Plays the part of the socket: feeds the lines of `raw` to a connection and
/// does what the connection asks for.
fn exchange(registry: &mut Registry<Generator>, raw: &str, listening: bool) -> Exchange {
    let mut lines = raw.split("\r\n").map(String::from);
    let mut connection = Connection::new();
    let mut result = Exchange { response: String::new(), delays: vec![], report: None, stream: None };
    let first = lines.next().unwrap_or_default();
    let mut action = connection.step(registry, Event::RequestLine(first));
    loop {
        let event = match action {
            Action::Sleep(delay) => {
                assert!(result.response.is_empty());
                result.delays.push(delay);
                Event::DelayElapsed
            }
            Action::Write(text) => {
                result.response.push_str(&text);
                Event::ResponseWritten { listening }
            }
            Action::ReadHeader => match lines.next() {
                Some(line) => Event::HeaderLine(line),
                None => Event::EndOfHeaders,
            },
            Action::Report(request) => {
                result.report = Some(request);
                Event::Reported
            }
            Action::Relay(receiver) => {
                result.stream = Some(receiver);
                assert_eq!(connection.phase(), Phase::Streaming);
                return result;
            }
            Action::Close => {
                assert_eq!(connection.phase(), Phase::Closed);
                return result;
            }
        };
        action = connection.step(registry, event);
    }
}

fn request(registry: &mut Registry<Generator>, uri: &str, method: &str) -> String {
    let raw = format!("{} {} HTTP/1.1\r\nContent-Type: text\r\n\r\n", method, uri);
    exchange(registry, &raw, false).response
}

fn make_request(registry: &mut Registry<Generator>, uri: &str) -> String {
    request(registry, uri, "GET")
}

fn make_post_request(registry: &mut Registry<Generator>, uri: &str) -> String {
    request(registry, uri, "POST")
}

fn first_line(response: &str) -> String {
    let end = response.find("\r\n").unwrap() + 2;
    String::from(&response[..end])
}

#[test]
fn returns_404_when_requested_enexistent_resource() {
    let mut server: Registry<Generator> = Registry::new();
    let response = make_request(&mut server, "/something");

    assert_eq!(first_line(&response), "HTTP/1.1 404 Not Found\r\n");
    assert_eq!(response, "HTTP/1.1 404 Not Found\r\n\r\n");
}

#[test]
fn should_create_resource() {
    let mut server: Registry<Generator> = Registry::new();
    server.create_resource("/something").unwrap();

    let response = make_request(&mut server, "/something");

    assert_eq!(first_line(&response), "HTTP/1.1 200 Ok\r\n");
}

#[test]
fn should_return_configured_status_for_resource_resource() {
    let mut server: Registry<Generator> = Registry::new();
    let id = server.create_resource("/something-else").unwrap();

    server.resource_mut(id).unwrap().status(Status::OK);

    let response = make_request(&mut server, "/something-else");

    assert_eq!(first_line(&response), "HTTP/1.1 200 Ok\r\n");
}

#[test]
fn should_return_resource_body() {
    let mut server: Registry<Generator> = Registry::new();
    let id = server.create_resource("/something-else").unwrap();

    server.resource_mut(id).unwrap().status(Status::OK).body("<some body>").unwrap();

    let response = make_request(&mut server, "/something-else");

    assert_eq!(response, "HTTP/1.1 200 Ok\r\n\r\n<some body>");
}

#[test]
fn should_return_resource_body_with_params() {
    let mut server: Registry<Generator> = Registry::new();
    let id = server.create_resource("/user/{userId}/{thing_id}/{yepyep}").unwrap();

    server
        .resource_mut(id)
        .unwrap()
        .status(Status::OK)
        .body("User: {path.userId} Thing: {path.thing_id} Sth: {path.yepyep}")
        .unwrap();

    let response = make_request(&mut server, "/user/123/abc/Hello!");

    assert_eq!(response, "HTTP/1.1 200 Ok\r\n\r\nUser: 123 Thing: abc Sth: Hello!");
}

#[test]
fn should_work_with_regex_uri() {
    let mut server: Registry<Generator> = Registry::new();
    let id = server.create_resource("/hello/[0-9]/[A-z]/.*").unwrap();

    server.resource_mut(id).unwrap().method(Method::POST).status(Status::OK).body("<some body>").unwrap();

    let response = make_post_request(&mut server, "/hello/8/b/doesntmatter-hehe");

    assert_eq!(response, "HTTP/1.1 200 Ok\r\n\r\n<some body>");
}

#[test]
fn should_listen_to_defined_method() {
    let mut server: Registry<Generator> = Registry::new();
    let id = server.create_resource("/something-else").unwrap();

    server.resource_mut(id).unwrap().method(Method::POST).status(Status::OK).body("<some body>").unwrap();

    let response = make_post_request(&mut server, "/something-else");

    assert_eq!(response, "HTTP/1.1 200 Ok\r\n\r\n<some body>");
}

#[test]
fn should_allow_multiple_methods_for_same_uri() {
    let mut server: Registry<Generator> = Registry::new();
    let id = server.create_resource("/something-else").unwrap();
    let id2 = server.create_resource("/something-else").unwrap();

    server.resource_mut(id).unwrap().method(Method::GET).status(Status::OK).body("<some body GET>").unwrap();
    server.resource_mut(id2).unwrap().method(Method::POST).status(Status::OK).body("<some body POST>").unwrap();

    let line = make_request(&mut server, "/something-else");
    let line2 = make_post_request(&mut server, "/something-else");

    assert_eq!(line, "HTTP/1.1 200 Ok\r\n\r\n<some body GET>");
    assert_eq!(line2, "HTTP/1.1 200 Ok\r\n\r\n<some body POST>");
}

#[test]
fn should_return_405_when_method_not_defined() {
    let mut server: Registry<Generator> = Registry::new();
    let id = server.create_resource("/something-else").unwrap();

    server.resource_mut(id).unwrap().method(Method::POST).status(Status::OK).body("<some body>").unwrap();

    let response = make_request(&mut server, "/something-else");

    assert_eq!(response, "HTTP/1.1 405 Method Not Allowed\r\n\r\n");
}

#[test]
fn lib_should_increment_request_count() {
    let mut server: Registry<Generator> = Registry::new();
    let id = server.create_resource("/something-else").unwrap();

    server.resource_mut(id).unwrap().status(Status::OK).body("<some body>").unwrap();

    assert_eq!(server.resource(id).unwrap().request_count(), 0);

    let _ = make_request(&mut server, "/something-else");
    let _ = make_request(&mut server, "/something-else");

    assert_eq!(server.resource(id).unwrap().request_count(), 2);
}

#[test]
fn should_expose_stream() {
    let mut server: Registry<Generator> = Registry::new();
    let id = server.create_resource("/something-else").unwrap();
    server.resource_mut(id).unwrap().stream();

    let raw = "GET /something-else HTTP/1.1\r\nContent-Type: text\r\n\r\n";
    let client = exchange(&mut server, raw, false);
    let stream = client.stream.unwrap();

    let resource = server.resource_mut(id).unwrap();
    resource.send_line("hello!");
    resource.send("it's me");
    resource.send("\n");
    resource.close_open_connections();

    let mut received = client.response;
    for data in stream.iter() {
        received.push_str(&data);
    }
    let lines: Vec<&str> = received.lines().collect();

    assert_eq!(lines[0], "HTTP/1.1 200 Ok");
    assert_eq!(lines[1], "");
    assert_eq!(lines[2], "hello!");
    assert_eq!(lines[3], "it's me");
}

#[test]
fn should_close_client_connections() {
    let mut server: Registry<Generator> = Registry::new();
    let id = server.create_resource("/something-else").unwrap();
    server.resource_mut(id).unwrap().stream();

    let raw = "GET /something-else HTTP/1.1\r\nContent-Type: text\r\n\r\n";
    let client = exchange(&mut server, raw, false);
    let stream = client.stream.unwrap();
    assert_eq!(server.resource(id).unwrap().open_connections_count(), 1);

    server.resource_mut(id).unwrap().close_open_connections();

    assert!(stream.recv().is_err());
    assert_eq!(server.resource(id).unwrap().open_connections_count(), 0);
}

#[test]
fn should_return_requests_metadata() {
    let mut server: Registry<Generator> = Registry::new();

    let raw = "GET /something-else HTTP/1.1\r\nContent-Type: text\r\n\r\n";
    let report = exchange(&mut server, raw, true).report.unwrap();

    assert_eq!(report.url, "/something-else");
    assert_eq!(report.method, "GET");
    assert_eq!(report.headers.len(), 1);
    assert_eq!(report.headers.get("Content-Type").unwrap(), "text");
}

#[test]
fn should_delay_response() {
    let mut server: Registry<Generator> = Registry::new();
    let id = server.create_resource("/something-else").unwrap();
    server.resource_mut(id).unwrap().delay(Duration::from_millis(300));

    let mut connection = Connection::new();
    let line = String::from("GET /something-else HTTP/1.1");

    match connection.step(&mut server, Event::RequestLine(line)) {
        Action::Sleep(delay) => assert_eq!(delay, Duration::from_millis(300)),
        other => panic!("a response before the delay: {:?}", other),
    }
    assert_eq!(connection.phase(), Phase::Delayed);

    match connection.step(&mut server, Event::DelayElapsed) {
        Action::Write(text) => assert_eq!(first_line(&text), "HTTP/1.1 200 Ok\r\n"),
        other => panic!("no response after the delay: {:?}", other),
    }
}

#[test]
fn test_defaults() {
    let mut server: Registry<Generator> = Registry::new();
    let id = server.create_resource("/defaults").unwrap();

    let client = exchange(&mut server, "GET /defaults HTTP/1.1\r\n\r\n", true);
    let request_data = client.report.unwrap();

    assert_eq!(client.response, "HTTP/1.1 200 Ok\r\n\r\n");

    assert_eq!(request_data.url, "/defaults");
    assert_eq!(request_data.method, "GET");
    assert!(request_data.headers.is_empty());

    assert_eq!(server.resource(id).unwrap().request_count(), 1);
}

#[test]
fn test_post_request() {
    let mut server: Registry<Generator> = Registry::new();
    let id = server.create_resource("/create").unwrap();

    server
        .resource_mut(id)
        .unwrap()
        .method(Method::POST)
        .status(Status::Created)
        .header("Content-Type", "text")
        .body("Everything is fine!")
        .unwrap();

    let response = exchange(&mut server, "POST /create HTTP/1.1\r\n\r\n", false).response;

    assert_eq!(response, "HTTP/1.1 201 Created\r\nContent-Type: text\r\n\r\nEverything is fine!");
}

#[test]
fn test_stream() {
    let mut server: Registry<Generator> = Registry::new();
    let id = server.create_resource("/stream").unwrap();

    server
        .resource_mut(id)
        .unwrap()
        .stream()
        .header("Content-Type", "text/event-stream")
        .body(": initial data\n")
        .unwrap();

    let client = exchange(&mut server, "GET /stream HTTP/1.1\r\n\r\n", false);
    let stream = client.stream.unwrap();

    let resource = server.resource_mut(id).unwrap();
    resource.send_line("Hello.");
    resource.send_line("Is there anybody in there?");
    resource.send_line("Just nod if you can hear me.");
    resource.close_open_connections();

    let mut response = client.response;
    for data in stream.iter() {
        response.push_str(&data);
    }

    assert_eq!(response, "HTTP/1.1 200 Ok\r\nContent-Type: text/event-stream\r\n\r\n: initial data\nHello.\nIs there anybody in there?\nJust nod if you can hear me.\n");
}

#[test]
fn test_request_with_path_and_query_params() {
    let mut server: Registry<Generator> = Registry::new();
    let id = server.create_resource("/user/{userId}?filter=*&version=1").unwrap();

    server
        .resource_mut(id)
        .unwrap()
        .status(Status::OK)
        .header("Content-Type", "application/json")
        .body(r#"{"id": 123, "userId": "{path.userId}", "filter": "{query.filter}", "v": {query.version}}"#)
        .unwrap();

    let response = exchange(&mut server, "GET /user/superUser?filter=all&version=1 HTTP/1.1\r\n\r\n", false).response;

    assert_eq!(
        response,
        "HTTP/1.1 200 Ok\r\nContent-Type: application/json\r\n\r\n{\"id\": 123, \"userId\": \"superUser\", \"filter\": \"all\", \"v\": 1}"
    );
}

#[test]
fn test_request_to_regex_uri() {
    let mut server: Registry<Generator> = Registry::new();
    let id = server.create_resource("/hello/[0-9]/[A-z]/.*").unwrap();

    let client = exchange(&mut server, "GET /hello/2/b/goodbye HTTP/1.1\r\n\r\n", true);
    let request_data = client.report.unwrap();

    assert_eq!(client.response, "HTTP/1.1 200 Ok\r\n\r\n");

    assert_eq!(request_data.url, "/hello/2/b/goodbye");
    assert_eq!(request_data.method, "GET");
    assert!(request_data.headers.is_empty());

    assert_eq!(server.resource(id).unwrap().request_count(), 1);
}

#[test]
fn refused_requests_are_counted_nowhere() {
    let mut server: Registry<Generator> = Registry::new();
    let get = server.create_resource("/a").unwrap();
    let post = server.create_resource("/b").unwrap();
    server.resource_mut(post).unwrap().method(Method::POST);

    assert_eq!(server.find_resource("GET", "/missing"), Route::NotFound);
    assert_eq!(server.find_resource("GET", "/b"), Route::MethodNotAllowed);
    assert_eq!(server.find_resource("DELETE", "/a"), Route::MethodNotAllowed);

    assert_eq!(server.resource(get).unwrap().request_count(), 0);
    assert_eq!(server.resource(post).unwrap().request_count(), 0);

    assert_eq!(server.find_resource("POST", "/b"), Route::Found(post));
    assert_eq!(server.resource(get).unwrap().request_count(), 0);
    assert_eq!(server.resource(post).unwrap().request_count(), 1);
}

#[test]
fn first_registered_resource_wins() {
    let mut server: Registry<Generator> = Registry::new();
    let first = server.create_resource("/same").unwrap();
    let second = server.create_resource("/same").unwrap();
    server.resource_mut(first).unwrap().body("first").unwrap();
    server.resource_mut(second).unwrap().body("second").unwrap();

    assert_eq!(server.find_resource("GET", "/same"), Route::Found(first));
    assert_eq!(make_request(&mut server, "/same"), "HTTP/1.1 200 Ok\r\n\r\nfirst");
    assert_eq!(server.resource(second).unwrap().request_count(), 0);
}

#[test]
fn malformed_declaration_is_refused_at_creation() {
    let mut server: Registry<Generator> = Registry::new();
    assert!(server.create_resource("/a(b").is_err());
    assert_eq!(server.len(), 0);
    assert!(server.create_resource("/a/{id}/{id}").is_err());
    assert!(server.create_resource("/a/{id}").is_ok());
    assert_eq!(server.len(), 1);
}

#[test]
fn route_to_missing_position_has_no_response() {
    let server: Registry<Generator> = Registry::new();
    assert!(server.build_response(Route::Found(3), "/").is_none());
    assert_eq!(server.build_response(Route::NotFound, "/").unwrap(), "HTTP/1.1 404 Not Found\r\n\r\n");
    assert!(server.resource(0).is_none());
}

#[test]
fn request_line_without_target_closes_the_connection() {
    let mut server: Registry<Generator> = Registry::new();
    server.create_resource("/a").unwrap();
    let client = exchange(&mut server, "GET\r\n\r\n", true);
    assert_eq!(client.response, "");
    assert!(client.report.is_none());
    assert_eq!(server.resource(0).unwrap().request_count(), 0);
}

#[test]
fn header_line_without_colon_closes_the_connection() {
    let mut server: Registry<Generator> = Registry::new();
    let client = exchange(&mut server, "GET /a HTTP/1.1\r\nno colon here\r\n\r\n", true);
    assert_eq!(client.response, "HTTP/1.1 404 Not Found\r\n\r\n");
    assert!(client.report.is_none());
}

#[test]
fn later_header_replaces_earlier_one() {
    let mut server: Registry<Generator> = Registry::new();
    let raw = "GET /a HTTP/1.1\r\nAccept: a\r\nHost:   here  \r\nAccept: b\r\n\r\nignored: yes\r\n";
    let report = exchange(&mut server, raw, true).report.unwrap();
    assert_eq!(report.headers.len(), 2);
    assert_eq!(report.headers.get("Accept").unwrap(), "b");
    assert_eq!(report.headers.get("Host").unwrap(), "here");
    assert!(report.headers.get("ignored").is_none());
}

#[test]
fn event_out_of_turn_closes_the_connection() {
    let mut server: Registry<Generator> = Registry::new();
    let mut connection = Connection::new();
    assert!(matches!(connection.step(&mut server, Event::DelayElapsed), Action::Close));
    assert_eq!(connection.phase(), Phase::Closed);
    let again = connection.step(&mut server, Event::RequestLine(String::from("GET / HTTP/1.1")));
    assert!(matches!(again, Action::Close));
}

#[test]
fn two_clients_receive_what_is_sent() {
    let mut server: Registry<Generator> = Registry::new();
    let id = server.create_resource("/sub").unwrap();
    server.resource_mut(id).unwrap().stream();

    let one = exchange(&mut server, "GET /sub HTTP/1.1\r\n\r\n", false).stream.unwrap();
    let two = exchange(&mut server, "GET /sub HTTP/1.1\r\n\r\n", false).stream.unwrap();
    assert_eq!(server.resource(id).unwrap().open_connections_count(), 2);

    server.resource_mut(id).unwrap().send_line("x");
    assert_eq!(one.recv().unwrap(), "x\n");
    assert_eq!(two.recv().unwrap(), "x\n");

    server.resource_mut(id).unwrap().close_open_connections();
    assert_eq!(server.resource(id).unwrap().open_connections_count(), 0);
    assert!(one.recv().is_err());
    assert!(two.recv().is_err());
}

#[test]
fn only_the_gone_subscribers_are_pruned() {
    let mut server: Registry<Generator> = Registry::new();
    let id = server.create_resource("/sub").unwrap();
    let resource = server.resource_mut(id).unwrap();
    let first = resource.stream_receiver();
    let second = resource.stream_receiver();
    let third = resource.stream_receiver();
    let fourth = resource.stream_receiver();
    drop(first);
    drop(second);
    drop(fourth);

    resource.send("still here");

    assert_eq!(resource.open_connections_count(), 1);
    assert_eq!(third.recv().unwrap(), "still here");
}
