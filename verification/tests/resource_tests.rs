use http_test_server::http::{Method, Status};
use http_test_server::resource::{Resource, RequestParameters};
use std::time::Duration;

type Generator = fn(RequestParameters) -> String;

fn resource(uri: &str) -> Resource<Generator> {
    Resource::new(uri).unwrap()
}

#[test]
fn should_convert_to_response_string() {
    let mut resource = resource("/");
    resource.status(Status::NotFound);

    assert_eq!(resource.build_response("/"), "HTTP/1.1 404 Not Found\r\n\r\n");
}

#[test]
fn should_convert_to_response_with_body() {
    let mut resource = resource("/");
    resource.status(Status::Accepted).body("hello!").unwrap();

    assert_eq!(resource.build_response("/"), "HTTP/1.1 202 Accepted\r\n\r\nhello!");
}

#[test]
fn should_allows_custom_status() {
    let mut resource = resource("/");
    resource.custom_status(666, "The Number Of The Beast").body("hello!").unwrap();

    assert_eq!(resource.build_response("/"), "HTTP/1.1 666 The Number Of The Beast\r\n\r\nhello!");
}

#[test]
fn should_overwrite_custom_status_with_status() {
    let mut resource = resource("/");
    resource.custom_status(666, "The Number Of The Beast").status(Status::Forbidden).body("hello!").unwrap();

    assert_eq!(resource.build_response("/"), "HTTP/1.1 403 Forbidden\r\n\r\nhello!");
}

#[test]
fn should_add_headers() {
    let mut resource = resource("/");
    resource
        .header("Content-Type", "application/json")
        .body("hello!")
        .unwrap();

    assert_eq!(resource.build_response("/"), "HTTP/1.1 200 Ok\r\nContent-Type: application/json\r\n\r\nhello!");
}

#[test]
fn should_append_headers() {
    let mut resource = resource("/");
    resource
        .header("Content-Type", "application/json")
        .header("Connection", "Keep-Alive")
        .body("hello!")
        .unwrap();

    let response = resource.build_response("/");

    assert!(response.contains("Content-Type: application/json\r\n"));
    assert!(response.contains("Connection: Keep-Alive\r\n"));
}

#[test]
fn resource_should_increment_request_count() {
    let mut resource = resource("/");
    resource.body("hello!").unwrap();

    resource.increment_request_count();
    resource.increment_request_count();
    resource.increment_request_count();

    assert_eq!(resource.request_count(), 3);
}

#[test]
fn should_set_as_stream() {
    let mut resource = resource("/");

    resource.stream().status(Status::Accepted);

    assert!(resource.is_stream());
}

#[test]
fn should_notify_data() {
    let mut resource = resource("/");

    let receiver = resource.stream_receiver();
    resource.send("some data").send("some data");

    assert_eq!(receiver.recv().unwrap(), "some data");
    assert_eq!(receiver.recv().unwrap(), "some data");
}

#[test]
fn should_close_connections() {
    let mut resource = resource("/");
    let receiver = resource.stream_receiver();

    resource.send("some data");
    resource.send("some data");
    resource.close_open_connections();

    let mut string = String::new();

    for data in receiver.iter() {
        string = string + &data;
    }

    assert_eq!(string, "some datasome data");
}

#[test]
fn should_return_number_of_connecteds_users() {
    let mut resource = resource("/");
    let _receiver = resource.stream_receiver();
    let _receiver_2 = resource.stream_receiver();

    assert_eq!(resource.open_connections_count(), 2);
}

#[test]
fn should_decrease_count_when_receiver_dropped() {
    let mut resource = resource("/");
    resource.stream_receiver();

    resource.send("some data");

    assert_eq!(resource.open_connections_count(), 0);
}

#[test]
fn should_send_data_with_line_break() {
    let mut resource = resource("/");

    let receiver = resource.stream_receiver();
    resource.send_line("some data").send_line("again");

    assert_eq!(receiver.recv().unwrap(), "some data\n");
    assert_eq!(receiver.recv().unwrap(), "again\n");
}

#[test]
fn should_set_delay() {
    let mut resource = resource("/");
    resource.delay(Duration::from_millis(200));

    assert_eq!(resource.get_delay(), Some(Duration::from_millis(200)));
}

#[test]
fn should_match_uri() {
    let resource = resource("/some-endpoint");
    assert!(resource.matches_uri("/some-endpoint"));
}

#[test]
fn should_not_match_uri_when_uri_does_not_match() {
    let resource = resource("/some-endpoint");
    assert!(!resource.matches_uri("/some-other-endpoint"));
}

#[test]
fn should_match_uri_with_path_params() {
    let resource = resource("/endpoint/{param1}/some/{param2}");
    assert!(resource.matches_uri("/endpoint/123/some/abc"));
    assert!(resource.matches_uri("/endpoint/123-345/some/abc"));
}

#[test]
fn should_not_match_uri_with_path_params_when_uri_does_not_match() {
    let resource = resource("/endpoint/{param1}/some/{param2}");
    assert!(!resource.matches_uri("/endpoint/123/some/"));
}

#[test]
fn should_match_uri_with_query_params() {
    let resource = resource("/endpoint?userId=123");
    assert!(resource.matches_uri("/endpoint?userId=123"));
}

#[test]
fn should_not_match_uri_with_wrong_query_parameter() {
    let resource = resource("/endpoint?userId=123");
    assert!(!resource.matches_uri("/endpoint?userId=abc"));
}

#[test]
fn should_match_uri_with_multiple_query_params() {
    let resource = resource("/endpoint?userId=123&hello=abc");
    assert!(resource.matches_uri("/endpoint?userId=123&hello=abc"));
}

#[test]
fn should_match_uri_with_wildcard_query_params() {
    let resource = resource("/endpoint?userId=123&collectionId=*");
    assert!(resource.matches_uri("/endpoint?userId=123&collectionId=banana"));
}

#[test]
fn should_match_uri_with_query_params_in_different_order() {
    let resource = resource("/endpoint?hello=abc&userId=123");
    assert!(resource.matches_uri("/endpoint?userId=123&hello=abc"));
}

#[test]
fn should_not_match_uri_when_one_query_param_is_wrong() {
    let resource = resource("/endpoint?userId=123&hello=abc");
    assert!(!resource.matches_uri("/endpoint?userId=123&hello=bbc"));
}

#[test]
fn should_match_uri_with_query_params_defined_through_method() {
    let mut resource = resource("/endpoint");
    resource.query("hello", "abc").query("userId", "123");
    assert!(resource.matches_uri("/endpoint?userId=123&hello=abc"));
}

#[test]
fn should_match_uri_with_wildcard_query_params_defined_through_method() {
    let mut resource = resource("/endpoint");
    resource.query("hello", "*");
    assert!(resource.matches_uri("/endpoint?hello=1234"));
}

#[test]
fn should_build_response() {
    let mut resource = resource("/");
    resource.status(Status::NotFound);

    assert_eq!(resource.build_response("/"), "HTTP/1.1 404 Not Found\r\n\r\n");
}

#[test]
fn should_build_response_with_body() {
    let mut resource = resource("/");
    resource.status(Status::Accepted).body("hello!").unwrap();

    assert_eq!(resource.build_response("/"), "HTTP/1.1 202 Accepted\r\n\r\nhello!");
}

#[test]
fn should_build_response_with_path_parameters() {
    let mut resource = resource("/endpoint/{param1}/{param2}");
    resource.status(Status::Accepted).body("Hello: {path.param2} {path.param1}").unwrap();

    assert_eq!(resource.build_response("/endpoint/123/abc"), "HTTP/1.1 202 Accepted\r\n\r\nHello: abc 123");
}

#[test]
fn should_build_response_with_query_parameters() {
    let mut resource = resource("/endpoint/{param1}?param2=111");
    resource.status(Status::Accepted).body("Hello: {query.param2} {path.param1}").unwrap();

    assert_eq!(resource.build_response("/endpoint/123?param2=111"), "HTTP/1.1 202 Accepted\r\n\r\nHello: 111 123");
}

#[test]
fn should_build_response_with_wildcard_query_parameters() {
    let mut resource = resource("/endpoint/{param1}?param2=111&param3=*");
    resource.status(Status::Accepted).body("Hello: {query.param3}").unwrap();

    assert_eq!(resource.build_response("/endpoint/123?param2=111&param3=banana"), "HTTP/1.1 202 Accepted\r\n\r\nHello: banana");
}

#[test]
fn should_build_response_using_body_fn() {
    let mut resource = resource("/endpoint/{param1}/{param2}");
    let builder: Generator = |params| {
        format!("Hello: {} {}", params.path.get("param2").unwrap(), params.path.get("param1").unwrap())
    };
    resource.status(Status::Accepted).body_fn(builder).unwrap();

    assert_eq!(resource.build_response("/endpoint/123/abc"), "HTTP/1.1 202 Accepted\r\n\r\nHello: abc 123");
}

#[test]
#[should_panic(expected = "You can't define 'body_fn' when 'body' is already defined")]
fn should_fail_when_trying_to_define_body_fn_after_defining_body() {
    let mut resource = resource("/endpoint/{param1}/{param2}");
    resource.body("some body").unwrap();
    let builder: Generator = |_params| String::from("");
    if let Err(e) = resource.body_fn(builder) {
        panic!("{}", e.message());
    }
}

#[test]
#[should_panic(expected = "You can't define 'body' when 'body_fn' is already defined")]
fn should_fail_when_trying_to_define_body_after_defining_body_fn() {
    let mut resource = resource("/endpoint/{param1}/{param2}");
    let builder: Generator = |_params| String::from("");
    resource.body_fn(builder).unwrap();
    if let Err(e) = resource.body("some body") {
        panic!("{}", e.message());
    }
}

#[test]
fn method_equal_is_case_sensitive() {
    assert!(Method::POST.equal("POST"));
    assert!(!Method::POST.equal("post"));
    assert!(!Method::POST.equal("GET"));
}
