use api::routing::{hello_body, route, Method};

#[test]
fn get_root_serves_the_fixed_body() {
    let response = route(Method::Get, "/");
    assert_eq!(response.status, 200);
    assert_eq!(response.body, "Hello from Rust REST API!");
}

#[test]
fn repeated_requests_get_the_same_response() {
    let first = route(Method::Get, "/");
    let second = route(Method::Get, "/");
    let third = route(Method::Get, "/");
    assert_eq!(first.status, second.status);
    assert_eq!(second.status, third.status);
    assert_eq!(first.body, second.body);
    assert_eq!(second.body, third.body);
    assert_eq!(third.status, 200);
    assert_eq!(third.body, "Hello from Rust REST API!");
}

#[test]
fn other_methods_at_root_do_not_get_the_fixed_body() {
    for method in [
        Method::Head,
        Method::Post,
        Method::Put,
        Method::Delete,
        Method::Connect,
        Method::Options,
        Method::Trace,
        Method::Patch,
    ] {
        let response = route(method, "/");
        assert_eq!(response.status, 405);
        assert_eq!(response.body, "");
    }
}

#[test]
fn other_paths_do_not_get_the_fixed_body() {
    let response = route(Method::Get, "/hello");
    assert_eq!(response.status, 404);
    assert_eq!(response.body, "");

    let response = route(Method::Get, "");
    assert_eq!(response.status, 404);
    assert_eq!(response.body, "");

    let response = route(Method::Post, "/api/v1/things");
    assert_eq!(response.status, 404);
    assert_eq!(response.body, "");

    let response = route(Method::Get, "//");
    assert_eq!(response.status, 404);
    assert_eq!(response.body, "");
}

#[test]
fn hello_body_is_the_fixed_text() {
    assert_eq!(hello_body(), "Hello from Rust REST API!");
}
