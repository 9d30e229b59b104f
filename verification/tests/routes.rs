use static_routes::fallible::{adapt_result, thing_that_might_fail, thing_that_might_fail_with};
use static_routes::json::Address;
use static_routes::response::Method;
use static_routes::routes::{
    default_address, dispatch, foo_bar, get_foo, handle_request, json, plain_text, post_foo, root,
};
use static_routes::strutil::str_eq;

const TEXT_PLAIN: &str = "text/plain; charset=utf-8";

#[test]
fn root_returns_hello() {
    let r = dispatch(Method::Get, "/", false).unwrap();
    assert_eq!(r.status, 200);
    assert_eq!(r.content_type, TEXT_PLAIN);
    assert_eq!(r.body, "hello");
}

#[test]
fn foo_handles_get_and_post() {
    let g = dispatch(Method::Get, "/foo", false).unwrap();
    assert_eq!(g.status, 200);
    assert_eq!(g.body, "foo");
    let p = dispatch(Method::Post, "/foo", false).unwrap();
    assert_eq!(p.status, 200);
    assert_eq!(p.body, "post_foo");
}

#[test]
fn nested_path_returns_foo_bar() {
    let r = dispatch(Method::Get, "/foo/bar", false).unwrap();
    assert_eq!(r.status, 200);
    assert_eq!(r.body, "foo_bar");
}

#[test]
fn plain_text_route_returns_foo() {
    let r = dispatch(Method::Get, "/plain_text", false).unwrap();
    assert_eq!(r.status, 200);
    assert_eq!(r.content_type, TEXT_PLAIN);
    assert_eq!(r.body, "foo");
}

#[test]
fn handler_bodies_are_the_fixed_literals() {
    assert_eq!(root(), "hello");
    assert_eq!(get_foo(), "foo");
    assert_eq!(post_foo(), "post_foo");
    assert_eq!(foo_bar(), "foo_bar");
    assert_eq!(plain_text(), "foo");
}

#[test]
fn json_route_round_trips_to_the_literal_fields() {
    let r = dispatch(Method::Get, "/json", false).unwrap();
    assert_eq!(r.status, 200);
    assert_eq!(r.content_type, "application/json");
    assert_eq!(r.body, "{\"street\":\"10 Downing Street\",\"city\":\"London\"}");
    let v: serde_json::Value = serde_json::from_str(&r.body).unwrap();
    assert_eq!(v["street"].as_str().unwrap(), "10 Downing Street");
    assert_eq!(v["city"].as_str().unwrap(), "London");
}

#[test]
fn json_handler_serves_the_default_address() {
    let a = default_address();
    assert_eq!(a.street, "10 Downing Street");
    assert_eq!(a.city, "London");
    let r = json();
    assert_eq!(r.body, a.to_json());
}

#[test]
fn json_escapes_special_characters() {
    let a = Address {
        street: String::from("a\"b\\c\nd"),
        city: String::from("x\u{1}y\tz"),
    };
    let j = a.to_json();
    assert_eq!(j, "{\"street\":\"a\\\"b\\\\c\\nd\",\"city\":\"x\\u0001y\\tz\"}");
    let v: serde_json::Value = serde_json::from_str(&j).unwrap();
    assert_eq!(v["street"].as_str().unwrap(), "a\"b\\c\nd");
    assert_eq!(v["city"].as_str().unwrap(), "x\u{1}y\tz");
}

#[test]
fn fallible_outcomes_are_fixed_by_the_draw() {
    assert_eq!(thing_that_might_fail_with(false).unwrap(), "Success");
    assert_eq!(thing_that_might_fail_with(true).unwrap_err(), "Function failed");
}

#[test]
fn adapter_passes_success_through_and_converts_failure() {
    let ok = adapt_result(Ok(String::from("Success")));
    assert_eq!(ok.status, 200);
    assert_eq!(ok.body, "Success");
    assert_eq!(ok.content_type, TEXT_PLAIN);
    let e = adapt_result(Err(String::from("Function failed")));
    assert_eq!(e.status, 500);
    assert_eq!(e.body, "Something went wrong: Function failed");
    assert_eq!(e.content_type, TEXT_PLAIN);
}

#[test]
fn random_fallible_computation_reaches_both_outcomes() {
    let mut ok: u32 = 0;
    let mut err: u32 = 0;
    for _ in 0..1000 {
        match thing_that_might_fail() {
            Ok(s) => {
                assert_eq!(s, "Success");
                ok += 1;
            }
            Err(e) => {
                assert_eq!(e, "Function failed");
                err += 1;
            }
        }
    }
    assert!(ok > 0);
    assert!(err > 0);
}

#[test]
fn error_route_reaches_both_outcomes() {
    let mut ok: u32 = 0;
    let mut err: u32 = 0;
    for _ in 0..1000 {
        let r = handle_request(Method::Get, "/error").unwrap();
        if r.status == 200 {
            assert_eq!(r.body, "Success");
            ok += 1;
        } else {
            assert_eq!(r.status, 500);
            assert_eq!(r.body, "Something went wrong: Function failed");
            err += 1;
        }
        assert_eq!(r.content_type, TEXT_PLAIN);
    }
    assert!(ok > 0);
    assert!(err > 0);
}

#[test]
fn unmatched_requests_get_no_route() {
    assert!(dispatch(Method::Get, "/nope", false).is_none());
    assert!(dispatch(Method::Get, "", false).is_none());
    assert!(dispatch(Method::Get, "/foo/", false).is_none());
    assert!(dispatch(Method::Post, "/", false).is_none());
    assert!(dispatch(Method::Post, "/foo/bar", false).is_none());
    assert!(dispatch(Method::Post, "/plain_text", false).is_none());
    assert!(dispatch(Method::Post, "/json", false).is_none());
    assert!(dispatch(Method::Post, "/error", false).is_none());
    assert!(handle_request(Method::Post, "/nope").is_none());
}

#[test]
fn repeated_calls_agree_on_static_routes() {
    let paths = ["/", "/foo", "/foo/bar", "/plain_text", "/json"];
    for path in paths {
        let a = handle_request(Method::Get, path).unwrap();
        for _ in 0..10 {
            let b = handle_request(Method::Get, path).unwrap();
            assert_eq!(a.status, b.status);
            assert_eq!(a.content_type, b.content_type);
            assert_eq!(a.body, b.body);
        }
    }
}

#[test]
fn str_eq_agrees_with_string_equality() {
    assert!(str_eq("", ""));
    assert!(str_eq("/foo", "/foo"));
    assert!(!str_eq("/foo", "/foo/bar"));
    assert!(!str_eq("/foo", "/fop"));
    assert!(str_eq("日本語", "日本語"));
    assert!(!str_eq("日本語", "日本誤"));
}
