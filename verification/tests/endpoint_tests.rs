use apiai_shared::endpoint::{app_id_for, cancel_endpoint, secure_endpoint};
use apiai_shared::get_app_id;

#[test]
fn query_endpoint_becomes_secure_endpoint() {
    assert_eq!(secure_endpoint("http://host/ai_query"), "http://host/ai_query/secure");
}

#[test]
fn echo_endpoint_is_used_as_it_is() {
    assert_eq!(secure_endpoint("http://host/echo"), "http://host/echo");
    assert_eq!(secure_endpoint("http://host:8000/api/echo"), "http://host:8000/api/echo");
}

#[test]
fn other_base_gets_the_secure_suffix() {
    assert_eq!(secure_endpoint("http://host"), "http://host/ai_query/secure");
    assert_eq!(secure_endpoint("http://host:8000/api"), "http://host:8000/api/ai_query/secure");
    assert_eq!(secure_endpoint("http://host/echo2"), "http://host/echo2/ai_query/secure");
    assert_eq!(secure_endpoint("http://host/my_ai_query"), "http://host/my_ai_query/ai_query/secure");
}

#[test]
fn trailing_slashes_are_dropped_first() {
    assert_eq!(secure_endpoint("http://host/"), "http://host/ai_query/secure");
    assert_eq!(secure_endpoint("http://host/ai_query///"), "http://host/ai_query/secure");
    assert_eq!(secure_endpoint("http://host/echo/"), "http://host/echo");
}

#[test]
fn empty_base_gets_the_secure_suffix() {
    assert_eq!(secure_endpoint(""), "/ai_query/secure");
    assert_eq!(secure_endpoint("///"), "/ai_query/secure");
}

#[test]
fn bare_suffixes_are_recognized() {
    assert_eq!(secure_endpoint("/echo"), "/echo");
    assert_eq!(secure_endpoint("/ai_query"), "/ai_query/secure");
    assert_eq!(secure_endpoint("echo"), "echo/ai_query/secure");
}

#[test]
fn only_the_suffix_is_rewritten() {
    assert_eq!(
        secure_endpoint("http://host/ai_query/v2/ai_query"),
        "http://host/ai_query/v2/ai_query/secure"
    );
    assert_eq!(
        cancel_endpoint("http://host/ai_query/v2/ai_query"),
        "http://host/ai_query/v2/cancel_request"
    );
}

#[test]
fn rewriting_an_echo_endpoint_twice_changes_nothing() {
    for url in ["http://host/echo", "http://host/echo//", "/echo"] {
        let once = secure_endpoint(url);
        assert_eq!(secure_endpoint(&once), once);
    }
}

#[test]
fn rewriting_another_endpoint_twice_stacks_the_suffix() {
    for url in ["http://host/ai_query", "http://host", ""] {
        let once = secure_endpoint(url);
        assert_eq!(secure_endpoint(&once), format!("{}/ai_query/secure", once));
    }
}

#[test]
fn non_ascii_urls_are_kept() {
    assert_eq!(secure_endpoint("http://хост/путь/"), "http://хост/путь/ai_query/secure");
    assert_eq!(cancel_endpoint("http://хост/ai_query"), "http://хост/cancel_request");
}

#[test]
fn cancel_endpoint_replaces_the_query_suffix() {
    assert_eq!(cancel_endpoint("http://host/ai_query"), "http://host/cancel_request");
    assert_eq!(cancel_endpoint("http://host/ai_query/"), "http://host/cancel_request");
}

#[test]
fn cancel_endpoint_is_appended_elsewhere() {
    assert_eq!(cancel_endpoint("http://host"), "http://host/cancel_request");
    assert_eq!(cancel_endpoint("http://host/"), "http://host/cancel_request");
    assert_eq!(cancel_endpoint("http://host/echo"), "http://host/echo/cancel_request");
    assert_eq!(
        cancel_endpoint("http://host/ai_query/secure"),
        "http://host/ai_query/secure/cancel_request"
    );
    assert_eq!(cancel_endpoint(""), "/cancel_request");
}

#[test]
fn app_id_takes_the_major_version() {
    assert_eq!(app_id_for("2.1.1"), "apiai-v2");
    assert_eq!(app_id_for("10.0.3"), "apiai-v10");
    assert_eq!(app_id_for("3"), "apiai-v3");
    assert_eq!(app_id_for("1.0.0-beta.2"), "apiai-v1");
}

#[test]
fn app_id_of_odd_versions() {
    assert_eq!(app_id_for(""), "apiai-v");
    assert_eq!(app_id_for(".5"), "apiai-v");
    assert_eq!(app_id_for("v7.1"), "apiai-vv7");
}

#[test]
fn this_client_is_version_two() {
    assert_eq!(get_app_id(), "apiai-v2");
}
