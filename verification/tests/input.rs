use finchers::context::{ApplyContext, TaskContext};
use finchers::endpoint::query::{query, query_opt};
use finchers::endpoint::path_seq::{path as element, path_seq, path_vec, PathConst};
use finchers::endpoint::syntax::{eos, param, remains, segment, MatchSegmentAction};
use finchers::endpoint::{Endpoint, IntoEndpointExt};
use finchers::error::{bad_request, internal_server_error, no_route, Error, StatusCode};
use finchers::headers::Headers;
use finchers::input::{decode_segment, split_path, Input, Method};
use finchers::local;
use finchers::output::redirect::Redirect;
use finchers::output::{text_response, Output, Response};
use finchers::rt::app::{finalize, handle_error};
use finchers::task::{Async, PollTask};
use finchers::text::{decimal, is_space, split, trim};

/// Whether a run ended with a value.
fn gave_a_value<T>(outcome: PollTask<T>) -> bool {
    matches!(outcome, Ok(Async::Ready(_)))
}

fn segments(path: &str) -> Vec<String> {
    Input::new(Method::Get, path).segments().clone()
}

#[test]
fn test_path_is_split_into_segments() {
    assert_eq!(segments("/foo/bar"), vec!["foo", "bar"]);
    assert_eq!(segments("/foo"), vec!["foo"]);
    // a slash in front opens no segment
    assert_eq!(segments("/"), Vec::<String>::new());
    assert_eq!(segments(""), Vec::<String>::new());
    assert_eq!(segments("foo/bar"), vec!["foo", "bar"]);
    // two slashes in a row enclose an empty segment
    assert_eq!(segments("/foo//bar"), vec!["foo", "", "bar"]);
    assert_eq!(segments("//foo"), vec!["", "foo"]);
    // a slash at the end closes the last segment
    assert_eq!(segments("/foo/"), vec!["foo"]);
    assert_eq!(segments("/foo//"), vec!["foo", ""]);
    assert_eq!(split_path("/a/b/c"), vec!["a", "b", "c"]);
}

#[test]
fn test_segments_are_percent_decoded() {
    assert_eq!(segments("/foo%20bar/%E3%81%82"), vec!["foo bar", "\u{3042}"]);
    assert_eq!(segments("/a%2Fb/c"), vec!["a/b", "c"]);
    assert_eq!(decode_segment("%41%62%7a"), "Abz");
    // a percent sign without two hexadecimal digits stays
    assert_eq!(decode_segment("100%"), "100%");
    assert_eq!(decode_segment("%zz%4"), "%zz%4");
    assert_eq!(decode_segment("%%41"), "%A");
    // bytes that are no UTF-8 leave the segment as it was written
    assert_eq!(decode_segment("%ff"), "%ff");
    assert_eq!(decode_segment("caf%C3%A9"), "caf\u{e9}");
    assert_eq!(decode_segment(""), "");
}

#[test]
fn test_literal_matches_the_decoded_segment() {
    assert!(gave_a_value(local::get("/foo%20bar").apply(segment("foo bar"))));
    assert!(local::get("/foo%20bar").apply(segment("foo%20bar")).is_err());
    assert!(local::get("/Foo").apply(segment("foo")).is_err());
    assert!(local::get("/foo").apply(segment("fo")).is_err());
    // an empty segment is a segment: a literal does not step over it
    assert!(local::get("/foo//bar")
        .apply(segment("foo").and(segment("bar")))
        .is_err());
    assert!(gave_a_value(
        local::get("/foo//bar").apply(segment("foo").and(segment("")).and(segment("bar")))
    ));
}

#[test]
fn test_literal_moves_the_cursor_by_one_or_not_at_all() {
    let cx = TaskContext::new(Input::new(Method::Get, "/foo/bar"));
    let mut cx = ApplyContext::new(cx);
    assert_eq!(cx.position(), 0);
    assert_eq!(cx.remaining(), 2);

    assert!(segment("bar").apply(&mut cx).is_none());
    assert_eq!(cx.position(), 0);
    assert!(segment("foo").apply(&mut cx).is_some());
    assert_eq!(cx.position(), 1);
    assert!(segment("foo").apply(&mut cx).is_none());
    assert_eq!(cx.position(), 1);
    assert!(eos().apply(&mut cx).is_none());
    assert_eq!(cx.position(), 1);
    assert_eq!(cx.peek().map(|s| s.as_str()), Some("bar"));
    assert!(segment("bar").apply(&mut cx).is_some());
    assert_eq!(cx.position(), 2);
    assert!(segment("bar").apply(&mut cx).is_none());
    assert_eq!(cx.position(), 2);
    assert!(eos().apply(&mut cx).is_some());
    assert_eq!(cx.position(), 2);
    assert!(cx.peek().is_none());

    let action = MatchSegmentAction { literal: "x".to_owned() };
    assert_eq!(action.apply(&mut cx).err().map(|s| s.as_u16()), Some(404));
}

#[test]
fn test_cursor_can_be_saved_and_put_back() {
    let cx = TaskContext::new(Input::new(Method::Get, "/a/b/c"));
    let mut cx = ApplyContext::new(cx);
    let start = cx.cursor();
    cx.advance(2);
    assert_eq!(cx.position(), 2);
    assert_eq!(cx.segment(2), "c");
    cx.advance(5);
    assert_eq!(cx.position(), 3);
    assert_eq!(cx.remaining(), 0);
    cx.reset(start);
    assert_eq!(cx.position(), 0);
    assert_eq!(cx.input().path(), "/a/b/c");
    let cx = cx.into_context();
    assert!(!cx.is_ended());
    assert_eq!(cx.into_input().segment_count(), 3);
}

#[test]
fn test_extractor_consumes_one_segment_or_all() {
    let cx = TaskContext::new(Input::new(Method::Get, "/1/x/3/y"));
    let mut cx = ApplyContext::new(cx);
    assert!(param::<u8>().apply(&mut cx).is_some());
    assert_eq!(cx.position(), 1);
    // a segment that does not decode is consumed all the same
    assert!(param::<u8>().apply(&mut cx).is_none());
    assert_eq!(cx.position(), 2);
    // so is the rest of the path
    assert!(path_vec::<u8>().apply(&mut cx).is_none());
    assert_eq!(cx.position(), 4);
    assert!(path_vec::<String>().apply(&mut cx).is_some());
    assert_eq!(cx.position(), 4);
    assert!(path_seq::<Vec<u8>, u8>().apply(&mut cx).is_some());
    assert_eq!(cx.position(), 4);
    // at the end there is nothing to consume
    assert!(param::<u8>().apply(&mut cx).is_none());
    assert_eq!(cx.position(), 4);

    let cx = TaskContext::new(Input::new(Method::Get, "/1/2/3"));
    let mut cx = ApplyContext::new(cx);
    assert!(param::<String>().apply(&mut cx).is_some());
    assert_eq!(cx.position(), 1);
    assert!(path_vec::<u8>().apply(&mut cx).is_some());
    assert_eq!(cx.position(), 3);
}

#[test]
fn test_segment_action_declines_what_does_not_decode() {
    let cx = TaskContext::new(Input::new(Method::Get, "/abc/7"));
    let mut cx = ApplyContext::new(cx);
    let failure = param::<u8>().action().apply(&mut cx).err().unwrap();
    assert_eq!(failure.status_code().as_u16(), 404);
    assert_eq!(failure.message(), no_route().message());
    assert_eq!(cx.position(), 1);
    assert_eq!(param::<u8>().action().apply(&mut cx).ok(), Some((7u8,)));
    assert_eq!(cx.position(), 2);
    // no segment is left: the same decline, and the cursor stays at the end
    let failure = param::<u8>().action().apply(&mut cx).err().unwrap();
    assert_eq!(failure.status_code().as_u16(), 404);
    assert_eq!(failure.message(), no_route().message());
    assert_eq!(cx.position(), 2);
}

#[test]
fn test_rest_action_ends_at_the_end_of_the_path() {
    let cx = TaskContext::new(Input::new(Method::Get, "/1/x/3"));
    let mut cx = ApplyContext::new(cx);
    let failure = remains::<u8>().action().apply(&mut cx).err().unwrap();
    assert_eq!(failure.status_code().as_u16(), 404);
    assert_eq!(failure.message(), no_route().message());
    assert_eq!(cx.position(), 3);

    let cx = TaskContext::new(Input::new(Method::Get, "/1/2/3"));
    let mut cx = ApplyContext::new(cx);
    cx.advance(2);
    assert_eq!(remains::<u8>().action().apply(&mut cx).ok(), Some((3u8,)));
    assert_eq!(cx.position(), 3);

    let cx = TaskContext::new(Input::new(Method::Get, "/a/b/c"));
    let mut cx = ApplyContext::new(cx);
    cx.advance(1);
    assert_eq!(
        remains::<String>().action().apply(&mut cx).ok(),
        Some(("b/c".to_owned(),))
    );
    assert_eq!(cx.position(), 3);

    let cx = TaskContext::new(Input::new(Method::Get, "/a/x"));
    let mut cx = ApplyContext::new(cx);
    assert!(remains::<u16>().apply(&mut cx).is_none());
    assert_eq!(cx.position(), 2);
}

#[test]
fn test_header_names_ignore_the_case_of_letters() {
    let mut headers = Headers::new();
    assert!(headers.append("Content-Type", "text/plain"));
    assert!(headers.append("X-Id", "1"));
    assert_eq!(headers.get("content-type").map(|v| v.as_str()), Some("text/plain"));
    assert_eq!(headers.get("CONTENT-TYPE").map(|v| v.as_str()), Some("text/plain"));
    assert!(headers.contains_key("x-id"));
    assert!(!headers.contains_key("x_id"));
    assert!(!headers.contains_key("x-i"));
    // only the letters from A to Z have a second form
    assert!(!headers.contains_key("X\rId"));
    assert!(headers.append("a`b", "3"));
    assert!(headers.contains_key("A`B"));
    assert!(!headers.contains_key("a@b"));
    assert!(headers.append("a^b", "4"));
    assert!(!headers.contains_key("a~b"));
    headers.or_insert("x-ID", "2");
    assert_eq!(headers.keys_len(), 4);
    assert_eq!(headers.get("X-ID").map(|v| v.as_str()), Some("1"));
    assert!(headers.insert("CONTENT-type", "text/html"));
    assert_eq!(headers.keys_len(), 4);
    assert_eq!(
        headers.fields(),
        vec![
            ("content-type".to_owned(), "text/html".to_owned()),
            ("x-id".to_owned(), "1".to_owned()),
            ("a`b".to_owned(), "3".to_owned()),
            ("a^b".to_owned(), "4".to_owned()),
        ]
    );
    assert_eq!(headers.get("Content-Type").map(|v| v.as_str()), Some("text/html"));

    let input = Input::new(Method::Post, "/").with_header("Content-Type", "application/json");
    let found = input.content_type().unwrap().unwrap();
    assert_eq!(found.subtype, "json");
    // the names of a query are taken as they are written
    let input = Input::new(Method::Get, "/").with_query("Count=1");
    assert_eq!(input.query_value("count"), None);
    assert_eq!(input.query_value("Count"), Some("1".to_owned()));
}

#[test]
fn test_path_elements_by_type() {
    assert!(matches!(
        local::get("/5").apply(element::<u16>()),
        Ok(Async::Ready((5u16,)))
    ));
    assert!(matches!(
        local::get("/-5").apply(<i16 as PathConst>::path_const()),
        Ok(Async::Ready((-5i16,)))
    ));
    assert!(local::get("/x").apply(u32::path_const()).is_err());
    match local::get("/x").apply(String::path_const()) {
        Ok(Async::Ready((text,))) => assert_eq!(text, "x"),
        _ => panic!("assertion failed"),
    }
    match local::get("/").apply(path_vec::<u8>()) {
        Ok(Async::Ready((values,))) => assert!(values.is_empty()),
        _ => panic!("assertion failed"),
    }
}

#[test]
fn test_query_values() {
    let input = Input::new(Method::Get, "/").with_query("a=1&b=&c&a=2&=x");
    assert_eq!(input.query_value("a").as_deref(), Some("1"));
    assert_eq!(input.query_value("b").as_deref(), Some(""));
    assert_eq!(input.query_value("c").as_deref(), Some(""));
    assert_eq!(input.query_value("").as_deref(), Some("x"));
    assert_eq!(input.query_value("d"), None);
    assert_eq!(Input::new(Method::Get, "/").query_value("a"), None);

    assert!(matches!(
        local::get("/?count=3").apply(query::<u8>("count")),
        Ok(Async::Ready((3u8,)))
    ));
    assert!(local::get("/?count=x").apply(query::<u8>("count")).is_err());
    assert!(local::get("/").apply(query::<u8>("count")).is_err());
    assert!(matches!(
        local::get("/?count=3").apply(query_opt::<u8>("count")),
        Ok(Async::Ready((Some(3u8),)))
    ));
    assert!(matches!(
        local::get("/?other=3").apply(query_opt::<u8>("count")),
        Ok(Async::Ready((None,)))
    ));
    assert!(local::get("/?count=x").apply(query_opt::<u8>("count")).is_err());
}

#[test]
fn test_header_fields() {
    let mut headers = Headers::new();
    assert_eq!(headers.keys_len(), 0);
    assert!(headers.fields().is_empty());
    headers.append("a", "1");
    headers.append("b", "2");
    headers.append("a", "3");
    assert_eq!(headers.keys_len(), 2);
    assert_eq!(
        headers.fields(),
        vec![
            ("a".to_owned(), "1".to_owned()),
            ("a".to_owned(), "3".to_owned()),
            ("b".to_owned(), "2".to_owned()),
        ]
    );
    assert_eq!(headers.get("a").map(|v| v.as_str()), Some("1"));
    assert_eq!(headers.get("c"), None);
    assert!(headers.contains_key("b"));
    headers.or_insert("b", "9");
    headers.or_insert("c", "4");
    assert_eq!(headers.get("b").map(|v| v.as_str()), Some("2"));
    assert_eq!(headers.get("c").map(|v| v.as_str()), Some("4"));
    headers.insert("a", "5");
    assert_eq!(
        headers.fields(),
        vec![
            ("a".to_owned(), "5".to_owned()),
            ("b".to_owned(), "2".to_owned()),
            ("c".to_owned(), "4".to_owned()),
        ]
    );
    let copy = headers.duplicate();
    assert_eq!(copy.fields(), headers.fields());
    let mut fields = Headers::new();
    finchers::rt::test::or_insert(&mut fields, "x", "1");
    finchers::rt::test::or_insert(&mut fields, "x", "2");
    assert_eq!(fields.fields(), vec![("x".to_owned(), "1".to_owned())]);
}

#[test]
fn test_a_field_takes_the_place_of_all_fields_of_its_name() {
    let mut headers = Headers::new();
    for (name, value) in [
        ("a", "1"),
        ("b", "1"),
        ("a", "2"),
        ("b", "2"),
        ("a", "3"),
        ("c", "1"),
        ("a", "4"),
        ("b", "3"),
    ] {
        assert!(headers.append(name, value));
    }
    let listed = |headers: &Headers| -> Vec<String> {
        headers.fields().iter().map(|(name, value)| format!("{}={}", name, value)).collect()
    };
    assert_eq!(listed(&headers), ["a=1", "a=2", "a=3", "a=4", "b=1", "b=2", "b=3", "c=1"]);
    assert_eq!(headers.get("a").map(|v| v.as_str()), Some("1"));
    assert!(headers.insert("A", "9"));
    assert_eq!(listed(&headers), ["a=9", "b=1", "b=2", "b=3", "c=1"]);
    assert!(headers.insert("b", "8"));
    assert_eq!(listed(&headers), ["a=9", "b=8", "c=1"]);
    assert!(headers.append("B", "7"));
    assert!(headers.insert("d", "1"));
    assert_eq!(listed(&headers), ["a=9", "b=8", "b=7", "c=1", "d=1"]);
    assert_eq!(headers.get("b").map(|v| v.as_str()), Some("8"));
    assert_eq!(listed(&headers.duplicate()), listed(&headers));
    assert_eq!(headers.keys_len(), 4);
}

#[test]
fn test_what_is_no_name_is_no_field() {
    let mut headers = Headers::new();
    for name in ["", "a b", "a:b", "a@b", "caf\u{e9}", "a\nb", "(a)", "a/b", "[a]", "a=b"] {
        assert!(!headers.append(name, "1"));
        assert!(!headers.insert(name, "1"));
        headers.or_insert(name, "1");
        assert!(!headers.contains_key(name));
        assert_eq!(headers.get(name), None);
    }
    assert_eq!(headers.keys_len(), 0);
    for name in ["a", "A-b", "x_y", "!#$%&'*+-.^_`|~", "0", "\"q\""] {
        assert!(headers.append(name, "1"));
        assert!(headers.contains_key(name));
    }
    assert_eq!(headers.keys_len(), 6);

    // a name has fewer than 65536 characters
    let longest = "a".repeat(65535);
    assert!(headers.append(&longest, "1"));
    assert!(headers.contains_key(&longest.to_uppercase()));
    let too_long = "a".repeat(65536);
    assert!(!headers.append(&too_long, "1"));
    assert!(!headers.insert(&too_long, "1"));
    assert!(!headers.contains_key(&too_long));
    assert_eq!(headers.get(&too_long), None);
    assert_eq!(headers.keys_len(), 7);
    // a long text that is no name
    let long_and_wrong = "a ".repeat(100);
    assert!(!headers.append(&long_and_wrong, "1"));
    assert!(!headers.contains_key(&long_and_wrong));
    let unusual = "\u{e9}".repeat(40000);
    assert!(!headers.append(&unusual, "1"));
    assert!(!headers.contains_key(&unusual));

    // a request leaves out a field that is none
    let input = Input::new(Method::Get, "/").with_header("a b", "1").with_header("ok", "2");
    assert_eq!(input.headers().fields(), vec![("ok".to_owned(), "2".to_owned())]);
}

#[test]
fn test_header_fields_hold_no_more_names_than_the_limit() {
    let mut headers = Headers::new();
    for i in 0..32768u32 {
        assert!(headers.append(&format!("n{}", i), "1"));
    }
    assert_eq!(headers.keys_len(), 32768);
    // one more name finds no room, a known name does
    assert!(!headers.append("one-more", "1"));
    assert!(!headers.insert("one-more", "1"));
    headers.or_insert("one-more", "1");
    assert!(!headers.contains_key("one-more"));
    assert!(headers.append("n7", "2"));
    assert!(headers.insert("N8", "3"));
    assert_eq!(headers.get("n7").map(|v| v.as_str()), Some("1"));
    assert_eq!(headers.get("n8").map(|v| v.as_str()), Some("3"));
    assert_eq!(headers.keys_len(), 32768);
    assert_eq!(headers.fields().len(), 32769);
}

#[test]
fn test_content_type() {
    let input = Input::new(Method::Post, "/").with_header("content-type", "text/plain; charset=utf-8");
    let media = input.content_type().unwrap().unwrap();
    assert_eq!(media.type_, "text");
    assert_eq!(media.subtype, "plain");
    assert_eq!(media.charset.as_deref(), Some("utf-8"));

    let input = Input::new(Method::Post, "/").with_header("content-type", "application/json");
    let media = input.content_type().unwrap().unwrap();
    assert_eq!(media.type_, "application");
    assert_eq!(media.subtype, "json");
    assert_eq!(media.charset, None);

    assert!(Input::new(Method::Post, "/").content_type().unwrap().is_none());
    let failure = Input::new(Method::Post, "/")
        .with_header("content-type", "not a media type")
        .content_type()
        .err()
        .unwrap();
    assert_eq!(failure.status_code().as_u16(), 400);
    assert_eq!(failure.message(), "invalid content type");
}

#[test]
fn test_status_codes_and_failures() {
    assert!(StatusCode::from_u16(99).is_none());
    assert!(StatusCode::from_u16(600).is_none());
    assert!(StatusCode::from_u16(1000).is_none());
    assert_eq!(StatusCode::from_u16(100).map(|s| s.as_u16()), Some(100));
    assert_eq!(StatusCode::from_u16(599).map(|s| s.as_u16()), Some(599));
    assert_eq!(StatusCode::from_u16(404), Some(StatusCode::not_found()));
    assert!(StatusCode::bad_request().is_client_error());
    assert!(StatusCode::internal_server_error().is_server_error());
    assert!(StatusCode::found().is_redirection());
    assert!(!StatusCode::ok().is_client_error());
    assert_eq!(StatusCode::switching_protocols().as_u16(), 101);
    assert_eq!(StatusCode::no_content().as_u16(), 204);

    let e = bad_request("Bar");
    assert_eq!(e.status_code().as_u16(), 400);
    assert_eq!(e.message(), "Bar");
    assert!(!e.is_noroute());
    let e = internal_server_error("boom");
    assert_eq!(e.status_code().as_u16(), 500);
    let e = no_route();
    assert!(e.is_noroute());
    assert_eq!(e.duplicate().message(), "no route");
    let e = Error::new(StatusCode::not_modified(), "same".to_owned());
    assert_eq!(e.status_code().as_u16(), 304);
}

#[test]
fn test_redirects() {
    let plain = Redirect::new(StatusCode::found());
    assert_eq!(plain.status.as_u16(), 302);
    assert_eq!(plain.location, None);
    let there = plain.location("/there");
    assert_eq!(there.location.as_deref(), Some("/there"));
    let response = there.into_response();
    assert_eq!(response.status.as_u16(), 302);
    assert_eq!(response.headers.get("location").map(|v| v.as_str()), Some("/there"));
    assert!(response.body.is_empty());

    assert_eq!(Redirect::not_modified().status.as_u16(), 304);
    assert_eq!(Redirect::not_modified().into_response().headers.keys_len(), 0);
    assert_eq!(Redirect::moved_permanently("/a").status.as_u16(), 301);
    assert_eq!(Redirect::found("/a").status.as_u16(), 302);
    assert_eq!(Redirect::see_other("/a").status.as_u16(), 303);
    assert_eq!(Redirect::temporary_redirect("/a").status.as_u16(), 307);
    assert_eq!(Redirect::permanent_redirect("/a").status.as_u16(), 308);
    assert_eq!(
        Redirect::see_other("/a").location.as_deref(),
        Some("/a")
    );
}

#[test]
fn test_outputs_as_responses() {
    let input = Input::new(Method::Get, "/");
    let response = "caf\u{e9}".to_owned().respond(&input).unwrap();
    assert_eq!(response.status.as_u16(), 200);
    assert_eq!(response.body, "caf\u{e9}".as_bytes().to_vec());
    assert_eq!(
        response.headers.get("content-type").map(|v| v.as_str()),
        Some("text/plain; charset=utf-8")
    );
    assert_eq!(().respond(&input).unwrap().status.as_u16(), 204);
    assert_eq!(("x",).respond(&input).unwrap().body, b"x".to_vec());
    assert!(None::<String>.respond(&input).err().unwrap().is_noroute());
    assert_eq!(Some("y").respond(&input).unwrap().body, b"y".to_vec());
    let failed: Result<String, Error> = Err(bad_request("no"));
    assert_eq!(failed.respond(&input).err().unwrap().status_code().as_u16(), 400);
    let made = Response::new(StatusCode::ok()).respond(&input).unwrap();
    assert_eq!(made.status.as_u16(), 200);
    assert_eq!(text_response("t").body, b"t".to_vec());
    let redirect = Redirect::found("/x").respond(&input).unwrap();
    assert_eq!(redirect.status.as_u16(), 302);
}

#[test]
fn test_what_goes_out() {
    let response = handle_error(&bad_request("wrong"));
    assert_eq!(response.status.as_u16(), 400);
    assert_eq!(response.body, b"wrong".to_vec());
    assert_eq!(
        response.headers.fields(),
        vec![("content-type".to_owned(), "text/plain; charset=utf-8".to_owned())]
    );

    let sent = finalize(Err(no_route()));
    assert_eq!(sent.status.as_u16(), 404);
    assert_eq!(sent.headers.get("server").map(|v| v.as_str()), Some("finchers/0.13.5"));

    let mut own = Response::new(StatusCode::ok());
    own.headers.append("server", "mine");
    let sent = finalize(Ok(own));
    assert_eq!(sent.headers.fields().len(), 1);
    assert_eq!(sent.headers.get("server").map(|v| v.as_str()), Some("mine"));
}

#[test]
fn test_text_helpers() {
    assert_eq!(decimal(0), "0");
    assert_eq!(decimal(7), "7");
    assert_eq!(decimal(10), "10");
    assert_eq!(decimal(1234567890), "1234567890");
    assert_eq!(decimal(u64::MAX), "18446744073709551615");
    assert_eq!(split("a/b//c", '/'), vec!["a", "b", "", "c"]);
    assert_eq!(split("", '/'), vec![""]);
    assert_eq!(split("/", '/'), vec!["", ""]);
    assert_eq!(split("x=1&y", '&'), vec!["x=1", "y"]);
    assert_eq!(trim("  a b \t\n"), "a b");
    assert_eq!(trim("\u{3000}x\u{a0}"), "x");
    assert_eq!(trim("   "), "");
    assert!(is_space(' '));
    assert!(is_space('\u{2028}'));
    assert!(!is_space('a'));
    assert!(!is_space('\u{200b}'));
}

#[test]
fn test_request_builder() {
    let request = local::request(Method::Trace, "/a")
        .uri("/b?x=1")
        .header("k", "1")
        .header("k", "2")
        .body(b"abc".to_vec());
    assert_eq!(request.method, Method::Trace);
    assert_eq!(request.uri, "/b?x=1");
    assert_eq!(request.headers.fields(), vec![("k".to_owned(), "2".to_owned())]);
    assert_eq!(request.body, b"abc".to_vec());
    assert_eq!(local::head("/").method, Method::Head);
    assert_eq!(local::patch("/").method, Method::Patch);
    assert_eq!(local::options("/").method, Method::Options);
    assert!(local::get("http://exa mple/").try_apply(segment("x")).is_none());
    assert!(local::get("/x").try_apply(segment("x")).is_some());
    match local::get("/x").respond(segment("x")) {
        Async::Ready(response) => assert_eq!(response.status.as_u16(), 204),
        Async::NotReady => panic!("assertion failed"),
    }
}
