use finchers::decode::ParseNumberError;
use finchers::endpoint::path::{
    match_, path, path_opt, path_req, paths, paths_opt, paths_req, MatchPath, MatchPathKind,
    ParseMatchError,
};
use finchers::endpoint::IntoEndpoint;
use finchers::local;
use finchers::task::Async;

fn endpoint(pattern: &str) -> MatchPath {
    pattern.into_endpoint()
}

#[test]
fn test_match_single_segment() {
    assert_eq!(
        match_("foo").map(|m| m.kind),
        Ok(MatchPathKind::Segments(vec!["foo".to_owned()]))
    );
}

#[test]
fn test_match_multi_segments() {
    assert_eq!(
        match_("foo/bar").map(|m| m.kind),
        Ok(MatchPathKind::Segments(vec!["foo".to_owned(), "bar".to_owned()]))
    );
}

#[test]
fn test_match_all_segments() {
    assert_eq!(match_("*").map(|m| m.kind), Ok(MatchPathKind::AllSegments));
}

#[test]
fn test_match_failure_empty() {
    assert_eq!(
        match_("").map(|m| m.kind),
        Err(ParseMatchError::EmptyString)
    );
}

#[test]
fn test_match_failure_empty_2() {
    assert_eq!(
        match_("foo//bar").map(|m| m.kind),
        Err(ParseMatchError::EmptyString)
    );
}

#[test]
fn test_match_trims_white_space_and_slashes() {
    assert_eq!(
        match_("  /foo/ bar /  ").map(|m| m.kind),
        Ok(MatchPathKind::Segments(vec!["foo".to_owned(), "bar".to_owned()]))
    );
    assert_eq!(match_(" /*/ ").map(|m| m.kind), Ok(MatchPathKind::AllSegments));
    assert_eq!(
        match_("foo/ /bar").map(|m| m.kind),
        Err(ParseMatchError::EmptyString)
    );
    assert_eq!(match_("///").map(|m| m.kind), Err(ParseMatchError::EmptyString));
}

#[test]
fn test_endpoint_match_path() {
    let outcome = local::get("/foo").apply(endpoint("foo"));
    assert!(matches!(outcome, Ok(Async::Ready(()))));
}

#[test]
fn test_endpoint_reject_path() {
    let outcome = local::get("/foo").apply(endpoint("bar"));
    assert!(outcome.err().map_or(false, |e| e.is_noroute()));
}

#[test]
fn test_endpoint_match_multi_segments() {
    let outcome = local::get("/foo/bar").apply(endpoint("/foo/bar"));
    assert!(matches!(outcome, Ok(Async::Ready(()))));
}

#[test]
fn test_endpoint_reject_multi_segments() {
    let outcome = local::get("/foo/baz").apply(endpoint("/foo/bar"));
    assert!(outcome.err().map_or(false, |e| e.is_noroute()));
}

#[test]
fn test_endpoint_reject_short_path() {
    let outcome = local::get("/foo/bar").apply(endpoint("/foo/bar/baz"));
    assert!(outcome.err().map_or(false, |e| e.is_noroute()));
}

#[test]
fn test_endpoint_match_all_path() {
    let outcome = local::get("/foo").apply(endpoint("*"));
    assert!(matches!(outcome, Ok(Async::Ready(()))));
}

#[test]
fn test_endpoint_extract_integer() {
    let outcome = local::get("/42").apply(path::<i32>());
    assert!(matches!(outcome, Ok(Async::Ready((42i32,)))));
}

#[test]
fn test_endpoint_extract_wrong_integer() {
    let outcome = local::get("/foo").apply(path::<i32>());
    assert!(outcome.err().map_or(false, |e| e.is_noroute()));
}

#[test]
fn test_endpoint_extract_wrong_integer_result() {
    let outcome = local::get("/foo").apply(path::<Result<i32, ParseNumberError>>());
    match outcome {
        Ok(Async::Ready((Err(..),))) => (),
        _ => panic!("assertion failed"),
    }
}

#[test]
fn test_endpoint_extract_wrong_integer_required() {
    let outcome = local::get("/foo").apply(path_req::<i32>());
    assert!(outcome.is_err());
}

#[test]
fn test_endpoint_extract_strings() {
    let outcome = local::get("/foo/bar").apply(paths::<Vec<String>>());
    match outcome {
        Ok(Async::Ready((segments,))) => {
            assert_eq!(segments, vec!["foo".to_owned(), "bar".to_owned()])
        }
        _ => panic!("assertion failed"),
    }
}

#[test]
fn test_required_extractor_fails_with_bad_request() {
    let failure = local::get("/foo").apply(path_req::<i32>()).err().unwrap();
    assert_eq!(failure.status_code().as_u16(), 400);
    assert_eq!(failure.message(), "invalid number in the path");

    let missing = local::get("/").apply(path_req::<i32>()).err().unwrap();
    assert_eq!(missing.status_code().as_u16(), 400);
    assert_eq!(
        missing.message(),
        "The number of path segments is insufficient"
    );
}

#[test]
fn test_optional_extractors_yield_none() {
    let outcome = local::get("/foo").apply(path_opt::<u32>());
    assert!(matches!(outcome, Ok(Async::Ready((None,)))));
    let outcome = local::get("/7").apply(path_opt::<u32>());
    assert!(matches!(outcome, Ok(Async::Ready((Some(7u32),)))));
    let outcome = local::get("/").apply(path_opt::<u32>());
    assert!(matches!(outcome, Ok(Async::Ready((None,)))));

    let outcome = local::get("/1/x").apply(paths_opt::<Vec<u8>>());
    assert!(matches!(outcome, Ok(Async::Ready((None,)))));
    let outcome = local::get("/1/2").apply(paths_opt::<Vec<u8>>());
    match outcome {
        Ok(Async::Ready((Some(values),))) => assert_eq!(values, vec![1u8, 2u8]),
        _ => panic!("assertion failed"),
    }
}

#[test]
fn test_remaining_segments_required() {
    let failure = local::get("/1/x").apply(paths_req::<Vec<u8>>()).err().unwrap();
    assert_eq!(failure.status_code().as_u16(), 400);
    let outcome = local::get("/1/2/3").apply(paths_req::<Vec<u8>>());
    match outcome {
        Ok(Async::Ready((values,))) => assert_eq!(values, vec![1u8, 2u8, 3u8]),
        _ => panic!("assertion failed"),
    }
    let joined = local::get("/a/b/c").apply(paths::<String>());
    match joined {
        Ok(Async::Ready((text,))) => assert_eq!(text, "a/b/c"),
        _ => panic!("assertion failed"),
    }
}

#[test]
fn test_numbers_in_segments() {
    let decode = |text: &str| local::get(text).apply(path::<u8>());
    assert!(matches!(decode("/255"), Ok(Async::Ready((255u8,)))));
    assert!(matches!(decode("/+7"), Ok(Async::Ready((7u8,)))));
    assert!(matches!(decode("/007"), Ok(Async::Ready((7u8,)))));
    assert!(decode("/256").is_err());
    assert!(decode("/-1").is_err());
    assert!(decode("/1x").is_err());
    let signed = |text: &str| local::get(text).apply(path::<i8>());
    assert!(matches!(signed("/-128"), Ok(Async::Ready((-128i8,)))));
    assert!(matches!(signed("/127"), Ok(Async::Ready((127i8,)))));
    assert!(signed("/128").is_err());
    assert!(signed("/-129").is_err());
    let wide = local::get("/18446744073709551615").apply(path::<u64>());
    assert!(matches!(wide, Ok(Async::Ready((18446744073709551615u64,)))));
    assert!(local::get("/18446744073709551616").apply(path::<u64>()).is_err());
}
