use std::cell::Cell;
use std::rc::Rc;

use finchers::context::TaskContext;
use finchers::endpoint::body::{body, body_stream, BodyTask};
use finchers::endpoint::syntax::segment;
use finchers::endpoint::unit::{reject, value};
use finchers::endpoint::{all::all, EndpointExt, IntoEndpointExt};
use finchers::error::{bad_request, Error};
use finchers::input::{Input, Method};
use finchers::rt::app::{AppService, State};
use finchers::task::{Async, PollTask, Task};

fn input(path: &str) -> Input {
    Input::new(Method::Post, path)
}

#[test]
fn test_and_keeps_the_order_when_the_first_is_slow() {
    let endpoint = body::<String>().and(value("fast"));
    let service = AppService::new(&endpoint);
    let mut future = service.dispatch(input("/"));

    // the second task yields at once, the first waits for the body
    assert!(matches!(future.poll_endpoint(), Ok(Async::NotReady)));
    future.feed(b"sl");
    assert!(matches!(future.poll_endpoint(), Ok(Async::NotReady)));
    future.feed(b"ow");
    future.finish_body();
    match future.poll_endpoint() {
        Ok(Async::Ready((first, second))) => {
            assert_eq!(first, "slow");
            assert_eq!(second, "fast");
        }
        _ => panic!("assertion failed"),
    }
    assert!(matches!(future.state, State::Done(_)));
}

#[test]
fn test_and_keeps_the_order_when_the_second_is_slow() {
    let endpoint = value("fast").and(body::<String>());
    let service = AppService::new(&endpoint);
    let mut future = service.dispatch(input("/"));

    assert!(matches!(future.poll_endpoint(), Ok(Async::NotReady)));
    future.feed(b"slow");
    future.finish_body();
    match future.poll_endpoint() {
        Ok(Async::Ready((first, second))) => {
            assert_eq!(first, "fast");
            assert_eq!(second, "slow");
        }
        _ => panic!("assertion failed"),
    }
}

#[test]
fn test_a_finished_task_is_not_polled_again() {
    let calls = Rc::new(Cell::new(0u32));
    let counter = calls.clone();
    let counted = value(7u8).map(move |(n,)| {
        counter.set(counter.get() + 1);
        n
    });
    let endpoint = counted.and(body::<Vec<u8>>());
    let service = AppService::new(&endpoint);
    let mut future = service.dispatch(input("/"));

    for _ in 0..5 {
        assert!(matches!(future.poll_endpoint(), Ok(Async::NotReady)));
    }
    assert_eq!(calls.get(), 1);
    future.finish_body();
    assert!(matches!(
        future.poll_endpoint(),
        Ok(Async::Ready((7u8, ref bytes))) if bytes.is_empty()
    ));
    assert_eq!(calls.get(), 1);
}

#[test]
fn test_all_polls_each_member_once_to_its_output() {
    let calls = Rc::new(Cell::new(0u32));
    let members: Vec<_> = (0..3u8)
        .map(|i| {
            let counter = calls.clone();
            value(i).map(move |(n,)| {
                counter.set(counter.get() + 1);
                n
            })
        })
        .collect();
    let endpoint = all(members).map(|outputs| outputs).and(body::<Vec<u8>>());
    let service = AppService::new(&endpoint);
    let mut future = service.dispatch(input("/"));

    for _ in 0..4 {
        assert!(matches!(future.poll_endpoint(), Ok(Async::NotReady)));
    }
    assert_eq!(calls.get(), 3);
    future.finish_body();
    match future.poll_endpoint() {
        Ok(Async::Ready((outputs, _))) => assert_eq!(outputs, vec![(0u8,), (1u8,), (2u8,)]),
        _ => panic!("assertion failed"),
    }
    assert_eq!(calls.get(), 3);
}

#[test]
fn test_a_failure_discards_the_other_task() {
    let calls = Rc::new(Cell::new(0u32));
    let counter = calls.clone();
    let counted = value(7u8).map(move |(n,)| {
        counter.set(counter.get() + 1);
        n
    });
    let endpoint = reject::<_, ()>(|_| bad_request("first")).and(counted);
    let service = AppService::new(&endpoint);
    let mut future = service.dispatch(input("/"));

    let failure = future.poll_endpoint().err().unwrap();
    assert_eq!(failure.message(), "first");
    assert_eq!(calls.get(), 0);
    assert!(matches!(future.state, State::Done(_)));
}

#[test]
fn test_a_failure_behind_a_waiting_task_fails_the_round() {
    let endpoint = body::<String>().and(reject::<_, ()>(|_| bad_request("second")));
    let service = AppService::new(&endpoint);
    let mut future = service.dispatch(input("/"));

    let failure = future.poll_endpoint().err().unwrap();
    assert_eq!(failure.message(), "second");

    let members: Vec<_> = ["a", "b"]
        .iter()
        .map(|name| reject::<_, (u8,)>(move |_| bad_request(name)))
        .collect();
    let endpoint = all(members);
    let service = AppService::new(&endpoint);
    let mut future = service.dispatch(input("/"));
    let failure = future.poll_endpoint().err().unwrap();
    assert_eq!(failure.message(), "a");
}

#[test]
fn test_body_is_decoded_when_it_has_arrived_whole() {
    let endpoint = body::<String>();
    let service = AppService::new(&endpoint);
    let mut future = service.dispatch(input("/"));
    future.feed("h\u{e9}".as_bytes());
    assert!(matches!(future.poll_endpoint(), Ok(Async::NotReady)));
    future.feed(b"llo");
    future.finish_body();
    // what arrives after the end does not count
    future.feed(b"!");
    assert!(matches!(
        future.poll_endpoint(),
        Ok(Async::Ready((ref text,))) if text == "h\u{e9}llo"
    ));

    let mut future = service.dispatch(input("/"));
    future.feed(&[0xff, 0xfe]);
    future.finish_body();
    let failure = future.poll_endpoint().err().unwrap();
    assert_eq!(failure.status_code().as_u16(), 400);
    assert_eq!(failure.message(), "invalid utf-8 sequence in the body");

    let lenient = body::<Option<String>>();
    let service = AppService::new(&lenient);
    let mut future = service.dispatch(input("/"));
    future.feed(&[0xff]);
    future.finish_body();
    assert!(matches!(future.poll_endpoint(), Ok(Async::Ready((None,)))));
}

#[test]
fn test_body_handle_is_taken_once() {
    let mut request = input("/");
    assert!(request.has_body());
    assert!(request.body().is_some());
    assert!(!request.has_body());
    assert!(request.body().is_none());

    let endpoint = body_stream();
    let service = AppService::new(&endpoint);
    let mut future = service.dispatch(input("/"));
    assert!(matches!(future.poll_endpoint(), Ok(Async::Ready(_))));
    match future.into_context() {
        Some(cx) => assert!(!cx.input().has_body()),
        None => panic!("assertion failed"),
    }
}

#[test]
fn test_driver_reports_no_route() {
    let endpoint = segment("x");
    let service = AppService::new(&endpoint);
    let mut future = service.dispatch(input("/y"));
    let failure = future.poll_endpoint().err().unwrap();
    assert!(failure.is_noroute());
    assert_eq!(failure.message(), "no route");
    assert!(matches!(future.state, State::Done(_)));
}

#[test]
fn test_run_stops_when_the_budget_is_spent() {
    let endpoint = body::<String>();
    let service = AppService::new(&endpoint);
    let mut future = service.dispatch(input("/"));
    assert!(matches!(future.run(0), Ok(Async::NotReady)));
    assert!(matches!(future.state, State::Start(_)));
    assert!(matches!(future.run(3), Ok(Async::NotReady)));
    assert!(matches!(future.state, State::InFlight(..)));
    future.finish_body();
    assert!(matches!(future.run(3), Ok(Async::Ready((ref text,))) if text.is_empty()));
}

#[test]
fn test_poll_gives_the_response_that_goes_out() {
    let endpoint = value("Hello");
    let service = AppService::new(&endpoint);
    let mut future = service.dispatch(input("/"));
    match future.poll() {
        Async::Ready(response) => {
            assert_eq!(response.status.as_u16(), 200);
            assert_eq!(response.body, b"Hello".to_vec());
            assert_eq!(
                response.headers.get("server").map(|v| v.as_str()),
                Some("finchers/0.13.5")
            );
        }
        Async::NotReady => panic!("assertion failed"),
    }
    assert!(matches!(future.state, State::Gone));
    assert!(future.into_context().is_none());
}

struct Countdown(u32);

impl Task for Countdown {
    type Output = (u32,);

    fn live(&self) -> bool {
        true
    }

    fn needs_body(&self) -> bool {
        false
    }

    fn step(
        &self,
        _: &TaskContext,
        _: &Self,
        _: &TaskContext,
        _: PollTask<(u32,)>,
    ) -> bool {
        true
    }

    fn poll_task(&mut self, _: &mut TaskContext) -> PollTask<(u32,)> {
        if self.0 == 0 {
            Ok(Async::Ready((0,)))
        } else {
            self.0 -= 1;
            Ok(Async::NotReady)
        }
    }
}

#[test]
fn test_and_then_goes_on_with_a_task_of_its_own() {
    let endpoint = value(2u32).and_then(|(n,)| Countdown(n));
    let service = AppService::new(&endpoint);
    let mut future = service.dispatch(input("/"));
    assert!(matches!(future.poll_endpoint(), Ok(Async::NotReady)));
    assert!(matches!(future.poll_endpoint(), Ok(Async::NotReady)));
    assert!(matches!(future.poll_endpoint(), Ok(Async::Ready((0u32,)))));

    let failing = reject::<_, (u32,)>(|_| bad_request("early")).and_then(|(n,): (u32,)| Countdown(n));
    let service = AppService::new(&failing);
    let mut future = service.dispatch(input("/"));
    let failure: Error = future.poll_endpoint().err().unwrap();
    assert_eq!(failure.message(), "early");
}

#[test]
fn test_and_then_may_leave_the_body_to_its_second_stage() {
    let endpoint = value(3u8).and_then(|_| BodyTask::<String>::Init);
    let service = AppService::new(&endpoint);
    let mut future = service.dispatch(input("/"));
    assert!(matches!(future.poll_endpoint(), Ok(Async::NotReady)));
    future.feed(b"late");
    future.finish_body();
    assert!(matches!(
        future.poll_endpoint(),
        Ok(Async::Ready((ref text,))) if text == "late"
    ));
}
