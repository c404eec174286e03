use futures_router_sink::router_sink::{join, tag_left, tag_right};
use futures_router_sink::{
    Async, AsyncSink, Endpoint, Poll, Route, RouterSink, RouterSinkError, StartSend,
};

type Sent = StartSend<Route<u32, u64>, RouterSinkError<String, u8>>;
type Joined = Poll<(), RouterSinkError<String, u8>>;

#[test]
fn vector_takes_every_item_at_its_end() {
    let mut end: Vec<u32> = vec![7];
    assert_eq!(Endpoint::start_send(&mut end, 8), Ok(AsyncSink::Ready));
    assert_eq!(Endpoint::start_send(&mut end, 9), Ok(AsyncSink::Ready));
    assert_eq!(end, vec![7, 8, 9]);
}

#[test]
fn vector_is_always_complete() {
    let mut end: Vec<u32> = vec![7, 8];
    assert_eq!(Endpoint::poll_complete(&mut end), Ok(Async::Ready(())));
    assert_eq!(end, vec![7, 8]);
}

#[test]
fn left_item_reaches_the_left_end_only() {
    let mut router = RouterSink::new(Vec::<u32>::new(), Vec::<u32>::new());
    assert_eq!(router.start_send(Route::Left(23)), Ok(AsyncSink::Ready));
    assert_eq!(router.left(), &vec![23]);
    assert!(router.right().is_empty());
}

#[test]
fn right_item_reaches_the_right_end_only() {
    let mut router = RouterSink::new(Vec::<u32>::new(), Vec::<u32>::new());
    assert_eq!(router.start_send(Route::Right(42)), Ok(AsyncSink::Ready));
    assert!(router.left().is_empty());
    assert_eq!(router.right(), &vec![42]);
}

#[test]
fn submit_then_drive_until_complete() {
    let mut router = RouterSink::new(Vec::<u32>::new(), Vec::<u32>::new());
    assert_eq!(router.start_send(Route::Left(23)), Ok(AsyncSink::Ready));
    assert_eq!(router.start_send(Route::Right(42)), Ok(AsyncSink::Ready));
    assert_eq!(router.poll_complete(), Ok(Async::Ready(())));
    assert_eq!(router.left(), &vec![23]);
    assert_eq!(router.right(), &vec![42]);
}

#[test]
fn each_side_keeps_the_order_of_submission() {
    let mut router = RouterSink::new(vec![String::from("old")], Vec::<u8>::new());
    let items = vec![
        Route::Right(1),
        Route::Left(String::from("a")),
        Route::Left(String::from("b")),
        Route::Right(2),
        Route::Left(String::from("c")),
        Route::Right(3),
        Route::Right(3),
    ];
    let count = items.len();
    for item in items {
        assert_eq!(router.start_send(item), Ok(AsyncSink::Ready));
    }
    assert_eq!(router.poll_complete(), Ok(Async::Ready(())));
    assert_eq!(router.left(), &vec!["old", "a", "b", "c"]);
    assert_eq!(router.right(), &vec![1, 2, 3, 3]);
    assert_eq!(router.left().len() - 1 + router.right().len(), count);
}

#[test]
fn driving_changes_no_history() {
    let mut router = RouterSink::new(vec![1u32, 2], vec![3u32]);
    assert_eq!(router.poll_complete(), Ok(Async::Ready(())));
    assert_eq!(router.poll_complete(), Ok(Async::Ready(())));
    assert_eq!(router.left(), &vec![1, 2]);
    assert_eq!(router.right(), &vec![3]);
}

#[test]
fn left_answer_keeps_its_tag() {
    let accepted: Sent = tag_left(Ok(AsyncSink::Ready));
    assert_eq!(accepted, Ok(AsyncSink::Ready));
    let rejected: Sent = tag_left(Ok(AsyncSink::NotReady(5)));
    assert_eq!(rejected, Ok(AsyncSink::NotReady(Route::Left(5))));
    let failed: Sent = tag_left(Err(String::from("closed")));
    assert_eq!(failed, Err(RouterSinkError::Left(String::from("closed"))));
}

#[test]
fn right_answer_keeps_its_tag() {
    let accepted: Sent = tag_right(Ok(AsyncSink::Ready));
    assert_eq!(accepted, Ok(AsyncSink::Ready));
    let rejected: Sent = tag_right(Ok(AsyncSink::NotReady(6)));
    assert_eq!(rejected, Ok(AsyncSink::NotReady(Route::Right(6))));
    let failed: Sent = tag_right(Err(9));
    assert_eq!(failed, Err(RouterSinkError::Right(9)));
}

#[test]
fn complete_only_when_both_are() {
    let both: Joined = join(Ok(Async::Ready(())), Ok(Async::Ready(())));
    assert_eq!(both, Ok(Async::Ready(())));
    let left_pending: Joined = join(Ok(Async::NotReady), Ok(Async::Ready(())));
    assert_eq!(left_pending, Ok(Async::NotReady));
    let right_pending: Joined = join(Ok(Async::Ready(())), Ok(Async::NotReady));
    assert_eq!(right_pending, Ok(Async::NotReady));
    let both_pending: Joined = join(Ok(Async::NotReady), Ok(Async::NotReady));
    assert_eq!(both_pending, Ok(Async::NotReady));
}

#[test]
fn failure_comes_before_pending_and_complete() {
    let left: Joined = join(Err(String::from("l")), Ok(Async::Ready(())));
    assert_eq!(left, Err(RouterSinkError::Left(String::from("l"))));
    let left: Joined = join(Err(String::from("l")), Ok(Async::NotReady));
    assert_eq!(left, Err(RouterSinkError::Left(String::from("l"))));
    let right: Joined = join(Ok(Async::Ready(())), Err(4));
    assert_eq!(right, Err(RouterSinkError::Right(4)));
    let right: Joined = join(Ok(Async::NotReady), Err(4));
    assert_eq!(right, Err(RouterSinkError::Right(4)));
}

#[test]
fn left_failure_wins_when_both_fail() {
    let both: Joined = join(Err(String::from("l")), Err(4));
    assert_eq!(both, Err(RouterSinkError::Left(String::from("l"))));
}

#[test]
fn accessors_expose_the_owned_ends() {
    let mut router = RouterSink::new(vec![1u32], vec![String::from("x")]);
    assert_eq!(router.left(), &vec![1]);
    assert_eq!(router.right(), &vec![String::from("x")]);

    router.left_mut().push(2);
    assert_eq!(router.left(), &vec![1, 2]);
    assert_eq!(router.right(), &vec![String::from("x")]);

    router.right_mut().clear();
    assert_eq!(router.left(), &vec![1, 2]);
    assert!(router.right().is_empty());
}

#[test]
fn clone_owns_copies_of_both_ends() {
    let mut router = RouterSink::new(vec![1u32], vec![2u32]);
    let copy = router.clone();
    assert_eq!(router.start_send(Route::Left(3)), Ok(AsyncSink::Ready));
    assert_eq!(router.start_send(Route::Right(4)), Ok(AsyncSink::Ready));
    assert_eq!(router.left(), &vec![1, 3]);
    assert_eq!(router.right(), &vec![2, 4]);
    assert_eq!(copy.left(), &vec![1]);
    assert_eq!(copy.right(), &vec![2]);
}

#[test]
fn error_text_is_that_of_the_failing_end() {
    let left: RouterSinkError<String, u8> = RouterSinkError::Left(String::from("disk full"));
    assert_eq!(left.to_string(), "disk full");
    let right: RouterSinkError<String, u8> = RouterSinkError::Right(17);
    assert_eq!(right.to_string(), "17");
}
