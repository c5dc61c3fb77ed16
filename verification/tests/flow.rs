use rqbit_tunnel::flow::{Reservation, SendCredit, DEFAULT_WINDOW};
use rqbit_tunnel::idle::{IdleWatch, WatchAction, WatchEvent};
use tokio::sync::Semaphore;

#[test]
fn with_window_allows_exactly_window_bytes_then_blocks() {
    let mut credit = SendCredit::with_window(1024);

    // Reserving the whole window (and a zero-sized reserve) succeeds immediately.
    assert_eq!(credit.reserve(0), Reservation::Reserved);
    assert_eq!(credit.reserve(1024), Reservation::Reserved);

    // The pool is now exhausted: a further reserve stays pending until credit is granted back.
    assert_eq!(
        credit.reserve(1),
        Reservation::Pending,
        "reserve(1) should still be pending once the window is exhausted"
    );

    // Granting credit unblocks it.
    credit.grant(1);
    assert_eq!(credit.reserve(1), Reservation::Reserved);
}

#[test]
fn default_pool_holds_the_default_window() {
    for mut credit in [SendCredit::new(), SendCredit::default()] {
        assert_eq!(credit.reserve(DEFAULT_WINDOW + 1), Reservation::Pending);
        assert_eq!(credit.reserve(DEFAULT_WINDOW), Reservation::Reserved);
        assert_eq!(credit.reserve(1), Reservation::Pending);
    }
}

#[test]
fn pending_reservation_consumes_nothing() {
    let mut credit = SendCredit::with_window(10);
    assert_eq!(credit.reserve(11), Reservation::Pending);
    assert_eq!(credit.reserve(10), Reservation::Reserved);
    credit.grant(4);
    assert_eq!(credit.reserve(5), Reservation::Pending);
    assert_eq!(credit.reserve(4), Reservation::Reserved);
}

#[test]
fn closed_pool_gives_no_more_credit() {
    let mut credit = SendCredit::with_window(10);
    credit.close();
    assert_eq!(credit.reserve(1), Reservation::Closed);
    credit.grant(5);
    assert_eq!(credit.reserve(1), Reservation::Closed);
    assert_eq!(credit.reserve(0), Reservation::Closed);
}

#[test]
fn reserving_nothing_succeeds_on_an_exhausted_open_pool() {
    let mut credit = SendCredit::with_window(0);
    assert_eq!(credit.reserve(0), Reservation::Reserved);
    assert_eq!(credit.reserve(1), Reservation::Pending);
}

#[test]
fn granting_back_undoes_a_reservation() {
    let mut credit = SendCredit::with_window(10);
    credit.grant(0);
    assert_eq!(credit.reserve(11), Reservation::Pending);
    assert_eq!(credit.reserve(7), Reservation::Reserved);
    credit.grant(7);
    assert_eq!(credit.reserve(11), Reservation::Pending);
    assert_eq!(credit.reserve(10), Reservation::Reserved);
}

#[test]
fn close_turns_a_pending_reservation_away() {
    let mut credit = SendCredit::with_window(0);
    assert_eq!(credit.reserve(1), Reservation::Pending);
    credit.close();
    assert_eq!(credit.reserve(1), Reservation::Closed);
}

#[test]
fn grants_stop_at_the_ceiling() {
    let mut credit = SendCredit::with_window(5);
    credit.grant(usize::MAX);
    assert_eq!(credit.reserve(Semaphore::MAX_PERMITS + 1), Reservation::Pending);
    assert_eq!(credit.reserve(Semaphore::MAX_PERMITS - 1), Reservation::Reserved);
    assert_eq!(credit.reserve(2), Reservation::Pending);
    assert_eq!(credit.reserve(1), Reservation::Reserved);
}

#[test]
fn reservation_may_exceed_four_gigabytes() {
    let large: u64 = 0x2_0000_0005;
    if let Ok(large) = usize::try_from(large) {
        let mut credit = SendCredit::with_window(large);
        assert_eq!(credit.reserve(large - 5), Reservation::Reserved);
        assert_eq!(credit.reserve(6), Reservation::Pending);
        assert_eq!(credit.reserve(5), Reservation::Reserved);
    }
}

#[test]
fn in_flight_bytes_never_exceed_the_window() {
    let window = 1000usize;
    let mut credit = SendCredit::with_window(window);
    let mut in_flight = 0usize;
    for step in 0..10_000usize {
        let n = step * 7919 % 400;
        if credit.reserve(n) == Reservation::Reserved {
            in_flight += n;
        } else {
            let acknowledged = in_flight / 2 + 1;
            credit.grant(acknowledged);
            in_flight -= acknowledged;
        }
        assert!(in_flight <= window);
    }
}

#[test]
fn activity_rearms_and_idleness_cancels() {
    let mut watch = IdleWatch::new();
    assert_eq!(watch.on_event(WatchEvent::Activity), WatchAction::Rearm);
    assert_eq!(watch.on_event(WatchEvent::Activity), WatchAction::Rearm);
    assert_eq!(watch.on_event(WatchEvent::Elapsed), WatchAction::CancelAndStop);
    assert_eq!(watch.on_event(WatchEvent::Activity), WatchAction::Stop);
}

#[test]
fn owner_cancellation_ends_the_watch_quietly() {
    let mut watch = IdleWatch::new();
    assert_eq!(watch.on_event(WatchEvent::Cancelled), WatchAction::Stop);
    assert_eq!(watch.on_event(WatchEvent::Elapsed), WatchAction::Stop);
}
