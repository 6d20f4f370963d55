//! The fixed-window rate limiter.

use authkit::error::ErrorMessage;
use authkit::rate_limiter::{rate_limit, CounterStore};

const NOW: u64 = 1_700_000_000;

#[test]
fn five_requests_pass_the_sixth_is_denied() {
    let mut store = CounterStore::new();
    for _ in 0..5 {
        let r = rate_limit(&mut store, "/api/ping:ip-10.0.0.1", 5, 60, NOW);
        assert_eq!(r, Ok(()));
    }
    let r = rate_limit(&mut store, "/api/ping:ip-10.0.0.1", 5, 60, NOW);
    assert_eq!(r, Err(ErrorMessage::TooManyRequest));
}

#[test]
fn a_new_window_admits_requests_again() {
    let mut store = CounterStore::new();
    for _ in 0..6 {
        let _ = rate_limit(&mut store, "/api/ping:ip-10.0.0.1", 5, 60, NOW);
    }
    // Once the 60-second window has elapsed the counter starts over.
    let r = rate_limit(&mut store, "/api/ping:ip-10.0.0.1", 5, 60, NOW + 60);
    assert_eq!(r, Ok(()));
    // And within the old window it would still be denied.
    let r = rate_limit(&mut store, "/api/ping:ip-10.0.0.1", 5, 60, NOW + 60);
    assert_eq!(r, Ok(()));
}

#[test]
fn keys_are_counted_independently() {
    let mut store = CounterStore::new();
    for _ in 0..5 {
        assert_eq!(rate_limit(&mut store, "/api/a:ip-1", 5, 60, NOW), Ok(()));
    }
    assert_eq!(
        rate_limit(&mut store, "/api/a:ip-1", 5, 60, NOW),
        Err(ErrorMessage::TooManyRequest)
    );
    // A different client, and a different route, have their own budget.
    assert_eq!(rate_limit(&mut store, "/api/a:ip-2", 5, 60, NOW), Ok(()));
    assert_eq!(rate_limit(&mut store, "/api/b:ip-1", 5, 60, NOW), Ok(()));
}

#[test]
fn a_max_of_zero_denies_every_request() {
    let mut store = CounterStore::new();
    let r = rate_limit(&mut store, "/api/ping:ip-1", 0, 60, NOW);
    assert_eq!(r, Err(ErrorMessage::TooManyRequest));
}

#[test]
fn the_creating_increment_arms_the_expiry() {
    let mut store = CounterStore::new();
    rate_limit(&mut store, "k", 5, 60, NOW).unwrap();
    assert_eq!(store.entries.len(), 1);
    assert_eq!(store.entries[0].count, 1);
    assert_eq!(store.entries[0].expires_at, Some(NOW + 60));
    // Later increments within the window keep the expiry.
    rate_limit(&mut store, "k", 5, 60, NOW + 10).unwrap();
    assert_eq!(store.entries[0].count, 2);
    assert_eq!(store.entries[0].expires_at, Some(NOW + 60));
}
