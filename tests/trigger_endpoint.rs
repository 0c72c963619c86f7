use rev_proxy::signal::ShutdownSignal;
use rev_proxy::trigger::{classify, handle_trigger, keys_match, Route, TriggerReply};
use tokio::sync::oneshot;

#[test]
fn keys_match_compares_whole_strings() {
    assert!(keys_match("ABC123", "ABC123"));
    assert!(keys_match("", ""));
    assert!(!keys_match("ABC12", "ABC123"));
    assert!(!keys_match("ABC1234", "ABC123"));
    assert!(!keys_match("abc123", "ABC123"));
    assert!(!keys_match("", "ABC123"));
    assert!(keys_match("clé", "clé"));
    assert!(!keys_match("clé", "cle"));
}

#[test]
fn classify_sends_get_shutdown_to_the_trigger() {
    assert_eq!(classify("GET", "/shutdown"), Route::Trigger);
}

#[test]
fn classify_forwards_everything_else() {
    assert_eq!(classify("POST", "/shutdown"), Route::Forward);
    assert_eq!(classify("GET", "/shutdown/now"), Route::Forward);
    assert_eq!(classify("GET", "/x"), Route::Forward);
    assert_eq!(classify("GET", "/"), Route::Forward);
    assert_eq!(classify("get", "/shutdown"), Route::Forward);
}

#[test]
fn wrong_key_is_not_found_and_leaves_the_cell() {
    let (tx, mut rx) = oneshot::channel::<bool>();
    let mut cell = ShutdownSignal::new(tx);
    for _ in 0..3 {
        let r = handle_trigger(&mut cell, Some("wrong"), "ABC123");
        assert_eq!(r, TriggerReply::NotFound);
        assert_eq!(r.status(), 404);
        assert!(cell.armed());
    }
    assert!(rx.try_recv().is_err());
}

#[test]
fn missing_key_is_not_found() {
    let (tx, _rx) = oneshot::channel::<bool>();
    let mut cell = ShutdownSignal::new(tx);
    assert_eq!(handle_trigger(&mut cell, None, "ABC123"), TriggerReply::NotFound);
    assert_eq!(handle_trigger(&mut cell, Some(""), "ABC123"), TriggerReply::NotFound);
    assert!(cell.armed());
}

#[test]
fn right_key_twice_succeeds_once() {
    let (tx, mut rx) = oneshot::channel::<bool>();
    let mut cell = ShutdownSignal::new(tx);
    let first = handle_trigger(&mut cell, Some("ABC123"), "ABC123");
    let second = handle_trigger(&mut cell, Some("ABC123"), "ABC123");
    assert_eq!(first, TriggerReply::Success);
    assert_eq!(second, TriggerReply::Failure);
    assert_eq!(rx.try_recv(), Ok(true));
}

#[test]
fn right_key_on_an_empty_cell_fails() {
    let mut cell = ShutdownSignal::empty();
    assert_eq!(handle_trigger(&mut cell, Some("k"), "k"), TriggerReply::Failure);
}

#[test]
fn replies_have_their_status_and_body() {
    assert_eq!(TriggerReply::Success.status(), 200);
    assert_eq!(TriggerReply::Success.body(), "success");
    assert_eq!(TriggerReply::Failure.status(), 200);
    assert_eq!(TriggerReply::Failure.body(), "failure");
    assert_eq!(TriggerReply::NotFound.status(), 404);
    assert_eq!(TriggerReply::NotFound.body(), "");
}
