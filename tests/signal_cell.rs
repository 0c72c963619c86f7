use rev_proxy::signal::{FireOutcome, ShutdownSignal};
use tokio::sync::oneshot;

#[test]
fn fire_delivers_true_to_the_receiver() {
    let (tx, mut rx) = oneshot::channel::<bool>();
    let mut cell = ShutdownSignal::new(tx);
    assert!(cell.armed());
    assert_eq!(cell.fire(), FireOutcome::Delivered);
    assert!(!cell.armed());
    assert_eq!(rx.try_recv(), Ok(true));
}

#[test]
fn second_fire_finds_no_signaler() {
    let (tx, _rx) = oneshot::channel::<bool>();
    let mut cell = ShutdownSignal::new(tx);
    assert_eq!(cell.fire(), FireOutcome::Delivered);
    assert_eq!(cell.fire(), FireOutcome::NoSignaler);
    assert_eq!(cell.fire(), FireOutcome::NoSignaler);
}

#[test]
fn fire_with_receiver_dropped_reports_it() {
    let (tx, rx) = oneshot::channel::<bool>();
    drop(rx);
    let mut cell = ShutdownSignal::new(tx);
    assert_eq!(cell.fire(), FireOutcome::ReceiverGone);
    assert!(!cell.armed());
    assert_eq!(cell.fire(), FireOutcome::NoSignaler);
}

#[test]
fn empty_cell_never_fires() {
    let mut cell = ShutdownSignal::empty();
    assert!(!cell.armed());
    assert!(cell.take().is_none());
    assert_eq!(cell.fire(), FireOutcome::NoSignaler);
}

#[test]
fn take_hands_out_the_notifier_once() {
    let (tx, mut rx) = oneshot::channel::<bool>();
    let mut cell = ShutdownSignal::new(tx);
    let taken = cell.take();
    assert!(taken.is_some());
    assert!(cell.take().is_none());
    assert!(cell.take().is_none());
    assert_eq!(taken.unwrap().send(true), Ok(()));
    assert_eq!(rx.try_recv(), Ok(true));
}

#[test]
fn many_attempts_exactly_one_obtains() {
    let (tx, _rx) = oneshot::channel::<bool>();
    let cell = std::sync::Mutex::new(ShutdownSignal::new(tx));
    let mut got = 0;
    for i in 0..50 {
        // alternate between the two ways a trigger reaches the cell
        let obtained = if i % 2 == 0 {
            cell.lock().unwrap().fire() != FireOutcome::NoSignaler
        } else {
            cell.lock().unwrap().take().is_some()
        };
        if obtained {
            got += 1;
            assert_eq!(i, 0);
        }
    }
    assert_eq!(got, 1);
}
