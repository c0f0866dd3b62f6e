use reconnect_t::event_listeners::ShareListener;
use tokio::sync::mpsc::error::TryRecvError;

#[test]
fn every_listener_observes_the_full_sequence_in_order() {
    // P: k registered listeners each observe the whole posted sequence, in
    // posting order, with no drops and no reordering.
    let mut share: ShareListener<u64> = ShareListener::new();
    let mut rx1 = share.new_listener();
    let mut rx2 = share.new_listener();
    let mut rx3 = share.new_listener();

    share.notify(10);
    share.notify(20);
    share.notify(30);

    for rx in [&mut rx1, &mut rx2, &mut rx3] {
        assert_eq!(rx.try_recv(), Ok(10));
        assert_eq!(rx.try_recv(), Ok(20));
        assert_eq!(rx.try_recv(), Ok(30));
        assert!(matches!(rx.try_recv(), Err(TryRecvError::Empty)));
    }
}

#[test]
fn late_listener_never_observes_earlier_events() {
    // P: a listener registered after an event was posted never sees it.
    let mut share: ShareListener<&'static str> = ShareListener::new();
    let mut early = share.new_listener();

    share.notify("before");

    let mut late = share.new_listener();
    share.notify("after");

    assert_eq!(early.try_recv(), Ok("before"));
    assert_eq!(early.try_recv(), Ok("after"));
    assert_eq!(late.try_recv(), Ok("after"));
    assert!(matches!(late.try_recv(), Err(TryRecvError::Empty)));
}

#[test]
fn dropped_listener_is_pruned_and_others_still_served() {
    let mut share: ShareListener<u64> = ShareListener::new();
    let gone = share.new_listener();
    let mut kept = share.new_listener();
    drop(gone);

    share.notify(1);
    share.notify(2);

    assert_eq!(kept.try_recv(), Ok(1));
    assert_eq!(kept.try_recv(), Ok(2));
    assert!(matches!(kept.try_recv(), Err(TryRecvError::Empty)));
}

#[test]
fn default_registry_is_empty() {
    let mut share: ShareListener<u64> = ShareListener::default();
    let mut rx = share.new_listener();
    assert!(matches!(rx.try_recv(), Err(TryRecvError::Empty)));
}
