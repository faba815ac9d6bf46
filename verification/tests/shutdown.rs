use packet_proxy::shutdown::Shutdown;
use tokio::sync::mpsc::error::TryRecvError;

#[test]
fn new_handle_has_not_seen_the_stop() {
    let (_notify, _drained, handle) = Shutdown::create();
    assert!(!handle.is_shutdown());
}

#[test]
fn new_takes_the_given_ends() {
    let (running_send, mut running_recv) = tokio::sync::mpsc::channel::<()>(1);
    let (notify_send, notify_recv) = tokio::sync::watch::channel(());
    let mut handle = Shutdown::new(notify_recv, running_send);
    assert!(!handle.is_shutdown());
    notify_send.send(()).unwrap();
    assert!(handle.signal().has_changed().unwrap());
    assert!(matches!(running_recv.try_recv(), Err(TryRecvError::Empty)));
    drop(handle);
    assert!(matches!(running_recv.try_recv(), Err(TryRecvError::Disconnected)));
}

#[test]
fn wait_goes_on_while_nothing_resolved() {
    let (_notify, _drained, mut handle) = Shutdown::create();
    assert!(!handle.wait(false));
    assert!(!handle.is_shutdown());
    assert!(!handle.wait(false));
    assert!(!handle.is_shutdown());
}

#[test]
fn wait_is_over_once_the_signal_resolved() {
    let (_notify, _drained, mut handle) = Shutdown::create();
    assert!(handle.wait(true));
    assert!(handle.is_shutdown());
}

#[test]
fn wait_resolves_at_once_after_the_first_time() {
    let (_notify, _drained, mut handle) = Shutdown::create();
    assert!(!handle.wait(false));
    assert!(handle.wait(true));
    for resolved in [false, true, false, false] {
        assert!(handle.wait(resolved));
        assert!(handle.is_shutdown());
    }
}

#[test]
fn signal_is_the_end_of_the_broadcast() {
    let (notify, _drained, mut handle) = Shutdown::create();
    assert!(!handle.signal().has_changed().unwrap());
    notify.send(()).unwrap();
    assert!(handle.signal().has_changed().unwrap());
    assert!(!handle.is_shutdown());
}

#[test]
fn signal_resolves_when_the_emitter_is_lost() {
    let (notify, _drained, mut handle) = Shutdown::create();
    drop(notify);
    assert!(handle.signal().has_changed().is_err());
}

#[test]
fn clone_has_seen_what_the_handle_has() {
    let (_notify, _drained, mut handle) = Shutdown::create();
    assert!(!handle.clone().is_shutdown());
    handle.wait(true);
    let mut copy = handle.clone();
    assert!(copy.is_shutdown());
    assert!(copy.wait(false));
}

#[test]
fn clone_waits_on_its_own() {
    let (_notify, _drained, handle) = Shutdown::create();
    let mut copy = handle.clone();
    assert!(copy.wait(true));
    assert!(!handle.is_shutdown());
}

#[test]
fn clones_hear_the_same_broadcast() {
    let (notify, _drained, mut handle) = Shutdown::create();
    let mut first = handle.clone();
    let mut second = first.clone();
    notify.send(()).unwrap();
    assert!(handle.signal().has_changed().unwrap());
    assert!(first.signal().has_changed().unwrap());
    assert!(second.signal().has_changed().unwrap());
}

#[test]
fn drain_waits_for_every_handle() {
    let (notify, mut drained, handle) = Shutdown::create();
    let listener = handle.clone();
    let session = listener.clone();
    let other = handle.clone();
    assert_eq!(drained.sender_strong_count(), 4);

    drop(handle);
    notify.send(()).unwrap();
    assert!(matches!(drained.try_recv(), Err(TryRecvError::Empty)));
    drop(listener);
    assert!(matches!(drained.try_recv(), Err(TryRecvError::Empty)));
    drop(other);
    assert_eq!(drained.sender_strong_count(), 1);
    assert!(matches!(drained.try_recv(), Err(TryRecvError::Empty)));
    drop(session);
    assert_eq!(drained.sender_strong_count(), 0);
    assert!(matches!(drained.try_recv(), Err(TryRecvError::Disconnected)));
}

#[test]
fn drain_is_done_at_once_without_handles() {
    let (_notify, mut drained, handle) = Shutdown::create();
    drop(handle);
    assert!(matches!(drained.try_recv(), Err(TryRecvError::Disconnected)));
}
