use socket_registry::handle::SocketHandle;

#[test]
fn handle_wraps_its_index() {
    let handle = SocketHandle::new(7);
    assert_eq!(handle.handle_id(), 7);
    assert_eq!(handle, SocketHandle::new(7));
    assert_ne!(handle, SocketHandle::new(8));
}

#[test]
fn handle_comes_from_an_index() {
    assert_eq!(SocketHandle::from(3), SocketHandle::new(3));
    assert_eq!(SocketHandle::default(), SocketHandle::new(0));
    assert!(SocketHandle::new(1) < SocketHandle::new(2));
}

#[test]
fn handle_is_shown_as_its_index() {
    assert_eq!(SocketHandle::new(0).to_string(), "#0");
    assert_eq!(SocketHandle::new(7).to_string(), "#7");
    assert_eq!(SocketHandle::new(10).to_string(), "#10");
    assert_eq!(SocketHandle::new(4096).to_string(), "#4096");
    assert_eq!(SocketHandle::new(usize::MAX).to_string(), format!("#{}", usize::MAX));
}
