use managed::ManagedSlice;
use socket_registry::guard::{MappedRwLockGuard, RwLockGuard};
use socket_registry::handle::SocketHandle;
use socket_registry::set::SocketSet;
use socket_registry::socket::Socket;
use socket_registry::storage::SocketStorage;
use socket_registry::tcp;
use socket_registry::udp::ListenEndpoint;

fn listening(port: u16) -> tcp::Socket {
    let mut socket = tcp::Socket::new();
    socket.listen(ListenEndpoint::port(port)).unwrap();
    socket
}

fn cell(port: u16) -> SocketStorage {
    SocketStorage::new(SocketHandle::new(0), Socket::Tcp(listening(port)))
}

#[test]
fn readers_do_not_exclude_each_other() {
    let cell = cell(1);
    let first = cell.socket_ref();
    let second = cell.try_socket_ref().unwrap();
    let third = cell.socket_ref();
    assert_eq!(*first, Socket::Tcp(listening(1)));
    assert_eq!(*second, *first);
    assert_eq!(*third, *first);
    assert!(cell.try_socket_mut().is_none());
}

#[test]
fn writer_excludes_everybody() {
    let cell = cell(1);
    let mut writer = cell.socket_mut();
    assert!(cell.try_socket_ref().is_none());
    assert!(cell.try_socket_lock().is_none());
    assert!(cell.try_socket_mut().is_none());
    *writer = Socket::Tcp(listening(2));
    drop(writer);
    assert_eq!(*cell.socket_ref(), Socket::Tcp(listening(2)));
}

#[test]
fn one_upgradable_reader_at_a_time() {
    let cell = cell(1);
    let reader = cell.socket_ref();
    let upgradable = cell.try_socket_lock().unwrap();
    assert_eq!(*upgradable, *reader);
    assert!(cell.try_socket_lock().is_none());
    assert!(cell.try_socket_mut().is_none());
    drop(upgradable);
    assert!(cell.try_socket_lock().is_some());
}

#[test]
fn test_that_fails_leaves_a_read_lock() {
    let cell = cell(1);
    let guard = cell.socket_with(|_| false);
    assert!(matches!(guard, RwLockGuard::Read(_)));
    assert_eq!(*guard.get(), Socket::Tcp(listening(1)));
    assert!(cell.try_socket_ref().is_some());
    assert!(cell.try_socket_lock().is_some());
    assert!(cell.try_socket_mut().is_none());
    assert!(guard.write().is_none());
}

#[test]
fn test_that_passes_takes_the_write_lock() {
    let cell = cell(1);
    let guard = cell.socket_with(|socket| *socket == Socket::Tcp(listening(1)));
    assert!(matches!(guard, RwLockGuard::Write(_)));
    assert!(cell.try_socket_ref().is_none());
    assert!(cell.try_socket_lock().is_none());
    assert!(cell.try_socket_mut().is_none());
    let mut writer = guard.write().unwrap();
    *writer = Socket::Tcp(listening(9));
    drop(writer);
    assert_eq!(cell.socket(), Socket::Tcp(listening(9)));
}

#[test]
fn guard_is_one_of_read_and_write() {
    let cell = cell(1);
    assert!(cell.socket_with(|_| false).read().is_some());
    assert!(cell.socket_with(|_| true).read().is_none());
    assert!(cell.socket_with(|_| true).write().is_some());
    assert!(RwLockGuard::upgrade(cell.socket_lock()).write().is_some());
    assert!(RwLockGuard::downgrade(cell.socket_lock()).read().is_some());
}

#[test]
fn with_false_never_excludes_a_reader() {
    let mut set = SocketSet::new(ManagedSlice::Owned(vec![]));
    let handle = set.add(listening(7));
    let guard = set.with::<tcp::Socket, _>(handle, |_| false).unwrap();
    assert!(matches!(guard, MappedRwLockGuard::Read(_)));
    let reader = set.get::<tcp::Socket>(handle).unwrap();
    assert_eq!(*reader.get(), listening(7));
    assert_eq!(*guard.get(), listening(7));
    assert!(set.cell(0).unwrap().try_socket_mut().is_none());
}

#[test]
fn with_true_excludes_other_upgrades_and_writes() {
    let mut set = SocketSet::new(ManagedSlice::Owned(vec![]));
    let handle = set.add(listening(7));
    let guard = set
        .with::<tcp::Socket, _>(handle, |socket| socket.is_listening())
        .unwrap();
    assert!(matches!(guard, MappedRwLockGuard::Write(_)));
    let cell = set.cell(0).unwrap();
    assert!(cell.try_socket_lock().is_none());
    assert!(cell.try_socket_mut().is_none());
    assert!(cell.try_socket_ref().is_none());
    let mut writer = guard.write().unwrap();
    let mut socket = *writer.get();
    socket.abort();
    writer.set(socket);
    assert_eq!(*writer.get(), tcp::Socket::new());
    drop(writer);
    assert!(cell.try_socket_mut().is_some());
    assert_eq!(*set.get::<tcp::Socket>(handle).unwrap().get(), tcp::Socket::new());
}

#[test]
fn mapped_guard_is_one_of_read_and_write() {
    let cell = cell(3);
    assert!(cell
        .downcast_with::<tcp::Socket, _>(|_| false)
        .unwrap()
        .read()
        .is_some());
    assert!(cell
        .downcast_with::<tcp::Socket, _>(|_| false)
        .unwrap()
        .write()
        .is_none());
    assert!(cell
        .downcast_with::<tcp::Socket, _>(|_| true)
        .unwrap()
        .write()
        .is_some());
    let up = MappedRwLockGuard::<tcp::Socket>::upgrade(cell.socket_lock());
    assert_eq!(*up.get(), listening(3));
    assert!(up.write().is_some());
    let down = MappedRwLockGuard::<tcp::Socket>::downgrade(cell.socket_lock());
    assert!(down.read().is_some());
}

#[test]
fn guard_is_on_the_lock_of_its_own_cell() {
    let first = cell(1);
    let second = cell(2);
    {
        let mut writer = first.socket_mut();
        assert!(first.try_socket_ref().is_none());
        assert_eq!(*second.try_socket_ref().unwrap(), Socket::Tcp(listening(2)));
        assert_eq!(*second.try_socket_lock().unwrap(), Socket::Tcp(listening(2)));
        assert_eq!(*second.socket_lock(), Socket::Tcp(listening(2)));
        *second.try_socket_mut().unwrap() = Socket::Tcp(listening(3));
        *writer = Socket::Tcp(listening(4));
    }
    assert_eq!(*first.socket_ref(), Socket::Tcp(listening(4)));
    assert_eq!(*second.socket_ref(), Socket::Tcp(listening(3)));
    assert!(first.can_cast::<tcp::Socket>());
    assert_eq!(first.socket(), Socket::Tcp(listening(4)));
    assert_eq!(second.socket(), Socket::Tcp(listening(3)));
}

#[test]
fn record_has_a_lock_of_its_own() {
    let cell = cell(1);
    let writer = cell.socket_mut();
    assert_eq!(cell.handle(), SocketHandle::new(0));
    assert_eq!(cell.try_meta_ref().unwrap().handle, SocketHandle::new(0));
    assert_eq!(cell.meta_ref().handle, SocketHandle::new(0));
    drop(writer);
    let recorder = cell.meta_mut();
    assert!(cell.try_meta_ref().is_none());
    assert!(cell.try_meta_lock().is_none());
    assert!(cell.try_meta_mut().is_none());
    assert!(cell.try_socket_ref().is_some());
    assert!(cell.try_socket_mut().is_some());
    drop(recorder);
    assert!(cell.try_meta_mut().is_some());
    assert_eq!(cell.meta_lock().handle, SocketHandle::new(0));
}

#[test]
fn record_is_tested_before_it_is_locked_for_writing() {
    let cell = cell(1);
    {
        let guard = cell.meta_with(|record| record.handle == SocketHandle::new(5));
        assert!(matches!(guard, RwLockGuard::Read(_)));
        assert!(cell.try_meta_ref().is_some());
        assert!(cell.try_meta_mut().is_none());
    }
    {
        let guard = cell.meta_with(|record| record.handle == SocketHandle::new(0));
        assert!(matches!(guard, RwLockGuard::Write(_)));
        assert!(cell.try_meta_ref().is_none());
        assert!(cell.try_meta_lock().is_none());
        let mut writer = guard.write().unwrap();
        writer.handle = SocketHandle::new(9);
    }
    assert_eq!(cell.handle(), SocketHandle::new(9));
    assert_eq!(cell.meta().handle, SocketHandle::new(9));
}

#[test]
fn cell_gives_its_record_back() {
    let cell = SocketStorage::new(SocketHandle::new(3), Socket::Tcp(listening(1)));
    assert_eq!(cell.handle(), SocketHandle::new(3));
    assert_eq!(cell.meta().handle, SocketHandle::new(3));
}
