use op_runtime::async_cell::{Acquire, AsyncRefCell, Busy};
use op_runtime::error::{ErrorClass, ErrorKind};
use op_runtime::resources::{Resource, ResourceKind, ResourceTable};

#[test]
fn close_then_get_is_not_found() {
    let mut table = ResourceTable::new();
    for handle in 0..3u64 {
        table.add(Resource::new(ResourceKind::TcpStream, handle));
    }
    let rid = table.add(Resource::new(ResourceKind::TcpListener, 30));
    assert_eq!(rid, 3);
    assert!(table.get(3, ResourceKind::TcpListener).is_ok());
    assert!(table.close(3).is_ok());
    let err = table.get(3, ResourceKind::TcpListener).unwrap_err();
    assert_eq!(err.class, ErrorClass::BadResource);
    assert_eq!(err.kind(), ErrorKind::NotFound);
    assert_eq!(err.message, "Bad resource ID");
}

#[test]
fn fail_fast_borrows_on_one_cell() {
    let mut cell = AsyncRefCell::new();
    assert_eq!(cell.try_borrow_mut(1), Ok(()));
    assert_eq!(cell.try_borrow_mut(2), Err(Busy));
    assert_eq!(cell.waiting(), 0);
    assert_eq!(cell.release(1), None);
    assert_eq!(cell.try_borrow_mut(3), Ok(()));
    assert!(cell.is_held_by(3));
}

#[test]
fn suspended_borrows_are_served_in_order() {
    let mut cell = AsyncRefCell::new();
    assert_eq!(cell.borrow_mut(1), Acquire::Acquired);
    assert_eq!(cell.borrow_mut(2), Acquire::Queued);
    assert_eq!(cell.borrow_mut(3), Acquire::Queued);
    assert_eq!(cell.release(1), Some(2));
    assert_eq!(cell.release(2), Some(3));
    assert_eq!(cell.release(3), None);
    assert!(!cell.is_borrowed());
}
