use blk_mq_ops::error::{EAGAIN, EBUSY, ENOMEM, ENOSPC};
use blk_mq_ops::{BlkStatus, Error, PayloadPhase, Request, Violation};

fn live(tag: u32) -> Request<&'static str> {
    let mut rq = Request::new(tag);
    assert_eq!(rq.install(Ok("payload")), Ok(0));
    rq
}

#[test]
fn fresh_request_is_vacant_and_unreferenced() {
    let rq: Request<u64> = Request::new(41);
    assert_eq!(rq.tag(), 41);
    assert_eq!(rq.refcount(), 0);
    assert_eq!(rq.driver_refs(), 0);
    assert_eq!(rq.phase(), PayloadPhase::Vacant);
    assert_eq!(rq.data(), None);
}

#[test]
fn install_puts_the_payload_in_place() {
    let mut rq: Request<u64> = Request::new(1);
    assert_eq!(rq.install(Ok(99)), Ok(0));
    assert_eq!(rq.data(), Some(&99));
    assert_eq!(rq.phase(), PayloadPhase::Live);
    assert_eq!(rq.install(Ok(100)), Err(Violation::PayloadNotVacant));
    assert_eq!(rq.data(), Some(&99));
    assert_eq!(rq.tag(), 1);
}

#[test]
fn install_reports_the_constructors_error() {
    let mut rq: Request<u64> = Request::new(1);
    assert_eq!(rq.install(Err(Error::from_errno(-ENOMEM))), Ok(-12));
    assert_eq!(rq.phase(), PayloadPhase::Vacant);
    assert_eq!(rq.data(), None);
    assert_eq!(rq.install(Err(Error::from_errno(-ENOSPC))), Ok(-28));
    assert_eq!(rq.install(Ok(3)), Ok(0));
    assert_eq!(rq.install(Err(Error::from_errno(-ENOMEM))), Err(Violation::PayloadNotVacant));
    assert_eq!(rq.data(), Some(&3));
}

#[test]
fn issue_sets_the_first_reference() {
    let mut vacant: Request<u8> = Request::new(0);
    assert_eq!(vacant.issue(), Err(Violation::PayloadNotLive));
    assert_eq!(vacant.refcount(), 0);

    let mut rq = live(2);
    assert_eq!(rq.issue(), Ok(()));
    assert_eq!(rq.refcount(), 1);
    assert_eq!(rq.issue(), Err(Violation::RequestBusy));
    assert_eq!(rq.refcount(), 1);
    assert_eq!(rq.put(), Ok(true));
    assert_eq!(rq.issue(), Ok(()));
    assert_eq!(rq.refcount(), 1);
}

#[test]
fn get_takes_a_reference_unless_zero() {
    let mut rq = live(2);
    assert!(!rq.get());
    assert_eq!(rq.refcount(), 0);
    assert_eq!(rq.issue(), Ok(()));
    assert!(rq.get());
    assert!(rq.get());
    assert_eq!(rq.refcount(), 3);
    assert_eq!(rq.driver_refs(), 0);
    assert_eq!(rq.put(), Ok(false));
    assert_eq!(rq.put(), Ok(false));
    assert_eq!(rq.put(), Ok(true));
    assert_eq!(rq.put(), Err(Violation::RefcountUnderflow));
    assert_eq!(rq.refcount(), 0);
}

#[test]
fn settle_hands_the_reference_to_the_driver() {
    let mut rq = live(2);
    assert_eq!(rq.issue(), Ok(()));
    assert!(rq.get());
    assert_eq!(rq.settle(Ok(())), Ok(BlkStatus::Success));
    assert_eq!((rq.refcount(), rq.driver_refs()), (2, 1));
    assert_eq!(rq.data(), Some(&"payload"));
}

#[test]
fn settle_drops_the_reference_on_refusal() {
    let mut rq = live(2);
    assert_eq!(rq.issue(), Ok(()));
    assert!(rq.get());
    assert_eq!(rq.settle(Err(Error::from_errno(-EBUSY))), Ok(BlkStatus::DevResource));
    assert_eq!((rq.refcount(), rq.driver_refs()), (1, 0));
    assert!(rq.get());
    assert_eq!(rq.settle(Err(Error::from_errno(-EAGAIN))), Ok(BlkStatus::Again));
    assert_eq!((rq.refcount(), rq.driver_refs()), (1, 0));
}

#[test]
fn settle_needs_a_reference_to_hand_over() {
    let mut rq = live(2);
    assert_eq!(rq.settle(Ok(())), Err(Violation::RefcountUnderflow));
    assert_eq!(rq.settle(Err(Error::from_errno(-EBUSY))), Err(Violation::RefcountUnderflow));
    assert_eq!((rq.refcount(), rq.driver_refs()), (0, 0));
    assert_eq!(rq.issue(), Ok(()));
    assert_eq!(rq.settle(Ok(())), Err(Violation::RefcountUnderflow));
    assert_eq!(rq.settle(Err(Error::from_errno(-EBUSY))), Err(Violation::RefcountUnderflow));
    assert_eq!((rq.refcount(), rq.driver_refs()), (1, 0));
    assert!(rq.get());
    assert_eq!(rq.settle(Ok(())), Ok(BlkStatus::Success));
    assert_eq!((rq.refcount(), rq.driver_refs()), (2, 1));
    assert_eq!(rq.settle(Ok(())), Err(Violation::RefcountUnderflow));
    assert_eq!(rq.settle(Err(Error::from_errno(-EBUSY))), Err(Violation::RefcountUnderflow));
    assert_eq!((rq.refcount(), rq.driver_refs()), (2, 1));
}

#[test]
fn put_keeps_a_reference_beside_the_drivers() {
    let mut rq = live(3);
    assert_eq!(rq.put(), Err(Violation::RefcountUnderflow));
    assert_eq!(rq.issue(), Ok(()));
    assert!(rq.get());
    assert_eq!(rq.settle(Ok(())), Ok(BlkStatus::Success));
    assert_eq!(rq.put(), Err(Violation::RequestBusy));
    assert_eq!((rq.refcount(), rq.driver_refs()), (2, 1));
    assert_eq!(rq.release(), Ok(()));
    assert_eq!(rq.put(), Ok(true));
    assert_eq!((rq.refcount(), rq.driver_refs()), (0, 0));
}

#[test]
fn release_gives_up_the_drivers_reference() {
    let mut rq = live(2);
    assert_eq!(rq.issue(), Ok(()));
    assert_eq!(rq.release(), Err(Violation::RefcountUnderflow));
    assert!(rq.get());
    assert_eq!(rq.settle(Ok(())), Ok(BlkStatus::Success));
    assert_eq!(rq.release(), Ok(()));
    assert_eq!((rq.refcount(), rq.driver_refs()), (1, 0));
    assert_eq!(rq.release(), Err(Violation::RefcountUnderflow));
    assert_eq!((rq.refcount(), rq.driver_refs()), (1, 0));
}

#[test]
fn retire_takes_the_payload_out() {
    let mut vacant: Request<u8> = Request::new(0);
    assert_eq!(vacant.retire(), Err(Violation::PayloadNotLive));
    assert_eq!(vacant.phase(), PayloadPhase::Vacant);

    let mut rq = live(6);
    assert_eq!(rq.issue(), Ok(()));
    assert_eq!(rq.retire(), Err(Violation::RequestBusy));
    assert_eq!(rq.data(), Some(&"payload"));
    assert_eq!(rq.put(), Ok(true));
    assert_eq!(rq.retire(), Ok("payload"));
    assert_eq!(rq.phase(), PayloadPhase::Retired);
    assert_eq!(rq.data(), None);
    assert_eq!(rq.tag(), 6);
    assert_eq!(rq.retire(), Err(Violation::PayloadNotLive));
    assert_eq!(rq.install(Ok("again")), Err(Violation::PayloadNotVacant));
    assert!(!rq.get());
}
