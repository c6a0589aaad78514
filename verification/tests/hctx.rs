use blk_mq_ops::error::{EINVAL, ENXIO};
use blk_mq_ops::{Error, HwContext, RequestQueue, SlotState, TagSet, Violation};

#[test]
fn fresh_context_is_uninitialized() {
    let hctx: HwContext<String> = HwContext::new(12);
    assert_eq!(hctx.index(), 12);
    assert_eq!(hctx.state(), SlotState::Uninitialized);
    assert!(!hctx.is_active());
    assert_eq!(hctx.data(), None);
}

#[test]
fn install_activates_the_context() {
    let mut hctx: HwContext<String> = HwContext::new(0);
    assert_eq!(hctx.install(Ok(String::from("ring"))), Ok(0));
    assert!(hctx.is_active());
    assert_eq!(hctx.state(), SlotState::Active);
    assert_eq!(hctx.data().map(|s| s.as_str()), Some("ring"));
    assert_eq!(hctx.install(Ok(String::from("other"))), Err(Violation::ContextActive));
    assert_eq!(hctx.install(Err(Error::from_errno(-ENXIO))), Err(Violation::ContextActive));
    assert_eq!(hctx.data().map(|s| s.as_str()), Some("ring"));
    assert_eq!(hctx.index(), 0);
}

#[test]
fn install_reports_the_constructors_error_for_a_context() {
    let mut hctx: HwContext<String> = HwContext::new(3);
    assert_eq!(hctx.install(Err(Error::from_errno(-ENXIO))), Ok(-6));
    assert_eq!(hctx.state(), SlotState::Failed);
    assert!(!hctx.is_active());
    assert_eq!(hctx.data(), None);
    assert_eq!(hctx.install(Err(Error::from_errno(-EINVAL))), Err(Violation::ContextFailed));
    assert_eq!(hctx.install(Ok(String::from("ring"))), Err(Violation::ContextFailed));
    assert_eq!(hctx.reclaim(), Err(Violation::ContextNotActive));
    assert_eq!(hctx.state(), SlotState::Failed);
    assert_eq!(hctx.index(), 3);

    let mut torn: HwContext<String> = HwContext::new(4);
    assert_eq!(torn.install(Ok(String::from("ring"))), Ok(0));
    assert_eq!(torn.reclaim(), Ok(String::from("ring")));
    assert_eq!(torn.install(Err(Error::from_errno(-EINVAL))), Ok(-22));
    assert_eq!(torn.state(), SlotState::Failed);
}

#[test]
fn reclaim_takes_the_state_back() {
    let mut hctx: HwContext<String> = HwContext::new(1);
    assert_eq!(hctx.reclaim(), Err(Violation::ContextNotActive));
    assert_eq!(hctx.state(), SlotState::Uninitialized);
    assert_eq!(hctx.install(Ok(String::from("ring"))), Ok(0));
    assert_eq!(hctx.reclaim(), Ok(String::from("ring")));
    assert_eq!(hctx.state(), SlotState::TornDown);
    assert_eq!(hctx.data(), None);
    assert_eq!(hctx.reclaim(), Err(Violation::ContextNotActive));
    assert_eq!(hctx.state(), SlotState::TornDown);
    assert_eq!(hctx.install(Ok(String::from("second"))), Ok(0));
    assert_eq!(hctx.reclaim(), Ok(String::from("second")));
    assert_eq!(hctx.index(), 1);
}

#[test]
fn queue_and_tag_set_lend_their_state() {
    let queue = RequestQueue::new(vec![1u8, 2, 3]);
    assert_eq!(queue.queue_data(), &vec![1u8, 2, 3]);

    let set = TagSet::new(8, String::from("pool"));
    assert_eq!(set.nr_hw_queues(), 8);
    assert_eq!(set.data(), "pool");
}
