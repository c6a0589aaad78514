//! The operations that a driver implements, and the table of entry points
//! through which the block layer reaches them.

use vstd::prelude::*;
use crate::error::{valid_errno, BlkStatus, Error, Violation};
use crate::hctx::{HctxCall, HwContext, HwContextModel, RequestQueue, SlotState, TagSet};
use crate::lifecycle::{
    accepted_submissions, completions, hctx_constructions, hctx_teardowns,
    lemma_hctx_construct_and_destroy_alternate, lemma_payload_constructed_and_destroyed_once,
    lemma_references_accounted_for, payload_constructions, payload_destructions,
    references_dropped, references_taken,
};
use crate::request::{recorded, PayloadPhase, Request, RequestCall, RequestModel};

verus! {

/// What a block-device driver implements. A driver is one implementation of
/// this trait: it has no state of its own, and names the four kinds of state
/// that the block layer keeps for it.
///
/// `poll` and `map_queues` are optional. A driver that implements one of them
/// says so in `HAS_POLL` or `HAS_MAP_QUEUES`; without that the operation has
/// no entry in the dispatch table and is never called.
pub trait Operations: Sized {
    /// State of the driver in each request, constructed when the request's
    /// slot is allocated. A submission and a completion may read it at the
    /// same time.
    type RequestData: Sized + Sync;

    /// State of the driver for a request queue, shared by the hardware
    /// contexts of the queue.
    type QueueData;

    /// State of the driver for one hardware context.
    type HwData;

    /// State of the driver for the whole pool of requests.
    type TagSetData;

    /// Whether the driver implements `poll`.
    const HAS_POLL: bool = false;

    /// Whether the driver implements `map_queues`.
    const HAS_MAP_QUEUES: bool = false;

    /// Makes the payload of one request. Called once for each slot of the
    /// pool, not once for each I/O.
    fn new_request_data(tagset_data: &Self::TagSetData) -> Result<Self::RequestData, Error>;

    /// Submits a request to the device. With `is_last` false more requests
    /// of the same batch follow, and the driver may put off telling the
    /// device until `commit_rqs`. A reference to the request has just been
    /// taken for the driver, beside those that were there: it is the
    /// driver's if this returns `Ok`, and is dropped if this returns an
    /// error.
    fn queue_rq(
        hw_data: &Self::HwData,
        queue_data: &Self::QueueData,
        rq: &Request<Self::RequestData>,
        is_last: bool,
    ) -> Result<(), Error>
        requires
            rq@.phase == PayloadPhase::Live,
            rq@.has_spare_ref(),
            rq.history().len() > 0 && rq.history().last() == RequestCall::Get,
    ;

    /// Tells the device of the submissions that were put off.
    fn commit_rqs(hw_data: &Self::HwData, queue_data: &Self::QueueData);

    /// Called when a request that the driver accepted is complete, before
    /// the driver's reference to it is dropped.
    fn complete(rq: &Request<Self::RequestData>)
        requires
            rq@.phase == PayloadPhase::Live,
            0 < rq@.held < rq@.refs,
    ;

    /// Makes the driver's state for the hardware context `hctx_idx`.
    fn init_hctx(tagset_data: &Self::TagSetData, hctx_idx: u32) -> Result<Self::HwData, Error>;

    /// Looks for completed requests on a polled queue and says whether it
    /// found any. A driver that does not implement polling has this body,
    /// which looks nowhere and finds none.
    fn poll(hw_data: &Self::HwData) -> (found: bool)
        ensures
            !Self::HAS_POLL ==> !found,
    {
        false
    }

    /// Assigns the hardware queues to processors in the driver's own way.
    fn map_queues(tag_set: &TagSet<Self::TagSetData>) {
    }
}

/// An operation that the block layer may find in a dispatch table.
#[derive(Clone, Copy, Debug, PartialEq, Eq, Structural)]
pub enum Operation {
    /// Submit one request.
    QueueRq,
    /// Submit a list of requests.
    QueueRqs,
    /// Commit the submissions that were put off.
    CommitRqs,
    /// Reserve budget for a dispatch.
    GetBudget,
    /// Give reserved budget back.
    PutBudget,
    /// Store the budget token in a request.
    SetRqBudgetToken,
    /// Read the budget token of a request.
    GetRqBudgetToken,
    /// Handle a request that timed out.
    Timeout,
    /// Poll for completed requests.
    Poll,
    /// Complete a request.
    Complete,
    /// Construct the state of a hardware context.
    InitHctx,
    /// Tear down the state of a hardware context.
    ExitHctx,
    /// Construct the payload of a request.
    InitRequest,
    /// Destroy the payload of a request.
    ExitRequest,
    /// Clean up a request before it is freed.
    CleanupRq,
    /// Say whether the device is busy.
    Busy,
    /// Assign hardware queues to processors.
    MapQueues,
    /// Print a request for debugging.
    ShowRq,
}

/// The table of entry points that the block layer is given for one driver.
/// Each field says whether the table holds an entry for that operation.
#[derive(Clone, Copy, Debug, PartialEq, Eq, Structural)]
pub struct DispatchTable {
    pub queue_rq: bool,
    pub queue_rqs: bool,
    pub commit_rqs: bool,
    pub get_budget: bool,
    pub put_budget: bool,
    pub set_rq_budget_token: bool,
    pub get_rq_budget_token: bool,
    pub timeout: bool,
    pub poll: bool,
    pub complete: bool,
    pub init_hctx: bool,
    pub exit_hctx: bool,
    pub init_request: bool,
    pub exit_request: bool,
    pub cleanup_rq: bool,
    pub busy: bool,
    pub map_queues: bool,
    pub show_rq: bool,
}

/// The table of a driver: the seven operations that every driver has, the
/// two optional ones where the driver implements them, and nothing else.
pub open spec fn dispatch_table(has_poll: bool, has_map_queues: bool) -> DispatchTable {
    DispatchTable {
        queue_rq: true,
        queue_rqs: false,
        commit_rqs: true,
        get_budget: false,
        put_budget: false,
        set_rq_budget_token: false,
        get_rq_budget_token: false,
        timeout: false,
        poll: has_poll,
        complete: true,
        init_hctx: true,
        exit_hctx: true,
        init_request: true,
        exit_request: true,
        cleanup_rq: false,
        busy: false,
        map_queues: has_map_queues,
        show_rq: false,
    }
}

impl DispatchTable {
    /// Whether the table holds an entry for `op`.
    pub open spec fn has(self, op: Operation) -> bool {
        match op {
            Operation::QueueRq => self.queue_rq,
            Operation::QueueRqs => self.queue_rqs,
            Operation::CommitRqs => self.commit_rqs,
            Operation::GetBudget => self.get_budget,
            Operation::PutBudget => self.put_budget,
            Operation::SetRqBudgetToken => self.set_rq_budget_token,
            Operation::GetRqBudgetToken => self.get_rq_budget_token,
            Operation::Timeout => self.timeout,
            Operation::Poll => self.poll,
            Operation::Complete => self.complete,
            Operation::InitHctx => self.init_hctx,
            Operation::ExitHctx => self.exit_hctx,
            Operation::InitRequest => self.init_request,
            Operation::ExitRequest => self.exit_request,
            Operation::CleanupRq => self.cleanup_rq,
            Operation::Busy => self.busy,
            Operation::MapQueues => self.map_queues,
            Operation::ShowRq => self.show_rq,
        }
    }

    /// The table of a driver that implements `poll` if `has_poll` and
    /// `map_queues` if `has_map_queues`.
    pub fn new(has_poll: bool, has_map_queues: bool) -> (table: DispatchTable)
        ensures
            table == dispatch_table(has_poll, has_map_queues),
    {
        DispatchTable {
            queue_rq: true,
            queue_rqs: false,
            commit_rqs: true,
            get_budget: false,
            put_budget: false,
            set_rq_budget_token: false,
            get_rq_budget_token: false,
            timeout: false,
            poll: has_poll,
            complete: true,
            init_hctx: true,
            exit_hctx: true,
            init_request: true,
            exit_request: true,
            cleanup_rq: false,
            busy: false,
            map_queues: has_map_queues,
            show_rq: false,
        }
    }

    /// Whether the table holds an entry for `op`.
    pub fn provides(&self, op: Operation) -> (present: bool)
        ensures
            present == self.has(op),
    {
        match op {
            Operation::QueueRq => self.queue_rq,
            Operation::QueueRqs => self.queue_rqs,
            Operation::CommitRqs => self.commit_rqs,
            Operation::GetBudget => self.get_budget,
            Operation::PutBudget => self.put_budget,
            Operation::SetRqBudgetToken => self.set_rq_budget_token,
            Operation::GetRqBudgetToken => self.get_rq_budget_token,
            Operation::Timeout => self.timeout,
            Operation::Poll => self.poll,
            Operation::Complete => self.complete,
            Operation::InitHctx => self.init_hctx,
            Operation::ExitHctx => self.exit_hctx,
            Operation::InitRequest => self.init_request,
            Operation::ExitRequest => self.exit_request,
            Operation::CleanupRq => self.cleanup_rq,
            Operation::Busy => self.busy,
            Operation::MapQueues => self.map_queues,
            Operation::ShowRq => self.show_rq,
        }
    }
}

/// The violation that stops a submission before the driver is called, if
/// there is one: the hardware context must be active, the payload live, and
/// the reference count not zero.
pub open spec fn submit_violation(hctx: HwContextModel, rq: RequestModel) -> Option<Violation> {
    if !hctx.active() {
        Some(Violation::ContextNotActive)
    } else {
        rq.take_violation()
    }
}

/// The violation that stops a completion before the driver is called, if
/// there is one: the driver must hold a reference to the request.
pub open spec fn complete_violation(rq: RequestModel) -> Option<Violation> {
    if rq.held == 0 {
        Some(Violation::RefcountUnderflow)
    } else {
        None
    }
}

/// The violation that stops a poll before the driver is called, if there is
/// one: the driver must implement polling and the context be active.
pub open spec fn poll_violation(has_poll: bool, hctx: HwContextModel) -> Option<Violation> {
    if !has_poll {
        Some(Violation::Unsupported)
    } else if !hctx.active() {
        Some(Violation::ContextNotActive)
    } else {
        None
    }
}

/// The number that the block layer is given for a poll: one where
/// completions were found, zero where none were.
pub open spec fn poll_count(found: bool) -> int {
    if found {
        1
    } else {
        0
    }
}

/// The number that the block layer is given for a poll that found
/// completions, or found none.
pub fn poll_result(found: bool) -> (n: i32)
    ensures
        n as int == poll_count(found),
{
    if found {
        1
    } else {
        0
    }
}

/// The entry points of the driver `T`: one trampoline for each operation
/// that the block layer may call. A trampoline checks what the block layer
/// owes before the call, lends the driver its state, calls the driver, and
/// puts the outcome in the block layer's terms. Where the check fails it
/// returns the violation and has changed nothing and called nothing.
pub struct OperationsVTable<T: Operations> {
    driver: core::marker::PhantomData<T>,
}

impl<T: Operations> OperationsVTable<T> {
    /// The dispatch table of the driver `T`.
    pub open spec fn table() -> DispatchTable {
        dispatch_table(T::HAS_POLL, T::HAS_MAP_QUEUES)
    }

    /// Submits `rq` on the hardware context `hctx`; `last` says that no
    /// further request of the batch follows.
    ///
    /// A reference is taken for the driver before it is called. After a
    /// success the driver holds it; after any failure the request is as it
    /// was before the call. The reference count must leave room for one
    /// more.
    ///
    /// Whenever the driver is called, the payload of the request has been
    /// constructed exactly once and not destroyed, and the context has been
    /// constructed and not torn down since.
    pub fn queue_rq_callback(
        hctx: &HwContext<T::HwData>,
        queue: &RequestQueue<T::QueueData>,
        rq: &mut Request<T::RequestData>,
        last: bool,
    ) -> (r: Result<BlkStatus, Violation>)
        requires
            old(rq)@.refs < u64::MAX,
        ensures
            r is Err <==> submit_violation(hctx@, old(rq)@) is Some,
            r matches Err(v) ==> submit_violation(hctx@, old(rq)@) == Some(v),
            r == Ok::<BlkStatus, Violation>(BlkStatus::Success) ==>
                final(rq)@ == old(rq)@.submitted(),
            r != Ok::<BlkStatus, Violation>(BlkStatus::Success) ==> final(rq)@ == old(rq)@,
            r matches Ok(status) ==> final(rq).history() == old(rq).history().push(
                RequestCall::Get,
            ).push(RequestCall::Submit { accepted: status == BlkStatus::Success }),
            r is Err ==> final(rq).history() == old(rq).history(),
            r is Ok ==> payload_constructions(old(rq).history()) == 1
                && payload_destructions(old(rq).history()) == 0,
            r is Ok ==> hctx_constructions(hctx.history()) == hctx_teardowns(hctx.history()) + 1,
            final(rq).payload() == old(rq).payload(),
    {
        proof {
            use_type_invariant(hctx);
            use_type_invariant(&*rq);
            lemma_hctx_construct_and_destroy_alternate(hctx@.index, hctx.history());
            lemma_payload_constructed_and_destroyed_once(rq@.tag, rq.history());
        }
        let hw_data = match hctx.data() {
            Some(data) => data,
            None => {
                return Err(Violation::ContextNotActive);
            },
        };
        if rq.phase() != PayloadPhase::Live {
            return Err(Violation::PayloadNotLive);
        }
        if !rq.get() {
            return Err(Violation::ZeroRefcount);
        }
        let answer = T::queue_rq(hw_data, queue.queue_data(), rq, last);
        rq.settle(answer)
    }

    /// Has the driver commit the submissions that it put off on `hctx`,
    /// which has been constructed and not torn down since.
    pub fn commit_rqs_callback(
        hctx: &HwContext<T::HwData>,
        queue: &RequestQueue<T::QueueData>,
    ) -> (r: Result<(), Violation>)
        ensures
            r is Ok <==> hctx@.active(),
            r matches Err(v) ==> v == Violation::ContextNotActive,
            r is Ok ==> hctx_constructions(hctx.history()) == hctx_teardowns(hctx.history()) + 1,
    {
        match hctx.data() {
            Some(hw_data) => {
                proof {
                    use_type_invariant(hctx);
                    lemma_hctx_construct_and_destroy_alternate(hctx@.index, hctx.history());
                }
                T::commit_rqs(hw_data, queue.queue_data());
                Ok(())
            },
            None => Err(Violation::ContextNotActive),
        }
    }

    /// Completes a submission of `rq` that the driver accepted and that has
    /// not been completed yet: the driver is told, and its reference is
    /// dropped. The reference count does not reach zero by this: the block
    /// layer holds a reference still.
    pub fn complete_callback(rq: &mut Request<T::RequestData>) -> (r: Result<(), Violation>)
        ensures
            r is Err <==> complete_violation(old(rq)@) is Some,
            r matches Err(v) ==> complete_violation(old(rq)@) == Some(v),
            r is Ok ==> final(rq)@ == old(rq)@.completed() && final(rq)@.refs > 0,
            r is Err ==> final(rq)@ == old(rq)@,
            final(rq).history() == recorded(old(rq).history(), r is Ok, RequestCall::Complete),
            r is Ok <==> completions(old(rq).history()) < accepted_submissions(
                old(rq).history(),
            ),
            final(rq).payload() == old(rq).payload(),
    {
        proof {
            use_type_invariant(&*rq);
            lemma_references_accounted_for(rq@.tag, rq.history());
        }
        if rq.driver_refs() == 0 {
            return Err(Violation::RefcountUnderflow);
        }
        T::complete(rq);
        rq.release()
    }

    /// Polls `hctx`, which has been constructed and not torn down since, for
    /// completed requests. Returns one where the driver found any and zero
    /// where it found none.
    pub fn poll_callback(hctx: &HwContext<T::HwData>) -> (r: Result<i32, Violation>)
        ensures
            r is Err <==> poll_violation(T::HAS_POLL, hctx@) is Some,
            r matches Err(v) ==> poll_violation(T::HAS_POLL, hctx@) == Some(v),
            r matches Ok(n) ==> n == 0 || n == 1,
            r is Ok ==> hctx_constructions(hctx.history()) == hctx_teardowns(hctx.history()) + 1,
            r is Ok ==> Self::table().has(Operation::Poll),
    {
        if !T::HAS_POLL {
            return Err(Violation::Unsupported);
        }
        match hctx.data() {
            Some(hw_data) => {
                proof {
                    use_type_invariant(hctx);
                    lemma_hctx_construct_and_destroy_alternate(hctx@.index, hctx.history());
                }
                Ok(poll_result(T::poll(hw_data)))
            },
            None => Err(Violation::ContextNotActive),
        }
    }

    /// Constructs the driver's state for `hctx`, which must not be active
    /// and in whose slot no construction must have failed. Returns zero and
    /// leaves the context active, or returns the negated error number of
    /// the driver's constructor and leaves the slot failed.
    ///
    /// Whenever the driver is called, every earlier construction of the
    /// context has been torn down.
    pub fn init_hctx_callback(
        hctx: &mut HwContext<T::HwData>,
        tagset: &TagSet<T::TagSetData>,
    ) -> (r: Result<i32, Violation>)
        ensures
            r is Err <==> old(hctx)@.init_violation() is Some,
            r matches Err(v) ==> old(hctx)@.init_violation() == Some(v),
            r matches Ok(code) ==> code == 0 || valid_errno(code as int),
            r == Ok::<i32, Violation>(0) ==> final(hctx)@ == old(hctx)@.activated(),
            r is Ok && r != Ok::<i32, Violation>(0) ==> final(hctx)@ == old(hctx)@.failed(),
            r is Err ==> final(hctx)@ == old(hctx)@
                && final(hctx).driver_data() == old(hctx).driver_data()
                && final(hctx).history() == old(hctx).history(),
            r matches Ok(code) ==> final(hctx).history() == old(hctx).history().push(
                HctxCall::Init { built: code == 0 },
            ),
            r is Ok ==> hctx_constructions(old(hctx).history()) == hctx_teardowns(
                old(hctx).history(),
            ),
    {
        proof {
            use_type_invariant(&*hctx);
            lemma_hctx_construct_and_destroy_alternate(hctx@.index, hctx.history());
        }
        match hctx.state() {
            SlotState::Active => {
                return Err(Violation::ContextActive);
            },
            SlotState::Failed => {
                return Err(Violation::ContextFailed);
            },
            _ => {},
        }
        let made = T::init_hctx(tagset.data(), hctx.index());
        hctx.install(made)
    }

    /// Tears down the driver's state of `hctx`, which must be active: the
    /// state is taken out of the context and destroyed. The context has
    /// then been torn down as often as it was constructed.
    pub fn exit_hctx_callback(hctx: &mut HwContext<T::HwData>) -> (r: Result<(), Violation>)
        ensures
            r is Ok <==> old(hctx)@.active(),
            r matches Err(v) ==> v == Violation::ContextNotActive,
            r is Ok ==> final(hctx)@ == old(hctx)@.torn_down(),
            r is Err ==> final(hctx)@ == old(hctx)@
                && final(hctx).driver_data() == old(hctx).driver_data(),
            final(hctx).history() == (if r is Ok {
                old(hctx).history().push(HctxCall::Exit)
            } else {
                old(hctx).history()
            }),
            r is Ok ==> hctx_constructions(old(hctx).history()) == hctx_teardowns(
                old(hctx).history(),
            ) + 1,
    {
        proof {
            use_type_invariant(&*hctx);
            lemma_hctx_construct_and_destroy_alternate(hctx@.index, hctx.history());
        }
        match hctx.reclaim() {
            Ok(_) => Ok(()),
            Err(v) => Err(v),
        }
    }

    /// Constructs the payload of `rq`, whose slot must be vacant. Returns
    /// zero and leaves the payload live, or returns the negated error number
    /// of the driver's constructor and leaves the slot vacant.
    ///
    /// Whenever the driver is called, no payload has been constructed in
    /// the slot before.
    pub fn init_request_callback(
        set: &TagSet<T::TagSetData>,
        rq: &mut Request<T::RequestData>,
    ) -> (r: Result<i32, Violation>)
        ensures
            r is Err <==> old(rq)@.phase != PayloadPhase::Vacant,
            r matches Err(v) ==> v == Violation::PayloadNotVacant,
            r matches Ok(code) ==> code == 0 || valid_errno(code as int),
            r == Ok::<i32, Violation>(0) ==> final(rq)@ == old(rq)@.constructed(),
            r != Ok::<i32, Violation>(0) ==> final(rq)@ == old(rq)@
                && final(rq).payload() == old(rq).payload(),
            r matches Ok(code) ==> final(rq).history() == old(rq).history().push(
                RequestCall::InitRequest { built: code == 0 },
            ),
            r is Err ==> final(rq).history() == old(rq).history(),
            r is Ok ==> payload_constructions(old(rq).history()) == 0,
    {
        proof {
            use_type_invariant(&*rq);
            lemma_payload_constructed_and_destroyed_once(rq@.tag, rq.history());
        }
        if rq.phase() != PayloadPhase::Vacant {
            return Err(Violation::PayloadNotVacant);
        }
        let made = T::new_request_data(set.data());
        rq.install(made)
    }

    /// Destroys the payload of `rq`, which must be live and referred to by
    /// nobody. The slot is retired.
    ///
    /// The payload that is destroyed has been constructed exactly once and
    /// never destroyed before; every submission that the driver accepted
    /// has been completed, and every reference that was taken has been
    /// given up.
    pub fn exit_request_callback(rq: &mut Request<T::RequestData>) -> (r: Result<(), Violation>)
        ensures
            r is Err <==> old(rq)@.destroy_violation() is Some,
            r matches Err(v) ==> old(rq)@.destroy_violation() == Some(v),
            r is Ok ==> final(rq)@ == old(rq)@.destroyed(),
            r is Err ==> final(rq)@ == old(rq)@ && final(rq).payload() == old(rq).payload(),
            final(rq).history() == recorded(old(rq).history(), r is Ok, RequestCall::ExitRequest),
            r is Ok ==> payload_constructions(old(rq).history()) == 1
                && payload_destructions(old(rq).history()) == 0,
            r is Ok ==> completions(old(rq).history()) == accepted_submissions(old(rq).history())
                && references_dropped(old(rq).history()) == references_taken(old(rq).history()),
    {
        proof {
            use_type_invariant(&*rq);
            lemma_payload_constructed_and_destroyed_once(rq@.tag, rq.history());
            lemma_references_accounted_for(rq@.tag, rq.history());
        }
        match rq.retire() {
            Ok(_) => Ok(()),
            Err(v) => Err(v),
        }
    }

    /// Has the driver assign the hardware queues of `tag_set` to processors.
    pub fn map_queues_callback(tag_set: &TagSet<T::TagSetData>) -> (r: Result<(), Violation>)
        ensures
            r is Ok <==> T::HAS_MAP_QUEUES,
            r matches Err(v) ==> v == Violation::Unsupported,
            r is Ok ==> Self::table().has(Operation::MapQueues),
    {
        if T::HAS_MAP_QUEUES {
            T::map_queues(tag_set);
            Ok(())
        } else {
            Err(Violation::Unsupported)
        }
    }

    /// The dispatch table of the driver `T`: an entry for each operation
    /// that every driver has, and for `poll` and `map_queues` exactly where
    /// `T` implements them.
    pub fn build() -> (table: DispatchTable)
        ensures
            table == Self::table(),
    {
        DispatchTable::new(T::HAS_POLL, T::HAS_MAP_QUEUES)
    }
}

} // verus!
