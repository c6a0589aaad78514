//! The state that a driver keeps with the block layer: one value for each
//! hardware context, one for each request queue, one for each tag set.

use vstd::prelude::*;
use crate::error::{errno_of_result, valid_errno, Error, Violation};

verus! {

/// Where the slot of a hardware context stands in its life.
#[derive(Clone, Copy, Debug, PartialEq, Eq, Structural)]
pub enum SlotState {
    /// The driver's state has never been constructed.
    Uninitialized,
    /// The driver's state is constructed; requests may be dispatched.
    Active,
    /// The driver's state has been torn down.
    TornDown,
    /// The construction of the driver's state failed. The slot is given up:
    /// the next attempt needs a fresh one.
    Failed,
}

/// What the bridging contract knows of a hardware context.
pub struct HwContextModel {
    /// The index of the hardware queue.
    pub index: u32,
    /// The state of the slot.
    pub state: SlotState,
}

impl HwContextModel {
    /// The context of the hardware queue `index`, before its construction.
    pub open spec fn fresh(index: u32) -> HwContextModel {
        HwContextModel { index, state: SlotState::Uninitialized }
    }

    /// The context with the driver's state installed.
    pub open spec fn activated(self) -> HwContextModel {
        HwContextModel { state: SlotState::Active, ..self }
    }

    /// The context with the driver's state torn down.
    pub open spec fn torn_down(self) -> HwContextModel {
        HwContextModel { state: SlotState::TornDown, ..self }
    }

    /// The context after the construction of the driver's state failed.
    pub open spec fn failed(self) -> HwContextModel {
        HwContextModel { state: SlotState::Failed, ..self }
    }

    /// Whether requests may be dispatched to the context.
    pub open spec fn active(self) -> bool {
        self.state == SlotState::Active
    }

    /// The violation that stops the construction of the driver's state, if
    /// there is one: the context must not be active, and no construction
    /// must have failed in its slot.
    pub open spec fn init_violation(self) -> Option<Violation> {
        if self.state == SlotState::Active {
            Some(Violation::ContextActive)
        } else if self.state == SlotState::Failed {
            Some(Violation::ContextFailed)
        } else {
            None
        }
    }
}

/// A call on a hardware context that is no violation.
pub enum HctxCall {
    /// The construction of the driver's state; `built` says whether the
    /// driver's constructor succeeded.
    Init { built: bool },
    /// A submission, a commit or a poll.
    Dispatch,
    /// The teardown of the driver's state.
    Exit,
}

/// The context after `call`, or `None` where the call is a violation.
pub open spec fn hctx_step(hctx: HwContextModel, call: HctxCall) -> Option<HwContextModel> {
    match call {
        HctxCall::Init { built } => if hctx.init_violation() is Some {
            None
        } else if built {
            Some(hctx.activated())
        } else {
            Some(hctx.failed())
        },
        HctxCall::Dispatch => if hctx.active() {
            Some(hctx)
        } else {
            None
        },
        HctxCall::Exit => if hctx.active() {
            Some(hctx.torn_down())
        } else {
            None
        },
    }
}

/// The context after the calls of `calls` in turn, or `None` where one of
/// them is a violation.
pub open spec fn hctx_run(start: HwContextModel, calls: Seq<HctxCall>) -> Option<HwContextModel>
    decreases calls.len(),
{
    if calls.len() == 0 {
        Some(start)
    } else {
        match hctx_run(start, calls.drop_last()) {
            Some(hctx) => hctx_step(hctx, calls.last()),
            None => None,
        }
    }
}

/// The history `calls` with one more call runs as `calls` does, followed by
/// that call.
pub proof fn lemma_hctx_run_push(start: HwContextModel, calls: Seq<HctxCall>, call: HctxCall)
    ensures
        hctx_run(start, calls.push(call)) == match hctx_run(start, calls) {
            Some(hctx) => hctx_step(hctx, call),
            None => None,
        },
{
    assert(calls.push(call).drop_last() =~= calls);
}

/// The slot of one hardware submission queue. The block layer owns it and
/// with it the driver's state `H`, which it lends to the driver for the
/// length of each call.
///
/// For proofs, a context remembers the constructions and teardowns that
/// have led to its state: its history. A dispatch leaves the context as it
/// is and is not remembered.
pub struct HwContext<H> {
    index: u32,
    slot: Slot<H>,
    history: Ghost<Seq<HctxCall>>,
}

/// What the slot of a hardware context holds.
enum Slot<H> {
    Uninitialized,
    Active(H),
    TornDown,
    Failed,
}

impl<H> View for HwContext<H> {
    type V = HwContextModel;

    closed spec fn view(&self) -> HwContextModel {
        HwContextModel {
            index: self.index,
            state: match self.slot {
                Slot::Uninitialized => SlotState::Uninitialized,
                Slot::Active(_) => SlotState::Active,
                Slot::TornDown => SlotState::TornDown,
                Slot::Failed => SlotState::Failed,
            },
        }
    }
}

impl<H> HwContext<H> {
    /// The constructions and teardowns that have led to the context as it
    /// is, oldest first.
    pub closed spec fn history(&self) -> Seq<HctxCall> {
        self.history@
    }

    /// What holds of every context: its history is accepted from a fresh
    /// slot and ends in the context as it is.
    #[verifier::type_invariant]
    pub open spec fn wf(&self) -> bool {
        hctx_run(HwContextModel::fresh(self@.index), self.history()) == Some(self@)
    }

    /// The driver's state, while the context is active.
    pub closed spec fn driver_data(&self) -> Option<H> {
        match self.slot {
            Slot::Active(data) => Some(data),
            _ => None,
        }
    }

    /// A context holds the driver's state exactly while it is active.
    pub proof fn lemma_driver_data_while_active(&self)
        ensures
            self.driver_data() is Some <==> self@.active(),
    {
    }

    /// The slot of the hardware queue `index`, before its construction.
    pub fn new(index: u32) -> (hctx: Self)
        ensures
            hctx@ == HwContextModel::fresh(index),
            hctx.history() == Seq::<HctxCall>::empty(),
    {
        HwContext { index, slot: Slot::Uninitialized, history: Ghost(Seq::empty()) }
    }

    /// The index of the hardware queue.
    pub fn index(&self) -> (index: u32)
        ensures
            index == self@.index,
    {
        self.index
    }

    /// The state of the slot.
    pub fn state(&self) -> (state: SlotState)
        ensures
            state == self@.state,
    {
        match self.slot {
            Slot::Uninitialized => SlotState::Uninitialized,
            Slot::Active(_) => SlotState::Active,
            Slot::TornDown => SlotState::TornDown,
            Slot::Failed => SlotState::Failed,
        }
    }

    /// Whether requests may be dispatched to the context.
    pub fn is_active(&self) -> (active: bool)
        ensures
            active == self@.active(),
    {
        match self.slot {
            Slot::Active(_) => true,
            _ => false,
        }
    }

    /// The driver's state, which is there exactly while the context is
    /// active.
    pub fn data(&self) -> (data: Option<&H>)
        ensures
            data is Some <==> self@.active(),
            data matches Some(d) ==> self.driver_data() == Some(*d),
            data is None ==> self.driver_data() is None,
    {
        match &self.slot {
            Slot::Active(data) => Some(data),
            _ => None,
        }
    }

    /// Ends the construction of a context, with what the driver's
    /// constructor made. The driver's state is installed and zero returned;
    /// a failure marks the slot as failed and returns its negated error
    /// number. A context that is active, or whose construction failed
    /// before, is left as it is.
    pub fn install(&mut self, made: Result<H, Error>) -> (r: Result<i32, Violation>)
        ensures
            r is Err <==> old(self)@.init_violation() is Some,
            r matches Err(v) ==> old(self)@.init_violation() == Some(v),
            r matches Ok(code) ==> code as int == errno_of_result(made.err()),
            r matches Ok(code) ==> (code == 0 <==> made is Ok)
                && (made is Err ==> valid_errno(code as int)),
            r is Ok && made is Ok ==> final(self)@ == old(self)@.activated()
                && final(self).driver_data() == made.ok(),
            r is Ok && made is Err ==> final(self)@ == old(self)@.failed(),
            r is Err ==> final(self)@ == old(self)@
                && final(self).driver_data() == old(self).driver_data(),
            final(self).history() == (if r is Ok {
                old(self).history().push(HctxCall::Init { built: made is Ok })
            } else {
                old(self).history()
            }),
    {
        proof {
            use_type_invariant(&*self);
        }
        match self.slot {
            Slot::Active(_) => {
                return Err(Violation::ContextActive);
            },
            Slot::Failed => {
                return Err(Violation::ContextFailed);
            },
            _ => {},
        }
        let ghost call = HctxCall::Init { built: made is Ok };
        proof {
            lemma_hctx_run_push(HwContextModel::fresh(self.index), self.history(), call);
        }
        match made {
            Ok(data) => {
                *self = HwContext {
                    index: self.index,
                    slot: Slot::Active(data),
                    history: Ghost(self.history@.push(call)),
                };
                Ok(0)
            },
            Err(e) => {
                *self = HwContext {
                    index: self.index,
                    slot: Slot::Failed,
                    history: Ghost(self.history@.push(call)),
                };
                Ok(e.to_errno())
            },
        }
    }

    /// Takes the driver's state back out of an active context, for its
    /// destruction.
    pub fn reclaim(&mut self) -> (r: Result<H, Violation>)
        ensures
            r is Ok <==> old(self)@.active(),
            r matches Ok(data) ==> Some(data) == old(self).driver_data()
                && final(self)@ == old(self)@.torn_down(),
            r matches Err(v) ==> v == Violation::ContextNotActive && final(self)@ == old(self)@
                && final(self).driver_data() == old(self).driver_data(),
            final(self).history() == (if r is Ok {
                old(self).history().push(HctxCall::Exit)
            } else {
                old(self).history()
            }),
    {
        proof {
            use_type_invariant(&*self);
        }
        if !self.is_active() {
            return Err(Violation::ContextNotActive);
        }
        proof {
            lemma_hctx_run_push(HwContextModel::fresh(self.index), self.history(), HctxCall::Exit);
        }
        let mut gone = HwContext {
            index: self.index,
            slot: Slot::TornDown,
            history: Ghost(self.history@.push(HctxCall::Exit)),
        };
        core::mem::swap(self, &mut gone);
        match gone.slot {
            Slot::Active(data) => Ok(data),
            _ => Err(Violation::ContextNotActive),
        }
    }
}

/// A logical request queue and the driver's state `Q` for it, which every
/// hardware context of the queue is lent.
pub struct RequestQueue<Q> {
    queuedata: Q,
}

impl<Q> View for RequestQueue<Q> {
    type V = Q;

    /// The driver's state for the queue.
    closed spec fn view(&self) -> Q {
        self.queuedata
    }
}

impl<Q> RequestQueue<Q> {
    /// A queue with the driver's state `queuedata`.
    pub fn new(queuedata: Q) -> (queue: Self)
        ensures
            queue@ == queuedata,
    {
        RequestQueue { queuedata }
    }

    /// The driver's state for the queue.
    pub fn queue_data(&self) -> (data: &Q)
        ensures
            *data == self@,
    {
        &self.queuedata
    }
}

/// What the bridging contract knows of a tag set.
pub struct TagSetModel<D> {
    /// The number of hardware queues that the pool serves.
    pub nr_hw_queues: u32,
    /// The driver's state for the pool.
    pub data: D,
}

/// The pool of requests of one device and the driver's state `D` for it,
/// which the construction of every payload and of every hardware context is
/// lent.
pub struct TagSet<D> {
    nr_hw_queues: u32,
    driver_data: D,
}

impl<D> View for TagSet<D> {
    type V = TagSetModel<D>;

    closed spec fn view(&self) -> TagSetModel<D> {
        TagSetModel { nr_hw_queues: self.nr_hw_queues, data: self.driver_data }
    }
}

impl<D> TagSet<D> {
    /// A pool for `nr_hw_queues` hardware queues with the driver's state
    /// `driver_data`.
    pub fn new(nr_hw_queues: u32, driver_data: D) -> (set: Self)
        ensures
            set@ == (TagSetModel { nr_hw_queues, data: driver_data }),
    {
        TagSet { nr_hw_queues, driver_data }
    }

    /// The number of hardware queues that the pool serves.
    pub fn nr_hw_queues(&self) -> (n: u32)
        ensures
            n == self@.nr_hw_queues,
    {
        self.nr_hw_queues
    }

    /// The driver's state for the pool.
    pub fn data(&self) -> (data: &D)
        ensures
            *data == self@.data,
    {
        &self.driver_data
    }
}

} // verus!
