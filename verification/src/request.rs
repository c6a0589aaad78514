//! A request: a reference-counted object of the block layer that carries a
//! payload of the driver.

use vstd::prelude::*;
use crate::error::{
    errno_of_result, errno_to_blk_status, valid_errno, BlkStatus, Error, Violation,
};

verus! {

/// Where the payload of a request stands in its life.
#[derive(Clone, Copy, Debug, PartialEq, Eq, Structural)]
pub enum PayloadPhase {
    /// The slot is freshly allocated; no payload has been constructed in it.
    Vacant,
    /// The payload has been constructed and not yet destroyed.
    Live,
    /// The payload has been destroyed; the slot has left the pool for good.
    Retired,
}

/// What the bridging contract knows of a request.
pub struct RequestModel {
    /// The tag that identifies the request for as long as it exists.
    pub tag: u32,
    /// The reference count: the references of the block layer, those that
    /// a trampoline has taken for the driver, and those of the driver
    /// together.
    pub refs: nat,
    /// The references that the driver holds: one for each submission that it
    /// accepted and has not yet completed.
    pub held: nat,
    /// The state of the payload.
    pub phase: PayloadPhase,
}

impl RequestModel {
    /// While anybody refers to the request, one reference at least is not
    /// the driver's, so that the driver never gives up the last one; the
    /// count fits its machine word; and only a request with a live payload
    /// is referenced.
    pub open spec fn wf(self) -> bool {
        &&& self.refs > 0 ==> self.held < self.refs
        &&& self.refs == 0 ==> self.held == 0
        &&& self.refs <= u64::MAX
        &&& self.refs > 0 ==> self.phase == PayloadPhase::Live
    }

    /// A freshly allocated slot.
    pub open spec fn fresh(tag: u32) -> RequestModel {
        RequestModel { tag, refs: 0, held: 0, phase: PayloadPhase::Vacant }
    }

    /// The request with its payload constructed.
    pub open spec fn constructed(self) -> RequestModel {
        RequestModel { phase: PayloadPhase::Live, ..self }
    }

    /// The request with its payload destroyed.
    pub open spec fn destroyed(self) -> RequestModel {
        RequestModel { phase: PayloadPhase::Retired, ..self }
    }

    /// The request with one more reference, which the driver does not hold.
    pub open spec fn with_ref(self) -> RequestModel {
        RequestModel { refs: self.refs + 1, ..self }
    }

    /// The request with one reference fewer, the driver's share unchanged.
    pub open spec fn without_ref(self) -> RequestModel {
        RequestModel { refs: (self.refs - 1) as nat, ..self }
    }

    /// The request after the driver took over one reference that exists.
    pub open spec fn handed_over(self) -> RequestModel {
        RequestModel { held: self.held + 1, ..self }
    }

    /// The request after a submission that the driver accepted: one more
    /// reference, which the driver holds.
    pub open spec fn submitted(self) -> RequestModel {
        RequestModel { refs: self.refs + 1, held: self.held + 1, ..self }
    }

    /// The request after the driver gave up one of its references.
    pub open spec fn completed(self) -> RequestModel {
        RequestModel { refs: (self.refs - 1) as nat, held: (self.held - 1) as nat, ..self }
    }

    /// The violation that stops the block layer from issuing the request, if
    /// there is one.
    pub open spec fn issue_violation(self) -> Option<Violation> {
        if self.phase != PayloadPhase::Live {
            Some(Violation::PayloadNotLive)
        } else if self.refs != 0 {
            Some(Violation::RequestBusy)
        } else {
            None
        }
    }

    /// The violation that stops a reference from being taken for a
    /// submission, if there is one.
    pub open spec fn take_violation(self) -> Option<Violation> {
        if self.phase != PayloadPhase::Live {
            Some(Violation::PayloadNotLive)
        } else if self.refs == 0 {
            Some(Violation::ZeroRefcount)
        } else {
            None
        }
    }

    /// The violation that stops a reference from being given up by the
    /// block layer, if there is one: there must be a reference, and it must
    /// not be the last one beside those of the driver.
    pub open spec fn put_violation(self) -> Option<Violation> {
        if self.refs == 0 {
            Some(Violation::RefcountUnderflow)
        } else if self.held > 0 && self.refs == self.held + 1 {
            Some(Violation::RequestBusy)
        } else {
            None
        }
    }

    /// Whether a reference has been taken that a submission can hand to the
    /// driver or drop: one beside those of the driver and the one that the
    /// block layer keeps.
    pub open spec fn has_spare_ref(self) -> bool {
        self.refs >= self.held + 2
    }

    /// The violation that stops the payload from being destroyed, if there
    /// is one.
    pub open spec fn destroy_violation(self) -> Option<Violation> {
        if self.phase != PayloadPhase::Live {
            Some(Violation::PayloadNotLive)
        } else if self.refs != 0 {
            Some(Violation::RequestBusy)
        } else {
            None
        }
    }
}

/// A call on a request that is no violation.
pub enum RequestCall {
    /// The construction of the payload; `built` says whether the driver's
    /// constructor succeeded.
    InitRequest { built: bool },
    /// The block layer hands the request out and holds its first reference.
    Issue,
    /// One more reference is taken: by the block layer for itself, or by a
    /// trampoline for the driver before it submits the request.
    Get,
    /// The driver answers a submission for which a reference was taken;
    /// `accepted` says whether it accepted the request and holds the
    /// reference, or refused it, so that the reference is dropped.
    Submit { accepted: bool },
    /// The completion of a submission that the driver accepted.
    Complete,
    /// The block layer gives up one reference.
    Put,
    /// The destruction of the payload.
    ExitRequest,
}

/// The request after `call`, or `None` where the call is a violation or the
/// reference count has no room for it.
pub open spec fn request_step(rq: RequestModel, call: RequestCall) -> Option<RequestModel> {
    match call {
        RequestCall::InitRequest { built } => if rq.phase != PayloadPhase::Vacant {
            None
        } else if built {
            Some(rq.constructed())
        } else {
            Some(rq)
        },
        RequestCall::Issue => if rq.issue_violation() is Some {
            None
        } else {
            Some(rq.with_ref())
        },
        RequestCall::Get => if 0 < rq.refs < u64::MAX {
            Some(rq.with_ref())
        } else {
            None
        },
        RequestCall::Submit { accepted } => if !rq.has_spare_ref() {
            None
        } else if accepted {
            Some(rq.handed_over())
        } else {
            Some(rq.without_ref())
        },
        RequestCall::Complete => if rq.held > 0 {
            Some(rq.completed())
        } else {
            None
        },
        RequestCall::Put => if rq.put_violation() is Some {
            None
        } else {
            Some(rq.without_ref())
        },
        RequestCall::ExitRequest => if rq.destroy_violation() is Some {
            None
        } else {
            Some(rq.destroyed())
        },
    }
}

/// The request after the calls of `calls` in turn, or `None` where one of
/// them is a violation.
pub open spec fn request_run(start: RequestModel, calls: Seq<RequestCall>) -> Option<RequestModel>
    decreases calls.len(),
{
    if calls.len() == 0 {
        Some(start)
    } else {
        match request_run(start, calls.drop_last()) {
            Some(rq) => request_step(rq, calls.last()),
            None => None,
        }
    }
}

/// The history `calls` with one more call runs as `calls` does, followed by
/// that call.
pub proof fn lemma_request_run_push(start: RequestModel, calls: Seq<RequestCall>, call: RequestCall)
    ensures
        request_run(start, calls.push(call)) == match request_run(start, calls) {
            Some(rq) => request_step(rq, call),
            None => None,
        },
{
    assert(calls.push(call).drop_last() =~= calls);
}

/// The history `calls`, with `call` added where it happened.
pub open spec fn recorded(calls: Seq<RequestCall>, happened: bool, call: RequestCall) -> Seq<
    RequestCall,
> {
    if happened {
        calls.push(call)
    } else {
        calls
    }
}

/// The status of a submission, given what the driver answered.
pub open spec fn submit_status(answer: Result<(), Error>) -> BlkStatus {
    match answer {
        Ok(_) => BlkStatus::Success,
        Err(e) => errno_to_blk_status(e@),
    }
}

/// The request after a submission for which a reference was taken, given
/// what the driver answered: the driver keeps the reference where it
/// accepted, and the reference is dropped where it refused.
pub open spec fn settled(taken: RequestModel, answer: Result<(), Error>) -> RequestModel {
    match answer {
        Ok(_) => taken.handed_over(),
        Err(_) => taken.without_ref(),
    }
}

/// A request of the block layer. The block layer and the driver share it by
/// counting references; the payload `D` belongs to the driver and lives in
/// the request from its construction to its destruction.
///
/// For proofs, a request remembers the calls that have led to its state:
/// its history.
pub struct Request<D> {
    tag: u32,
    counts: Counts,
    payload: Payload<D>,
}

/// The reference counts of a request, and the history that led to them.
struct Counts {
    refs: u64,
    held: u64,
    history: Ghost<Seq<RequestCall>>,
}

/// The place of the payload in a request.
enum Payload<D> {
    Vacant,
    Live(D),
    Retired,
}

impl<D> View for Request<D> {
    type V = RequestModel;

    closed spec fn view(&self) -> RequestModel {
        RequestModel {
            tag: self.tag,
            refs: self.counts.refs as nat,
            held: self.counts.held as nat,
            phase: match self.payload {
                Payload::Vacant => PayloadPhase::Vacant,
                Payload::Live(_) => PayloadPhase::Live,
                Payload::Retired => PayloadPhase::Retired,
            },
        }
    }
}

impl<D> Request<D> {
    /// The calls that have led to the request as it is, oldest first: every
    /// call that was no violation.
    pub closed spec fn history(&self) -> Seq<RequestCall> {
        self.counts.history@
    }

    /// What holds of every request: its counts are well formed, and its
    /// history is accepted from a fresh slot and ends in the request as it
    /// is.
    #[verifier::type_invariant]
    pub open spec fn wf(&self) -> bool {
        &&& self@.wf()
        &&& request_run(RequestModel::fresh(self@.tag), self.history()) == Some(self@)
    }

    /// The payload, while it is live.
    pub closed spec fn payload(&self) -> Option<D> {
        match self.payload {
            Payload::Live(data) => Some(data),
            _ => None,
        }
    }

    /// A request has a payload exactly while its payload is live.
    pub proof fn lemma_payload_while_live(&self)
        ensures
            self.payload() is Some <==> self@.phase == PayloadPhase::Live,
    {
    }

    /// A freshly allocated slot for the request `tag`: nobody refers to it,
    /// it has no payload yet, and nothing has happened to it.
    pub fn new(tag: u32) -> (rq: Self)
        ensures
            rq@ == RequestModel::fresh(tag),
            rq.history() == Seq::<RequestCall>::empty(),
    {
        Request {
            tag,
            counts: Counts { refs: 0, held: 0, history: Ghost(Seq::empty()) },
            payload: Payload::Vacant,
        }
    }

    /// The tag that identifies the request.
    pub fn tag(&self) -> (tag: u32)
        ensures
            tag == self@.tag,
    {
        self.tag
    }

    /// The reference count.
    pub fn refcount(&self) -> (refs: u64)
        ensures
            refs == self@.refs,
    {
        self.counts.refs
    }

    /// The number of references that the driver holds.
    pub fn driver_refs(&self) -> (held: u64)
        ensures
            held == self@.held,
    {
        self.counts.held
    }

    /// The state of the payload.
    pub fn phase(&self) -> (phase: PayloadPhase)
        ensures
            phase == self@.phase,
    {
        match self.payload {
            Payload::Vacant => PayloadPhase::Vacant,
            Payload::Live(_) => PayloadPhase::Live,
            Payload::Retired => PayloadPhase::Retired,
        }
    }

    /// The payload, which is there exactly while it is live.
    pub fn data(&self) -> (data: Option<&D>)
        ensures
            data is Some <==> self@.phase == PayloadPhase::Live,
            data matches Some(d) ==> self.payload() == Some(*d),
            data is None ==> self.payload() is None,
    {
        match &self.payload {
            Payload::Live(data) => Some(data),
            _ => None,
        }
    }

    /// The block layer hands the request out for one I/O and holds the first
    /// reference to it. The payload must be live and the request unused.
    pub fn issue(&mut self) -> (r: Result<(), Violation>)
        ensures
            r == match old(self)@.issue_violation() {
                Some(v) => Err::<(), Violation>(v),
                None => Ok(()),
            },
            r is Ok ==> final(self)@ == old(self)@.with_ref(),
            r is Err ==> final(self)@ == old(self)@,
            final(self).history() == recorded(old(self).history(), r is Ok, RequestCall::Issue),
            final(self).payload() == old(self).payload(),
    {
        proof {
            use_type_invariant(&*self);
        }
        if !self.is_live() {
            Err(Violation::PayloadNotLive)
        } else if self.counts.refs != 0 {
            Err(Violation::RequestBusy)
        } else {
            self.record(1, self.counts.held, Ghost(RequestCall::Issue));
            Ok(())
        }
    }

    /// Takes one more reference unless the count is zero, and says whether
    /// it took one. The count must leave room for one more.
    pub fn get(&mut self) -> (taken: bool)
        requires
            old(self)@.refs < u64::MAX,
        ensures
            taken <==> old(self)@.refs > 0,
            taken ==> final(self)@ == old(self)@.with_ref(),
            !taken ==> final(self)@ == old(self)@,
            final(self).history() == recorded(old(self).history(), taken, RequestCall::Get),
            final(self).payload() == old(self).payload(),
    {
        proof {
            use_type_invariant(&*self);
        }
        if self.counts.refs == 0 {
            false
        } else {
            self.record(self.counts.refs + 1, self.counts.held, Ghost(RequestCall::Get));
            true
        }
    }

    /// The block layer gives up one of its references, and is told whether
    /// it was the last reference of all. It cannot give up its last
    /// reference while the driver holds one: only the block layer brings
    /// the count to zero, and only when the driver is done.
    pub fn put(&mut self) -> (r: Result<bool, Violation>)
        ensures
            r is Err <==> old(self)@.put_violation() is Some,
            r matches Err(v) ==> old(self)@.put_violation() == Some(v),
            r matches Ok(last) ==> final(self)@ == old(self)@.without_ref()
                && (last <==> final(self)@.refs == 0),
            r is Err ==> final(self)@ == old(self)@,
            final(self).history() == recorded(old(self).history(), r is Ok, RequestCall::Put),
            final(self).payload() == old(self).payload(),
    {
        proof {
            use_type_invariant(&*self);
        }
        if self.counts.refs == 0 {
            Err(Violation::RefcountUnderflow)
        } else if self.counts.held > 0 && self.counts.refs - 1 == self.counts.held {
            Err(Violation::RequestBusy)
        } else {
            self.record(self.counts.refs - 1, self.counts.held, Ghost(RequestCall::Put));
            Ok(self.counts.refs == 0)
        }
    }

    /// Ends a submission for which a reference was taken, with the driver's
    /// answer. Where the driver accepted, it now holds that reference and the
    /// status is success; where it refused, the reference is dropped and the
    /// status is that of its error. Where no reference was taken, beside
    /// those of the driver and the one that the block layer keeps, nothing
    /// changes.
    pub fn settle(&mut self, answer: Result<(), Error>) -> (r: Result<BlkStatus, Violation>)
        ensures
            r is Ok <==> old(self)@.has_spare_ref(),
            r matches Ok(status) ==> status == submit_status(answer)
                && final(self)@ == settled(old(self)@, answer),
            r matches Err(v) ==> v == Violation::RefcountUnderflow && final(self)@ == old(self)@,
            final(self).history() == recorded(
                old(self).history(),
                r is Ok,
                RequestCall::Submit { accepted: answer is Ok },
            ),
            final(self).payload() == old(self).payload(),
    {
        proof {
            use_type_invariant(&*self);
        }
        if self.counts.refs - self.counts.held < 2 {
            return Err(Violation::RefcountUnderflow);
        }
        match answer {
            Ok(_) => {
                self.record(
                    self.counts.refs,
                    self.counts.held + 1,
                    Ghost(RequestCall::Submit { accepted: true }),
                );
                Ok(BlkStatus::Success)
            },
            Err(e) => {
                self.record(
                    self.counts.refs - 1,
                    self.counts.held,
                    Ghost(RequestCall::Submit { accepted: false }),
                );
                Ok(e.to_blk_status())
            },
        }
    }

    /// The driver gives up one of its references: a submission that it
    /// accepted is complete. The block layer still holds a reference
    /// afterwards.
    pub fn release(&mut self) -> (r: Result<(), Violation>)
        ensures
            r is Ok <==> old(self)@.held > 0,
            r is Ok ==> final(self)@ == old(self)@.completed() && final(self)@.refs > 0,
            r matches Err(v) ==> v == Violation::RefcountUnderflow && final(self)@ == old(self)@,
            final(self).history() == recorded(old(self).history(), r is Ok, RequestCall::Complete),
            final(self).payload() == old(self).payload(),
    {
        proof {
            use_type_invariant(&*self);
        }
        if self.counts.held == 0 {
            Err(Violation::RefcountUnderflow)
        } else {
            self.record(
                self.counts.refs - 1,
                self.counts.held - 1,
                Ghost(RequestCall::Complete),
            );
            Ok(())
        }
    }

    /// Ends the construction of the payload in a vacant slot, with what the
    /// driver's constructor made. A payload is installed and zero returned; a
    /// failure leaves the slot vacant and returns its negated error number.
    pub fn install(&mut self, made: Result<D, Error>) -> (r: Result<i32, Violation>)
        ensures
            r is Ok <==> old(self)@.phase == PayloadPhase::Vacant,
            r matches Ok(code) ==> code as int == errno_of_result(made.err()),
            r matches Ok(code) ==> (code == 0 <==> made is Ok)
                && (made is Err ==> valid_errno(code as int)),
            r is Ok && made is Ok ==> final(self)@ == old(self)@.constructed()
                && final(self).payload() == made.ok(),
            r is Ok && made is Err ==> final(self)@ == old(self)@
                && final(self).payload() == old(self).payload(),
            r matches Err(v) ==> v == Violation::PayloadNotVacant && final(self)@ == old(self)@
                && final(self).payload() == old(self).payload(),
            final(self).history() == recorded(
                old(self).history(),
                r is Ok,
                RequestCall::InitRequest { built: made is Ok },
            ),
    {
        proof {
            use_type_invariant(&*self);
        }
        match self.payload {
            Payload::Vacant => {},
            _ => {
                return Err(Violation::PayloadNotVacant);
            },
        }
        match made {
            Ok(data) => {
                let ghost call = RequestCall::InitRequest { built: true };
                proof {
                    lemma_request_run_push(RequestModel::fresh(self.tag), self.history(), call);
                }
                *self = Request {
                    tag: self.tag,
                    counts: Counts {
                        refs: self.counts.refs,
                        held: self.counts.held,
                        history: Ghost(self.counts.history@.push(call)),
                    },
                    payload: Payload::Live(data),
                };
                Ok(0)
            },
            Err(e) => {
                self.record(
                    self.counts.refs,
                    self.counts.held,
                    Ghost(RequestCall::InitRequest { built: false }),
                );
                Ok(e.to_errno())
            },
        }
    }

    /// Takes the payload out of a request that nobody refers to, for its
    /// destruction. The slot is retired: it takes no payload again.
    pub fn retire(&mut self) -> (r: Result<D, Violation>)
        ensures
            r == match old(self)@.destroy_violation() {
                Some(v) => Err::<D, Violation>(v),
                None => Ok(old(self).payload()->0),
            },
            r is Ok ==> final(self)@ == old(self)@.destroyed(),
            r is Err ==> final(self)@ == old(self)@
                && final(self).payload() == old(self).payload(),
            final(self).history() == recorded(
                old(self).history(),
                r is Ok,
                RequestCall::ExitRequest,
            ),
    {
        proof {
            use_type_invariant(&*self);
        }
        if !self.is_live() {
            return Err(Violation::PayloadNotLive);
        }
        if self.counts.refs != 0 {
            return Err(Violation::RequestBusy);
        }
        let ghost call = RequestCall::ExitRequest;
        proof {
            lemma_request_run_push(RequestModel::fresh(self.tag), self.history(), call);
        }
        let mut gone = Request {
            tag: self.tag,
            counts: Counts { refs: 0, held: 0, history: Ghost(self.counts.history@.push(call)) },
            payload: Payload::Retired,
        };
        core::mem::swap(self, &mut gone);
        match gone.payload {
            Payload::Live(data) => Ok(data),
            _ => Err(Violation::PayloadNotLive),
        }
    }

    fn is_live(&self) -> (live: bool)
        ensures
            live <==> self@.phase == PayloadPhase::Live,
    {
        match self.payload {
            Payload::Live(_) => true,
            _ => false,
        }
    }

    /// Sets the counts after `call`, and adds `call` to the history.
    fn record(&mut self, refs: u64, held: u64, Ghost(call): Ghost<RequestCall>)
        requires
            request_step(old(self)@, call) == Some(
                RequestModel { refs: refs as nat, held: held as nat, ..old(self)@ },
            ),
            refs > 0 ==> held < refs,
            refs == 0 ==> held == 0,
        ensures
            final(self)@ == (RequestModel { refs: refs as nat, held: held as nat, ..old(self)@ }),
            final(self).history() == old(self).history().push(call),
            final(self).payload() == old(self).payload(),
    {
        proof {
            use_type_invariant(&*self);
            lemma_request_run_push(RequestModel::fresh(self.tag), self.history(), call);
        }
        self.counts = Counts { refs, held, history: Ghost(self.counts.history@.push(call)) };
    }
}

} // verus!
