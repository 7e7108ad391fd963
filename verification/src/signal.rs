//! Signal streams: bound to a signal number, polled under a cancel handle,
//! and unbound by closing them.

use vstd::prelude::*;
use crate::async_cell::{Acquire, BorrowerId};
use crate::cancel::{or_cancel, CancelHandle, Poll};
use crate::error::{bad_resource_id, fails_with, ErrorClass, OpError};
use crate::extensions::{declares, register_all, register_all_post, OpPair, Registrar};
use crate::op_state::{
    add_post, borrow_post, release_post, same_slots, unchanged, unstable_message, OpState,
};
use crate::ops::{
    finished, invalid_args, spec_finished, spec_started, started, NativeWork, Op, OpArgs, OpBuf,
    OpFn, OpHandler, OpValue, PromiseId,
};
use crate::resources::{spec_get, Resource, ResourceId, ResourceKind};

verus! {

/// Signal work that the embedder does for a suspended call.
#[derive(Debug)]
pub enum SignalWork {
    /// Open a stream of the signal `signo`.
    Bind { signo: i32 },
    /// Wait for the next signal on `stream`. If `queued`, wait first until
    /// the call is handed the stream.
    Poll { rid: ResourceId, stream: u64, queued: bool },
}

/// The two console events that can be bound where signals are console
/// events.
#[derive(Clone, Copy, Debug, PartialEq, Eq, Structural)]
pub enum WindowsSignal {
    /// Signal number 2.
    SIGINT,
    /// Signal number 21.
    SIGBREAK,
}

impl WindowsSignal {
    pub open spec fn spec_from_signo(signo: i32) -> Option<WindowsSignal> {
        if signo == 2 {
            Some(WindowsSignal::SIGINT)
        } else if signo == 21 {
            Some(WindowsSignal::SIGBREAK)
        } else {
            None
        }
    }

    /// The console event that `signo` stands for, if it stands for one.
    pub fn from_signo(signo: i32) -> (s: Option<WindowsSignal>)
        ensures
            s == Self::spec_from_signo(signo),
    {
        if signo == 2 {
            Some(WindowsSignal::SIGINT)
        } else if signo == 21 {
            Some(WindowsSignal::SIGBREAK)
        } else {
            None
        }
    }
}

/// What a bind does: with unstable interfaces on, it asks for a stream of
/// the signal. The state is only read.
pub open spec fn op_signal_bind_post(state: OpState, signo: i32, r: Result<SignalWork, OpError>) -> bool {
    if state.unstable {
        r == Ok::<SignalWork, OpError>(SignalWork::Bind { signo })
    } else {
        fails_with(r, ErrorClass::NotSupported, unstable_message("Deno.signal"@))
    }
}

/// Asks for a stream of the signal `signo`.
pub fn op_signal_bind(state: &OpState, signo: i32) -> (r: Result<SignalWork, OpError>)
    ensures
        op_signal_bind_post(*state, signo, r),
{
    state.check_unstable("Deno.signal")?;
    Ok(SignalWork::Bind { signo })
}

/// A resource for the signal stream `stream`: free, with a cancel handle
/// that has not been triggered.
pub open spec fn is_signal_stream(resource: Resource, stream: u64) -> bool {
    &&& resource.wf()
    &&& resource.kind == ResourceKind::SignalStream
    &&& resource.handle == stream
    &&& resource.cell.holder() is None
    &&& resource.cell.waiters() =~= Seq::empty()
    &&& resource.cancel is Some && !resource.cancel->0.spec_is_canceled()
    &&& resource.keep_alive is None
    &&& resource.key_hash is None
}

/// Registers the signal stream that the embedder opened, and returns its
/// id; passes the error on if it could not open one.
pub fn signal_bind_done(state: &mut OpState, outcome: Result<u64, OpError>) -> (r: Result<ResourceId, OpError>)
    requires
        old(state).wf(),
    ensures
        final(state).wf(),
        match outcome {
            Ok(stream) => exists|resource: Resource|
                is_signal_stream(resource, stream) && #[trigger] add_post(
                    *old(state),
                    resource,
                    *final(state),
                    r,
                ),
            Err(e) => *final(state) == *old(state) && r == Err::<ResourceId, OpError>(e),
        },
{
    match outcome {
        Ok(stream) => {
            let resource = Resource::cancellable(ResourceKind::SignalStream, stream);
            let ghost stored = resource;
            let r = state.add_resource(resource);
            proof {
                assert(is_signal_stream(stored, stream) && add_post(*old(state), stored, *state, r));
            }
            r
        },
        Err(e) => Err(e),
    }
}

/// What starting a poll does: with unstable interfaces on and the stream
/// registered, the call `who` takes the stream or queues for it, and is
/// suspended on it; else nothing changes.
pub open spec fn op_signal_poll_post(
    before: OpState,
    rid: ResourceId,
    who: BorrowerId,
    after: OpState,
    r: Result<SignalWork, OpError>,
) -> bool {
    if !before.unstable {
        unchanged(before, after) && fails_with(
            r,
            ErrorClass::NotSupported,
            unstable_message("Deno.signal"@),
        )
    } else {
        exists|borrowed: Option<(u64, Acquire)>|
            {
                &&& #[trigger] borrow_post(
                    before,
                    rid,
                    ResourceKind::SignalStream,
                    who,
                    after,
                    borrowed,
                )
                &&& match borrowed {
                    Some((stream, acquire)) => r == Ok::<SignalWork, OpError>(
                        SignalWork::Poll { rid, stream, queued: acquire == Acquire::Queued },
                    ),
                    None => fails_with(r, ErrorClass::BadResource, "Bad resource ID"@),
                }
            }
    }
}

/// Starts a poll of the signal stream `rid`.
pub fn op_signal_poll(state: &mut OpState, rid: ResourceId, who: BorrowerId) -> (r: Result<SignalWork, OpError>)
    requires
        old(state).wf(),
    ensures
        final(state).wf(),
        op_signal_poll_post(*old(state), rid, who, *final(state), r),
{
    state.check_unstable("Deno.signal")?;
    let borrowed = state.borrow_resource(rid, ResourceKind::SignalStream, who);
    proof {
        assert(borrow_post(*old(state), rid, ResourceKind::SignalStream, who, *state, borrowed));
    }
    match borrowed {
        Some((stream, acquire)) => Ok(
            SignalWork::Poll { rid, stream, queued: acquire == Acquire::Queued },
        ),
        None => Err(bad_resource_id()),
    }
}

/// What the stream has produced for a suspended poll: nothing yet, a
/// signal, or its end.
#[derive(Clone, Copy, Debug, PartialEq, Eq, Structural)]
pub enum SignalEvent {
    Nothing,
    Signal,
    End,
}

impl SignalEvent {
    /// The event as the value of a wait, if the wait has one.
    pub open spec fn spec_ready(self) -> Option<Option<()>> {
        match self {
            SignalEvent::Nothing => None,
            SignalEvent::Signal => Some(Some(())),
            SignalEvent::End => Some(None),
        }
    }

    pub fn ready(&self) -> (r: Option<Option<()>>)
        ensures
            r == self.spec_ready(),
            r is Some <==> self != SignalEvent::Nothing,
            r matches Some(v) ==> (v is None <==> self == SignalEvent::End),
    {
        match self {
            SignalEvent::Nothing => None,
            SignalEvent::Signal => Some(Some(())),
            SignalEvent::End => Some(None),
        }
    }
}

/// Whether a poll of the stream `rid` has to give up: the stream was
/// closed, or its cancel handle was triggered.
pub open spec fn poll_cancelled(state: OpState, rid: ResourceId) -> bool {
    match spec_get(state.resource_table@, rid, ResourceKind::SignalStream) {
        None => true,
        Some(resource) => resource.cancel is Some && resource.cancel->0.spec_is_canceled(),
    }
}

/// What a suspended poll resolves to at a scheduling point, if it
/// resolves. A poll that has to give up resolves as "ended" (`true`),
/// whatever the stream has produced; else it resolves as "ended" if the
/// stream ended and as "a signal came" (`false`) if one came.
pub open spec fn spec_poll_outcome(state: OpState, rid: ResourceId, event: SignalEvent) -> Poll<bool> {
    if poll_cancelled(state, rid) {
        Poll::Ready(true)
    } else {
        match event {
            SignalEvent::Signal => Poll::Ready(false),
            SignalEvent::End => Poll::Ready(true),
            SignalEvent::Nothing => Poll::Pending,
        }
    }
}

/// One scheduling step of a suspended poll of the stream `rid`, given what
/// the stream has produced. A poll that stays pending changes nothing; one
/// that resolves lets go of the stream. A cancelled poll resolves as
/// ended, never as an error.
pub fn signal_poll_step(state: &mut OpState, rid: ResourceId, who: BorrowerId, event: SignalEvent) -> (r: (
    Poll<Result<bool, OpError>>,
    Option<BorrowerId>,
))
    requires
        old(state).wf(),
    ensures
        final(state).wf(),
        match spec_poll_outcome(*old(state), rid, event) {
            Poll::Pending => r.0 is Pending && r.1 is None && *final(state) == *old(state),
            Poll::Ready(ended) => r.0 == Poll::Ready(Ok::<bool, OpError>(ended)) && release_post(
                *old(state),
                rid,
                ResourceKind::SignalStream,
                who,
                *final(state),
                r.1,
            ),
        },
{
    let cancel = match state.resource_table.get(rid, ResourceKind::SignalStream) {
        Ok(resource) => match resource.cancel {
            Some(cancel) => cancel,
            None => CancelHandle::new(),
        },
        Err(_) => {
            let mut closed = CancelHandle::new();
            closed.cancel();
            closed
        },
    };
    let ended = match or_cancel(event.ready(), &cancel) {
        Poll::Ready(Ok(signal)) => signal.is_none(),
        Poll::Ready(Err(_)) => true,
        Poll::Pending => {
            return (Poll::Pending, None);
        },
    };
    let woken = state.release_resource(rid, ResourceKind::SignalStream, who);
    (Poll::Ready(Ok(ended)), woken)
}

/// A poll of a stream that was closed never stays pending and never takes
/// another signal: whatever the stream has produced, the next step
/// resolves it as ended.
pub proof fn lemma_poll_resolves_after_close(before: OpState, after: OpState, rid: ResourceId, event: SignalEvent)
    requires
        after.resource_table@ == before.resource_table@.remove(rid),
    ensures
        spec_poll_outcome(after, rid, event) == Poll::Ready(true),
{
}

/// What unbinding does: with unstable interfaces on and a resource
/// registered under the id, the resource is closed; else nothing changes.
pub open spec fn op_signal_unbind_post(before: OpState, rid: ResourceId, after: OpState, r: Result<(), OpError>) -> bool {
    if !before.unstable {
        unchanged(before, after) && fails_with(
            r,
            ErrorClass::NotSupported,
            unstable_message("Deno.signal"@),
        )
    } else if !before.resource_table@.contains_key(rid) {
        unchanged(before, after) && fails_with(r, ErrorClass::BadResource, "Bad resource ID"@)
    } else {
        &&& r is Ok
        &&& after.resource_table@ == before.resource_table@.remove(rid)
        &&& same_slots(before, after)
    }
}

/// Unbinds the signal stream `rid` by closing it. A poll that is suspended
/// on it resolves as ended at its next step.
pub fn op_signal_unbind(state: &mut OpState, rid: ResourceId) -> (r: Result<(), OpError>)
    requires
        old(state).wf(),
    ensures
        final(state).wf(),
        op_signal_unbind_post(*old(state), rid, *final(state), r),
{
    state.check_unstable("Deno.signal")?;
    match state.resource_table.close(rid) {
        Ok(_) => Ok(()),
        Err(_) => {
            proof {
                assert(state.resource_table@ =~= old(state).resource_table@);
            }
            Err(bad_resource_id())
        },
    }
}

/// The ops of this module.
#[derive(Clone, Copy, Debug, PartialEq, Eq, Structural)]
pub enum SignalOp {
    Bind,
    Unbind,
    Poll,
}

impl SignalOp {
    /// The name under which the op is registered.
    pub open spec fn spec_name(self) -> Seq<char> {
        match self {
            SignalOp::Bind => "op_signal_bind"@,
            SignalOp::Unbind => "op_signal_unbind"@,
            SignalOp::Poll => "op_signal_poll"@,
        }
    }

    pub fn name(&self) -> (s: &'static str)
        ensures
            s@ == self.spec_name(),
    {
        match self {
            SignalOp::Bind => "op_signal_bind",
            SignalOp::Unbind => "op_signal_unbind",
            SignalOp::Poll => "op_signal_poll",
        }
    }
}

/// The signal work of a call as native work.
pub open spec fn spec_lift(r: Result<SignalWork, OpError>) -> Result<NativeWork, OpError> {
    match r {
        Ok(work) => Ok(NativeWork::Signal(work)),
        Err(e) => Err(e),
    }
}

fn lift(r: Result<SignalWork, OpError>) -> (l: Result<NativeWork, OpError>)
    ensures
        l == spec_lift(r),
{
    match r {
        Ok(work) => Ok(NativeWork::Signal(work)),
        Err(e) => Err(e),
    }
}

/// The value of an unbind.
pub open spec fn spec_unit(r: Result<(), OpError>) -> Result<OpValue, OpError> {
    match r {
        Ok(_) => Ok(OpValue::Unit),
        Err(e) => Err(e),
    }
}

impl OpHandler for SignalOp {
    /// A bind takes a signal number and is suspended on the opening of the
    /// stream. A poll takes a resource id and is suspended on the stream.
    /// An unbind takes a resource id and finishes at once. Arguments of
    /// another shape are an error that changes nothing.
    open spec fn post(
        &self,
        before: OpState,
        promise_id: PromiseId,
        args: OpArgs,
        buf: OpBuf,
        after: OpState,
        op: Op,
    ) -> bool {
        match (self, args) {
            (SignalOp::Bind, OpArgs::Signed(signo)) => after == before && exists|
                r: Result<SignalWork, OpError>,
            | #[trigger]
                op_signal_bind_post(before, signo, r) && op == spec_started(
                    promise_id,
                    spec_lift(r),
                ),
            (SignalOp::Poll, OpArgs::Number(rid)) => exists|r: Result<SignalWork, OpError>| #[trigger]
                op_signal_poll_post(before, rid, promise_id, after, r) && op == spec_started(
                    promise_id,
                    spec_lift(r),
                ),
            (SignalOp::Unbind, OpArgs::Number(rid)) => exists|r: Result<(), OpError>| #[trigger]
                op_signal_unbind_post(before, rid, after, r) && op == spec_finished(spec_unit(r)),
            _ => after == before && exists|r: Result<NativeWork, OpError>| #[trigger]
                fails_with(r, ErrorClass::TypeError, "Invalid arguments"@) && op == spec_started(
                    promise_id,
                    r,
                ),
        }
    }

    fn call(&self, state: &mut OpState, promise_id: PromiseId, args: OpArgs, buf: OpBuf) -> (op: Op) {
        match (self, args) {
            (SignalOp::Bind, OpArgs::Signed(signo)) => {
                let r = op_signal_bind(state, signo);
                proof {
                    assert(op_signal_bind_post(*old(state), signo, r));
                }
                started(promise_id, lift(r))
            },
            (SignalOp::Poll, OpArgs::Number(rid)) => {
                let r = op_signal_poll(state, rid, promise_id);
                proof {
                    assert(op_signal_poll_post(*old(state), rid, promise_id, *state, r));
                }
                started(promise_id, lift(r))
            },
            (SignalOp::Unbind, OpArgs::Number(rid)) => {
                let r = op_signal_unbind(state, rid);
                proof {
                    assert(op_signal_unbind_post(*old(state), rid, *state, r));
                }
                finished(
                    match r {
                        Ok(_) => Ok(OpValue::Unit),
                        Err(e) => Err(e),
                    },
                )
            },
            _ => {
                let r: Result<NativeWork, OpError> = Err(invalid_args());
                proof {
                    assert(fails_with(r, ErrorClass::TypeError, "Invalid arguments"@));
                }
                started(promise_id, r)
            },
        }
    }
}

/// The handler of a signal op.
pub fn signal_op(op: SignalOp) -> (f: OpFn)
    ensures
        f.behaves_as(op),
{
    OpFn { handler: Box::new(op) }
}

/// The signal ops in the order in which they are registered.
pub fn ops() -> (all: Vec<OpPair>)
    ensures
        all@.len() == 3,
        declares(all@, 0, SignalOp::Bind.spec_name(), SignalOp::Bind),
        declares(all@, 1, SignalOp::Unbind.spec_name(), SignalOp::Unbind),
        declares(all@, 2, SignalOp::Poll.spec_name(), SignalOp::Poll),
{
    let mut all: Vec<OpPair> = Vec::new();
    all.push((SignalOp::Bind.name(), signal_op(SignalOp::Bind)));
    all.push((SignalOp::Unbind.name(), signal_op(SignalOp::Unbind)));
    all.push((SignalOp::Poll.name(), signal_op(SignalOp::Poll)));
    all
}

/// Registers the signal ops into `rt`.
pub fn init(rt: &mut Registrar) -> (r: Result<(), OpError>)
    requires
        old(rt)@.table.wf(),
    ensures
        final(rt)@.table.wf(),
        exists|all: Seq<OpPair>|
            {
                &&& all.len() == 3
                &&& declares(all, 0, SignalOp::Bind.spec_name(), SignalOp::Bind)
                &&& declares(all, 1, SignalOp::Unbind.spec_name(), SignalOp::Unbind)
                &&& declares(all, 2, SignalOp::Poll.spec_name(), SignalOp::Poll)
                &&& #[trigger] register_all_post(old(rt)@, all, final(rt)@, r)
            },
{
    let all = ops();
    let ghost declared = all@;
    let r = register_all(rt, all);
    proof {
        assert(register_all_post(old(rt)@, declared, rt@, r));
    }
    r
}

} // verus!
