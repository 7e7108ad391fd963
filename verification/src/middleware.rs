//! Behaviour wrapped around op handlers: what runs before a call, and what
//! runs after it.

use vstd::prelude::*;
use crate::error::{custom_error, ErrorClass};
use crate::op_state::{denied_message, OpMetrics, OpState};
use crate::ops::{
    serialize_op_result, Op, OpArgs, OpBuf, OpFn, OpHandler, OpResponse, OpResult, PromiseId,
};

verus! {

/// Pre- and post-invocation logic of one middleware.
pub trait OpLayer {
    /// What the pre-logic may do: `verdict` is `None` to let the call
    /// through, or the response that takes the place of the call. A layer
    /// that does not say promises nothing.
    open spec fn pre(
        &self,
        before: OpState,
        name: Seq<char>,
        promise_id: PromiseId,
        args: OpArgs,
        after: OpState,
        verdict: Option<OpResponse>,
    ) -> bool {
        true
    }

    /// What the post-logic may do with the result `op` of the call. A
    /// layer that does not say promises nothing.
    open spec fn post(&self, before: OpState, name: Seq<char>, op: Op, after: OpState, out: Op) -> bool {
        true
    }

    fn before(&self, state: &mut OpState, name: &str, promise_id: PromiseId, args: &OpArgs) -> (verdict:
        Option<OpResponse>)
        requires
            old(state).wf(),
        ensures
            final(state).wf(),
            self.pre(*old(state), name@, promise_id, *args, *final(state), verdict),
    ;

    /// The post-logic never changes the calling convention of a result.
    fn after(&self, state: &mut OpState, name: &str, op: Op) -> (out: Op)
        requires
            old(state).wf(),
        ensures
            final(state).wf(),
            self.post(*old(state), name@, op, *final(state), out),
            out.spec_convention() == op.spec_convention(),
    ;
}

/// What a call of `inner` wrapped in `layer` may do, when the pre-logic
/// lets it through: the pre-logic, then the call, then the post-logic, once
/// each.
pub open spec fn layered_run<L: OpLayer>(
    layer: L,
    name: Seq<char>,
    inner: OpFn,
    before: OpState,
    promise_id: PromiseId,
    args: OpArgs,
    buf: OpBuf,
    after: OpState,
    op: Op,
) -> bool {
    exists|entered: OpState, left: OpState, result: Op|
        {
            &&& #[trigger] layer.pre(before, name, promise_id, args, entered, None)
            &&& #[trigger] inner.handler.post(entered, promise_id, args, buf, left, result)
            &&& #[trigger] layer.post(left, name, result, after, op)
        }
}

/// What a call wrapped in `layer` may do, when the pre-logic answers in its
/// place: nothing but the pre-logic runs.
pub open spec fn layered_veto<L: OpLayer>(
    layer: L,
    name: Seq<char>,
    before: OpState,
    promise_id: PromiseId,
    args: OpArgs,
    after: OpState,
    op: Op,
) -> bool {
    exists|response: OpResponse|
        {
            &&& #[trigger] layer.pre(before, name, promise_id, args, after, Some(response))
            &&& op == Op::Sync(response)
        }
}

/// A handler with the logic of one middleware around it.
pub struct Layered<L: OpLayer> {
    pub layer: L,
    pub name: String,
    pub inner: OpFn,
}

impl<L: OpLayer> OpHandler for Layered<L> {
    open spec fn post(
        &self,
        before: OpState,
        promise_id: PromiseId,
        args: OpArgs,
        buf: OpBuf,
        after: OpState,
        op: Op,
    ) -> bool {
        ||| layered_run(self.layer, self.name@, self.inner, before, promise_id, args, buf, after, op)
        ||| layered_veto(self.layer, self.name@, before, promise_id, args, after, op)
    }

    /// A wrapped handler holds what the handler inside holds.
    open spec fn held_module(&self) -> Option<u64> {
        self.inner.handler.held_module()
    }

    fn call(&self, state: &mut OpState, promise_id: PromiseId, args: OpArgs, buf: OpBuf) -> (op: Op) {
        match self.layer.before(state, self.name.as_str(), promise_id, &args) {
            Some(response) => {
                let op = Op::Sync(response);
                proof {
                    assert(self.layer.pre(
                        *old(state),
                        self.name@,
                        promise_id,
                        args,
                        *state,
                        Some(response),
                    ));
                    assert(layered_veto(
                        self.layer,
                        self.name@,
                        *old(state),
                        promise_id,
                        args,
                        *state,
                        op,
                    ));
                }
                op
            },
            None => {
                let ghost entered = *state;
                let result = self.inner.call(state, promise_id, args, buf);
                let ghost left = *state;
                let op = self.layer.after(state, self.name.as_str(), result);
                proof {
                    assert(self.layer.pre(*old(state), self.name@, promise_id, args, entered, None));
                    assert(self.inner.handler.post(entered, promise_id, args, buf, left, result));
                    assert(self.layer.post(left, self.name@, result, *state, op));
                }
                op
            },
        }
    }
}

/// Turns a handler into one that `behaves_as` it, under one more name.
pub fn layered<L: OpLayer + 'static>(handler: Layered<L>) -> (op_fn: OpFn)
    ensures
        op_fn.behaves_as(handler),
{
    OpFn { handler: Box::new(handler) }
}

/// A transform applied to every handler on its way into the table.
pub trait OpMiddlewareFn {
    /// Whether `wrapped` is what this middleware makes of `op_fn` when it is
    /// registered under `name`. A middleware that does not say promises
    /// nothing.
    open spec fn wraps(&self, name: Seq<char>, op_fn: OpFn, wrapped: OpFn) -> bool {
        true
    }

    fn wrap(&self, name: &str, op_fn: OpFn) -> (wrapped: OpFn)
        ensures
            self.wraps(name@, op_fn, wrapped),
    ;
}

/// A middleware of any type.
pub struct MiddlewareFn {
    pub f: Box<dyn OpMiddlewareFn>,
}

impl MiddlewareFn {
    /// Applies the middleware.
    pub fn wrap(&self, name: &str, op_fn: OpFn) -> (wrapped: OpFn)
        ensures
            self.f.wraps(name@, op_fn, wrapped),
    {
        self.f.wrap(name, op_fn)
    }
}

/// Whether `wrapped` behaves as `inner` with the logic of `layer` around
/// it.
pub open spec fn wraps_with<L: OpLayer>(layer: L, name: Seq<char>, inner: OpFn, wrapped: OpFn) -> bool {
    forall|before: OpState, promise_id: PromiseId, args: OpArgs, buf: OpBuf, after: OpState, op: Op|
        #[trigger] wrapped.handler.post(before, promise_id, args, buf, after, op) == (layered_run(
            layer,
            name,
            inner,
            before,
            promise_id,
            args,
            buf,
            after,
            op,
        ) || layered_veto(layer, name, before, promise_id, args, after, op))
}

/// The middleware that puts the logic of `layer` around every handler.
pub struct LayerMiddleware<L: OpLayer + Copy> {
    pub layer: L,
}

impl<L: OpLayer + Copy + 'static> OpMiddlewareFn for LayerMiddleware<L> {
    open spec fn wraps(&self, name: Seq<char>, op_fn: OpFn, wrapped: OpFn) -> bool {
        wraps_with(self.layer, name, op_fn, wrapped)
    }

    fn wrap(&self, name: &str, op_fn: OpFn) -> (wrapped: OpFn) {
        layered(Layered { layer: self.layer, name: String::from_str(name), inner: op_fn })
    }
}

/// Turns the logic of `layer` into a middleware.
pub fn layer_middleware<L: OpLayer + Copy + 'static>(layer: L) -> (m: MiddlewareFn)
    ensures
        forall|name: Seq<char>, op_fn: OpFn, wrapped: OpFn|
            #[trigger] m.f.wraps(name, op_fn, wrapped) == wraps_with(layer, name, op_fn, wrapped),
{
    MiddlewareFn { f: Box::new(LayerMiddleware { layer }) }
}

/// With two middlewares stacked around a handler, a call that both let
/// through runs the pre-logic of the outer one, then that of the inner one,
/// then the handler, then the post-logic of the inner one, then that of the
/// outer one: each once, in this order.
pub proof fn lemma_stacked_layers_run_in_order<Outer: OpLayer, Inner: OpLayer>(
    outer: Outer,
    inner: Inner,
    name: Seq<char>,
    op_fn: OpFn,
    once: OpFn,
    twice: OpFn,
    before: OpState,
    promise_id: PromiseId,
    args: OpArgs,
    buf: OpBuf,
    after: OpState,
    op: Op,
)
    requires
        wraps_with(inner, name, op_fn, once),
        wraps_with(outer, name, once, twice),
        twice.handler.post(before, promise_id, args, buf, after, op),
        forall|s: OpState, t: OpState, response: OpResponse|
            !outer.pre(s, name, promise_id, args, t, Some(response)),
        forall|s: OpState, t: OpState, response: OpResponse|
            !inner.pre(s, name, promise_id, args, t, Some(response)),
    ensures
        exists|s1: OpState, s2: OpState, s3: OpState, s4: OpState, r1: Op, r2: Op|
            {
                &&& #[trigger] outer.pre(before, name, promise_id, args, s1, None)
                &&& #[trigger] inner.pre(s1, name, promise_id, args, s2, None)
                &&& #[trigger] op_fn.handler.post(s2, promise_id, args, buf, s3, r1)
                &&& #[trigger] inner.post(s3, name, r1, s4, r2)
                &&& #[trigger] outer.post(s4, name, r2, after, op)
            },
{
    assert(layered_run(outer, name, once, before, promise_id, args, buf, after, op));
    let (s1, s4, r2) = choose|entered: OpState, left: OpState, result: Op|
        {
            &&& #[trigger] outer.pre(before, name, promise_id, args, entered, None)
            &&& #[trigger] once.handler.post(entered, promise_id, args, buf, left, result)
            &&& #[trigger] outer.post(left, name, result, after, op)
        };
    assert(layered_run(inner, name, op_fn, s1, promise_id, args, buf, s4, r2));
    let (s2, s3, r1) = choose|entered: OpState, left: OpState, result: Op|
        {
            &&& #[trigger] inner.pre(s1, name, promise_id, args, entered, None)
            &&& #[trigger] op_fn.handler.post(entered, promise_id, args, buf, left, result)
            &&& #[trigger] inner.post(left, name, result, s4, r2)
        };
    assert(outer.pre(before, name, promise_id, args, s1, None));
    assert(inner.pre(s1, name, promise_id, args, s2, None));
    assert(op_fn.handler.post(s2, promise_id, args, buf, s3, r1));
    assert(inner.post(s3, name, r1, s4, r2));
    assert(outer.post(s4, name, r2, after, op));
}

/// A call that a layer lets through yields a result of the calling
/// convention that the handler inside chose: wrapping changes what happens
/// around a call, not how the call answers.
pub proof fn lemma_layer_keeps_convention<L: OpLayer>(
    layer: L,
    name: Seq<char>,
    inner: OpFn,
    before: OpState,
    promise_id: PromiseId,
    args: OpArgs,
    buf: OpBuf,
    after: OpState,
    op: Op,
)
    requires
        layered_run(layer, name, inner, before, promise_id, args, buf, after, op),
        forall|s: OpState, n: Seq<char>, r: Op, t: OpState, out: Op|
            #[trigger] layer.post(s, n, r, t, out) ==> out.spec_convention() == r.spec_convention(),
    ensures
        exists|entered: OpState, left: OpState, result: Op| #[trigger]
            inner.handler.post(entered, promise_id, args, buf, left, result)
                && op.spec_convention() == result.spec_convention(),
{
    let (entered, left, result) = choose|entered: OpState, left: OpState, result: Op|
        {
            &&& #[trigger] layer.pre(before, name, promise_id, args, entered, None)
            &&& #[trigger] inner.handler.post(entered, promise_id, args, buf, left, result)
            &&& #[trigger] layer.post(left, name, result, after, op)
        };
    assert(inner.handler.post(entered, promise_id, args, buf, left, result)
        && op.spec_convention() == result.spec_convention());
}

/// Counts calls: one more dispatched before each, one more completed after
/// each that finished at once.
#[derive(Clone, Copy, Debug, PartialEq, Eq, Structural)]
pub struct MetricsLayer;

/// `n + 1`, or `n` where that does not fit.
pub open spec fn bump(n: u64) -> u64 {
    if n < u64::MAX {
        (n + 1) as u64
    } else {
        n
    }
}

fn bumped(n: u64) -> (r: u64)
    ensures
        r == bump(n),
{
    if n < u64::MAX {
        n + 1
    } else {
        n
    }
}

impl OpLayer for MetricsLayer {
    open spec fn pre(
        &self,
        before: OpState,
        name: Seq<char>,
        promise_id: PromiseId,
        args: OpArgs,
        after: OpState,
        verdict: Option<OpResponse>,
    ) -> bool {
        &&& verdict is None
        &&& after == (OpState {
            metrics: OpMetrics {
                ops_dispatched: bump(before.metrics.ops_dispatched),
                ..before.metrics
            },
            ..before
        })
    }

    open spec fn post(&self, before: OpState, name: Seq<char>, op: Op, after: OpState, out: Op) -> bool {
        &&& out == op
        &&& after == (OpState {
            metrics: OpMetrics {
                ops_completed: if op is Sync {
                    bump(before.metrics.ops_completed)
                } else {
                    before.metrics.ops_completed
                },
                ..before.metrics
            },
            ..before
        })
    }

    fn before(&self, state: &mut OpState, name: &str, promise_id: PromiseId, args: &OpArgs) -> (verdict:
        Option<OpResponse>) {
        state.metrics.ops_dispatched = bumped(state.metrics.ops_dispatched);
        None
    }

    fn after(&self, state: &mut OpState, name: &str, op: Op) -> (out: Op) {
        match &op {
            Op::Sync(_) => {
                state.metrics.ops_completed = bumped(state.metrics.ops_completed);
            },
            _ => {},
        }
        op
    }
}

/// Lets a call through only if unstable interfaces are switched on; else
/// answers in its place.
#[derive(Clone, Copy, Debug, PartialEq, Eq, Structural)]
pub struct UnstableGate;

impl OpLayer for UnstableGate {
    open spec fn pre(
        &self,
        before: OpState,
        name: Seq<char>,
        promise_id: PromiseId,
        args: OpArgs,
        after: OpState,
        verdict: Option<OpResponse>,
    ) -> bool {
        &&& after == before
        &&& verdict is None <==> before.unstable
        &&& verdict matches Some(response) ==> response == OpResponse::Value(
            OpResult { promise_id: None, result: response->Value_0.result },
        ) && response.is_error(ErrorClass::PermissionDenied, denied_message("unstable"@, name))
    }

    open spec fn post(&self, before: OpState, name: Seq<char>, op: Op, after: OpState, out: Op) -> bool {
        out == op && after == before
    }

    fn before(&self, state: &mut OpState, name: &str, promise_id: PromiseId, args: &OpArgs) -> (verdict:
        Option<OpResponse>) {
        if state.unstable {
            None
        } else {
            let message = String::from_str("Requires ").concat("unstable").concat(
                " access to ",
            ).concat(name);
            Some(
                serialize_op_result(
                    None,
                    Err(custom_error(ErrorClass::PermissionDenied, message.as_str())),
                ),
            )
        }
    }

    fn after(&self, state: &mut OpState, name: &str, op: Op) -> (out: Op) {
        op
    }
}

} // verus!
