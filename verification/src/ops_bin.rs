//! Ops that take a number and raw bytes, and return a number or raw bytes.

use vstd::prelude::*;
use crate::error::{type_error, ErrorClass, OpError};
use crate::op_state::OpState;
use crate::ops::{
    serialize_op_result, BufVec, NativeWork, Op, OpArgs, OpBuf, OpFn, OpHandler, OpResponse,
    OpResult, OpValue, PendingOp, PromiseId,
};

verus! {

/// What a binary op may return: a number, or bytes whose length stands for
/// the number.
pub trait ValueOrVector: Sized {
    spec fn spec_value(&self) -> u32;

    spec fn spec_vector(self) -> Option<Vec<u8>>;

    fn value(&self) -> (v: u32)
        ensures
            v == self.spec_value(),
    ;

    fn vector(self) -> (v: Option<Vec<u8>>)
        ensures
            v == self.spec_vector(),
    ;
}

impl ValueOrVector for Vec<u8> {
    /// The length of the bytes, cut to 32 bits.
    open spec fn spec_value(&self) -> u32 {
        self@.len() as u32
    }

    open spec fn spec_vector(self) -> Option<Vec<u8>> {
        Some(self)
    }

    fn value(&self) -> (v: u32) {
        #[verifier::truncate]
        (self.len() as u32)
    }

    fn vector(self) -> (v: Option<Vec<u8>>) {
        Some(self)
    }
}

impl ValueOrVector for u32 {
    open spec fn spec_value(&self) -> u32 {
        *self
    }

    open spec fn spec_vector(self) -> Option<Vec<u8>> {
        None
    }

    fn value(&self) -> (v: u32) {
        *self
    }

    fn vector(self) -> (v: Option<Vec<u8>>) {
        None
    }
}

/// The response that a result of a binary op is framed as.
pub open spec fn spec_bin_result<R: ValueOrVector>(pid: Option<PromiseId>, result: Result<R, OpError>) -> OpResponse {
    match result {
        Ok(v) => match v.spec_vector() {
            Some(bytes) => OpResponse::Buffer(bytes),
            None => OpResponse::Value(
                OpResult { promise_id: pid, result: Ok(OpValue::Number(v.spec_value())) },
            ),
        },
        Err(e) => OpResponse::Value(OpResult { promise_id: pid, result: Err(e) }),
    }
}

/// Frames the result of a binary op: bytes go out as a buffer, a number
/// or an error as a value that answers `pid`.
pub fn serialize_bin_result<R: ValueOrVector>(pid: Option<PromiseId>, result: Result<R, OpError>) -> (response:
    OpResponse)
    ensures
        response == spec_bin_result(pid, result),
{
    match result {
        Ok(v) => {
            let min_val = v.value();
            match v.vector() {
                Some(bytes) => OpResponse::Buffer(bytes),
                None => serialize_op_result(pid, Ok(OpValue::Number(min_val))),
            }
        },
        Err(e) => serialize_op_result(pid, Err(e)),
    }
}

/// The number that a call carries, if its arguments are a number.
pub open spec fn min_arg(args: OpArgs) -> Option<u32> {
    match args {
        OpArgs::Number(n) => Some(n),
        _ => None,
    }
}

/// Whether `response` is the error of a call whose arguments are not a
/// number, or the error of a call without a buffer if they are.
pub open spec fn bin_rejects(args: OpArgs, response: OpResponse) -> bool {
    &&& response matches OpResponse::Value(v) && v.promise_id is None
    &&& response.is_error(
        ErrorClass::TypeError,
        if min_arg(args) is None {
            "bin-ops require a numeric arg"@
        } else {
            "bin-ops require a non-null buffer arg"@
        },
    )
}

/// A synchronous binary op: given the state, a number and the buffers of
/// the call, it returns at once.
pub trait BinOpSync {
    type Output: ValueOrVector;

    /// What a run may do. An op that does not say promises nothing.
    open spec fn post(
        &self,
        before: OpState,
        arg: u32,
        bufs: BufVec,
        after: OpState,
        result: Result<Self::Output, OpError>,
    ) -> bool {
        true
    }

    fn run(&self, state: &mut OpState, arg: u32, bufs: BufVec) -> (result: Result<
        Self::Output,
        OpError,
    >)
        requires
            old(state).wf(),
            bufs@.len() > 0,
        ensures
            final(state).wf(),
            self.post(*old(state), arg, bufs, *final(state), result),
    ;
}

/// An asynchronous binary op: given the state, a number and the buffers of
/// the call, it names the native work that will produce its result.
pub trait BinOpAsync {
    /// What a start may do. An op that does not say promises nothing.
    open spec fn post(&self, before: OpState, arg: u32, bufs: BufVec, after: OpState, work: NativeWork) -> bool {
        true
    }

    fn start(&self, state: &mut OpState, arg: u32, bufs: BufVec) -> (work: NativeWork)
        requires
            old(state).wf(),
            bufs@.len() > 0,
        ensures
            final(state).wf(),
            self.post(*old(state), arg, bufs, *final(state), work),
    ;
}

/// The handler that a synchronous binary op is registered as.
pub struct BinSyncHandler<F: BinOpSync> {
    pub op_fn: F,
}

/// The handler that an asynchronous binary op is registered as.
pub struct BinAsyncHandler<F: BinOpAsync> {
    pub op_fn: F,
}

fn unpack(args: &OpArgs, buf: OpBuf) -> (r: Result<(u32, BufVec), OpResponse>)
    ensures
        r is Ok <==> min_arg(*args) is Some && buf is Some,
        r matches Ok(pair) ==> Some(pair.0) == min_arg(*args) && pair.1@ == seq![buf->0],
        r matches Err(response) ==> bin_rejects(*args, response),
{
    let arg = match args {
        OpArgs::Number(n) => *n,
        _ => {
            return Err(serialize_op_result(None, Err(type_error("bin-ops require a numeric arg"))));
        },
    };
    match buf {
        Some(b) => {
            let mut bufs: BufVec = Vec::new();
            bufs.push(b);
            Ok((arg, bufs))
        },
        None => Err(
            serialize_op_result(None, Err(type_error("bin-ops require a non-null buffer arg"))),
        ),
    }
}

impl<F: BinOpSync> OpHandler for BinSyncHandler<F> {
    /// Without a number or without a buffer the call is refused and the
    /// state is left alone; else the op runs on the number and the buffer,
    /// and its result is framed without a promise id.
    open spec fn post(
        &self,
        before: OpState,
        promise_id: PromiseId,
        args: OpArgs,
        buf: OpBuf,
        after: OpState,
        op: Op,
    ) -> bool {
        if min_arg(args) is Some && buf is Some {
            exists|bufs: BufVec, result: Result<F::Output, OpError>|
                {
                    &&& bufs@ == seq![buf->0]
                    &&& #[trigger] self.op_fn.post(before, min_arg(args)->0, bufs, after, result)
                    &&& op == Op::Sync(spec_bin_result(None, result))
                }
        } else {
            after == before && (op matches Op::Sync(response) && bin_rejects(args, response))
        }
    }

    fn call(&self, state: &mut OpState, promise_id: PromiseId, args: OpArgs, buf: OpBuf) -> (op: Op) {
        match unpack(&args, buf) {
            Ok((arg, bufs)) => {
                let result = self.op_fn.run(state, arg, bufs);
                let op = Op::Sync(serialize_bin_result(None, result));
                proof {
                    assert(self.op_fn.post(*old(state), min_arg(args)->0, bufs, *state, result));
                }
                op
            },
            Err(response) => Op::Sync(response),
        }
    }
}

impl<F: BinOpAsync> OpHandler for BinAsyncHandler<F> {
    /// Without a number or without a buffer the call is refused at once
    /// and the state is left alone; else the op starts on the number and
    /// the buffer, and the call is suspended on the work it names, under
    /// its promise id.
    open spec fn post(
        &self,
        before: OpState,
        promise_id: PromiseId,
        args: OpArgs,
        buf: OpBuf,
        after: OpState,
        op: Op,
    ) -> bool {
        if min_arg(args) is Some && buf is Some {
            exists|bufs: BufVec, work: NativeWork|
                {
                    &&& bufs@ == seq![buf->0]
                    &&& #[trigger] self.op_fn.post(before, min_arg(args)->0, bufs, after, work)
                    &&& op == Op::Async(PendingOp { promise_id, work })
                }
        } else {
            after == before && (op matches Op::Sync(response) && bin_rejects(args, response))
        }
    }

    fn call(&self, state: &mut OpState, promise_id: PromiseId, args: OpArgs, buf: OpBuf) -> (op: Op) {
        match unpack(&args, buf) {
            Ok((arg, bufs)) => {
                let work = self.op_fn.start(state, arg, bufs);
                let op = Op::Async(PendingOp { promise_id, work });
                proof {
                    assert(self.op_fn.post(*old(state), min_arg(args)->0, bufs, *state, work));
                }
                op
            },
            Err(response) => Op::Sync(response),
        }
    }
}

/// Makes a handler of a synchronous binary op.
pub fn bin_op_sync<F: BinOpSync + 'static>(op_fn: F) -> (f: OpFn)
    ensures
        f.behaves_as(BinSyncHandler { op_fn }),
{
    OpFn { handler: Box::new(BinSyncHandler { op_fn }) }
}

/// Makes a handler of an asynchronous binary op. When the native work is
/// done, [`resolve_bin_op`] frames its result.
pub fn bin_op_async<F: BinOpAsync + 'static>(op_fn: F) -> (f: OpFn)
    ensures
        f.behaves_as(BinAsyncHandler { op_fn }),
{
    OpFn { handler: Box::new(BinAsyncHandler { op_fn }) }
}

/// Frames the result that the native work of an asynchronous binary op
/// produced, as the answer to the promise id of the call.
pub fn resolve_bin_op<RV: ValueOrVector>(pending: PendingOp, result: Result<RV, OpError>) -> (response:
    OpResponse)
    ensures
        response == spec_bin_result(Some(pending.promise_id), result),
{
    serialize_bin_result(Some(pending.promise_id), result)
}

} // verus!
