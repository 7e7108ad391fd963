//! The calling convention, op handlers, and the table that maps a name to
//! a handler.

use vstd::prelude::*;
use crate::error::{custom_error, message_with, type_error, ErrorClass, OpError};
use crate::net::{
    AcceptArgs, ConnectArgs, ListenArgs, NetWork, ReceiveArgs, SendArgs, ShutdownArgs,
};
use crate::command::{ChildStdio, CommandArgs, CommandWork};
use crate::crypto::{CryptoWork, WebCryptoGenerateKeyArg, WebCryptoSignArg};
use crate::op_state::OpState;
use crate::plugin::PluginWork;
use crate::resources::ResourceId;
use crate::signal::SignalWork;
use crate::webstorage::{
    ClearArgs, GetArgs, KeyArgs, LengthArgs, OpenArgs, RemoveArgs, SetArgs, StorageWork,
};

verus! {

/// The correlation id of an asynchronous call.
pub type PromiseId = u64;

/// The place of an op in the table.
pub type OpId = usize;

/// A raw byte payload that travels beside the arguments.
pub type ZeroCopyBuf = Vec<u8>;

/// The raw byte payload of a call, if it has one.
pub type OpBuf = Option<ZeroCopyBuf>;

/// The raw byte payloads of a call.
pub type BufVec = Vec<ZeroCopyBuf>;

/// The arguments of a call.
#[derive(Debug)]
pub enum OpArgs {
    Unit,
    Number(u32),
    Signed(i32),
    Text(String),
    Accept(AcceptArgs),
    Receive(ReceiveArgs),
    Send(SendArgs),
    Connect(ConnectArgs),
    Shutdown(ShutdownArgs),
    Listen(ListenArgs),
    Command(CommandArgs),
    ChildWait { rid: ResourceId, stdin_rid: Option<ResourceId> },
    ChildStdio(ChildStdio),
    GenerateKey(WebCryptoGenerateKeyArg),
    SignKey(WebCryptoSignArg),
    StorageOpen(OpenArgs),
    StorageLength(LengthArgs),
    StorageKey(KeyArgs),
    StorageSet(SetArgs),
    StorageGet(GetArgs),
    StorageRemove(RemoveArgs),
    StorageClear(ClearArgs),
}

/// The value of a call that succeeded.
#[derive(Debug)]
pub enum OpValue {
    Unit,
    Number(u32),
    Bool(bool),
    Text(String),
}

/// A value or an error, with the promise id it answers, if it answers
/// one.
#[derive(Debug)]
pub struct OpResult {
    pub promise_id: Option<PromiseId>,
    pub result: Result<OpValue, OpError>,
}

/// What a finished call hands to the caller.
#[derive(Debug)]
pub enum OpResponse {
    Value(OpResult),
    Buffer(ZeroCopyBuf),
}

impl OpResponse {
    /// Whether this is the error of class `class` with message `message`.
    pub open spec fn is_error(self, class: ErrorClass, message: Seq<char>) -> bool {
        self matches OpResponse::Value(v) && v.result matches Err(e) && e.is(class, message)
    }
}

/// Frames the result of an op: the value or the error, and the promise id
/// that it answers.
pub fn serialize_op_result(promise_id: Option<PromiseId>, result: Result<OpValue, OpError>) -> (response:
    OpResponse)
    ensures
        response == OpResponse::Value(OpResult { promise_id, result }),
{
    OpResponse::Value(OpResult { promise_id, result })
}

/// Native work that the embedder has to do before a call can finish.
#[derive(Debug)]
pub enum NativeWork {
    /// Work that only the op that asked for it can name.
    Custom(u32),
    /// Work on a socket.
    Net(NetWork),
    /// Work on a signal stream.
    Signal(SignalWork),
    /// Work on a child process.
    Command(CommandWork),
    /// Work on keys.
    Crypto(CryptoWork),
    /// Work on a store.
    Storage(StorageWork),
    /// Work on a native module.
    Plugin(PluginWork),
}

/// A call that is suspended on native work. Its result is delivered later,
/// against the promise id.
#[derive(Debug)]
pub struct PendingOp {
    pub promise_id: PromiseId,
    pub work: NativeWork,
}

/// What a call by name yields.
#[derive(Debug)]
pub enum Op {
    /// An immediate result or error.
    Sync(OpResponse),
    /// A suspension that the caller waits for.
    Async(PendingOp),
    /// A suspension that does not keep the session alive.
    AsyncUnref(PendingOp),
    /// No op is registered under the name.
    NotFound,
}

/// The calling convention of a result.
#[derive(Clone, Copy, Debug, PartialEq, Eq, Structural)]
pub enum Convention {
    Sync,
    Async,
    AsyncUnref,
    NotFound,
}

impl Op {
    pub open spec fn spec_convention(&self) -> Convention {
        match self {
            Op::Sync(_) => Convention::Sync,
            Op::Async(_) => Convention::Async,
            Op::AsyncUnref(_) => Convention::AsyncUnref,
            Op::NotFound => Convention::NotFound,
        }
    }

    /// Which of the ways to answer a call this is.
    pub fn convention(&self) -> (c: Convention)
        ensures
            c == self.spec_convention(),
    {
        match self {
            Op::Sync(_) => Convention::Sync,
            Op::Async(_) => Convention::Async,
            Op::AsyncUnref(_) => Convention::AsyncUnref,
            Op::NotFound => Convention::NotFound,
        }
    }
}

/// What a call that needs native work yields: a suspension on the work
/// under its promise id, or at once the error that stopped it, as the
/// answer to the promise id.
pub open spec fn spec_started(promise_id: PromiseId, r: Result<NativeWork, OpError>) -> Op {
    match r {
        Ok(work) => Op::Async(PendingOp { promise_id, work }),
        Err(e) => Op::Sync(
            OpResponse::Value(OpResult { promise_id: Some(promise_id), result: Err(e) }),
        ),
    }
}

/// Suspends a call on the native work it needs, or fails it at once.
pub fn started(promise_id: PromiseId, r: Result<NativeWork, OpError>) -> (op: Op)
    ensures
        op == spec_started(promise_id, r),
{
    match r {
        Ok(work) => Op::Async(PendingOp { promise_id, work }),
        Err(e) => Op::Sync(serialize_op_result(Some(promise_id), Err(e))),
    }
}

/// What a call that finishes at once yields: its value or its error,
/// answering no promise id.
pub open spec fn spec_finished(r: Result<OpValue, OpError>) -> Op {
    Op::Sync(OpResponse::Value(OpResult { promise_id: None, result: r }))
}

/// Finishes a call at once.
pub fn finished(r: Result<OpValue, OpError>) -> (op: Op)
    ensures
        op == spec_finished(r),
{
    Op::Sync(serialize_op_result(None, r))
}

/// The error of a call whose arguments are not of the shape that the op
/// takes.
pub fn invalid_args() -> (e: OpError)
    ensures
        e.is(ErrorClass::TypeError, "Invalid arguments"@),
{
    type_error("Invalid arguments")
}

/// Native code that can be called by name.
pub trait OpHandler {
    /// What a call may do: `before` and `after` are the session state around
    /// it, `op` is what it yields. A handler that does not say promises
    /// nothing.
    open spec fn post(
        &self,
        before: OpState,
        promise_id: PromiseId,
        args: OpArgs,
        buf: OpBuf,
        after: OpState,
        op: Op,
    ) -> bool {
        true
    }

    /// The loaded native module that the handler holds a share of, if it
    /// says that it holds one. A module must stay loaded for as long as a
    /// handler that holds a share of it is registered.
    open spec fn held_module(&self) -> Option<u64> {
        None
    }

    fn call(&self, state: &mut OpState, promise_id: PromiseId, args: OpArgs, buf: OpBuf) -> (op: Op)
        requires
            old(state).wf(),
        ensures
            final(state).wf(),
            self.post(*old(state), promise_id, args, buf, *final(state), op),
    ;
}

/// A handler of any type, ready to be registered.
pub struct OpFn {
    pub handler: Box<dyn OpHandler>,
}

impl OpFn {
    /// Whether this handler behaves as `handler` does.
    pub open spec fn behaves_as<H: OpHandler>(&self, handler: H) -> bool {
        forall|before: OpState, promise_id: PromiseId, args: OpArgs, buf: OpBuf, after: OpState, op: Op|
            #[trigger] self.handler.post(before, promise_id, args, buf, after, op) == handler.post(
                before,
                promise_id,
                args,
                buf,
                after,
                op,
            )
    }

    /// Whether this handler and `other` behave alike.
    pub open spec fn same_as(&self, other: OpFn) -> bool {
        forall|before: OpState, promise_id: PromiseId, args: OpArgs, buf: OpBuf, after: OpState, op: Op|
            #[trigger] self.handler.post(before, promise_id, args, buf, after, op)
                == other.handler.post(before, promise_id, args, buf, after, op)
    }

    /// Calls the handler.
    pub fn call(&self, state: &mut OpState, promise_id: PromiseId, args: OpArgs, buf: OpBuf) -> (op:
        Op)
        requires
            old(state).wf(),
        ensures
            final(state).wf(),
            self.handler.post(*old(state), promise_id, args, buf, *final(state), op),
    {
        self.handler.call(state, promise_id, args, buf)
    }
}

/// What to do when a name is registered a second time.
#[derive(Clone, Copy, Debug, PartialEq, Eq, Structural)]
pub enum CollisionPolicy {
    /// The second registration fails.
    Reject,
    /// The second handler takes the place of the first, under the same id.
    LastWins,
}

struct OpEntry {
    name: String,
    op_fn: OpFn,
}

/// The ops of a table as a mathematical value: the names by id, and the
/// handler stored under each.
pub struct OpTableView {
    pub names: Seq<Seq<char>>,
    pub handlers: Seq<OpFn>,
    pub policy: CollisionPolicy,
}

impl OpTableView {
    pub open spec fn wf(self) -> bool {
        &&& self.names.len() == self.handlers.len()
        &&& self.names.no_duplicates()
    }

    pub open spec fn has(self, name: Seq<char>) -> bool {
        self.names.contains(name)
    }

    /// The id of `name`.
    pub open spec fn id_of(self, name: Seq<char>) -> int
        recommends
            self.has(name),
    {
        self.names.index_of(name)
    }

    /// Whether `name` can be registered.
    pub open spec fn accepts(self, name: Seq<char>) -> bool {
        self.policy == CollisionPolicy::LastWins || !self.has(name)
    }

    /// The table after `stored` was registered under `name`.
    pub open spec fn with(self, name: Seq<char>, stored: OpFn) -> OpTableView {
        if self.has(name) {
            OpTableView { handlers: self.handlers.update(self.id_of(name), stored), ..self }
        } else {
            OpTableView {
                names: self.names.push(name),
                handlers: self.handlers.push(stored),
                ..self
            }
        }
    }

    /// The id under which `name` is found after it was registered.
    pub open spec fn id_after(self, name: Seq<char>) -> int {
        if self.has(name) {
            self.id_of(name)
        } else {
            self.names.len() as int
        }
    }

    /// Registration keeps a table well formed, keeps every other op where
    /// it was, and leaves the new handler under the name.
    pub proof fn lemma_with(self, name: Seq<char>, stored: OpFn)
        requires
            self.wf(),
        ensures
            self.with(name, stored).wf(),
            self.with(name, stored).has(name),
            self.with(name, stored).id_of(name) == self.id_after(name),
            self.with(name, stored).handlers[self.id_after(name)] == stored,
            forall|other: Seq<char>|
                other != name ==> (self.with(name, stored).has(other) <==> self.has(other)),
            forall|other: Seq<char>|
                other != name && self.has(other) ==> self.with(name, stored).id_of(other)
                    == self.id_of(other) && self.with(name, stored).handlers[self.id_of(other)]
                    == self.handlers[self.id_of(other)],
    {
        let after = self.with(name, stored);
        if self.has(name) {
            assert(after.names == self.names);
        } else {
            assert(after.names[self.names.len() as int] == name);
            assert forall|i: int, j: int|
                0 <= i < after.names.len() && 0 <= j < after.names.len() && i != j implies after.names[i]
                != after.names[j] by {
                if i < self.names.len() && j < self.names.len() {
                    assert(self.names[i] != self.names[j]);
                } else if i < self.names.len() {
                    assert(self.names.contains(self.names[i]));
                } else {
                    assert(self.names.contains(self.names[j]));
                }
            }
        }
        assert(after.has(name));
        let k = after.id_of(name);
        assert(after.names[k] == name);
        assert(after.names[self.id_after(name)] == name);
        assert forall|other: Seq<char>| other != name implies (after.has(other) <==> self.has(other)) by {
            if self.has(other) {
                let i = self.names.index_of(other);
                assert(after.names[i] == other);
            }
            if after.has(other) {
                let i = after.names.index_of(other);
                assert(self.names[i] == other);
            }
        }
        assert forall|other: Seq<char>| other != name && self.has(other) implies after.id_of(other)
            == self.id_of(other) && after.handlers[self.id_of(other)] == self.handlers[self.id_of(
            other,
        )] by {
            let i = self.id_of(other);
            assert(after.names[i] == other);
            let j = after.id_of(other);
            assert(after.names[j] == other);
        }
    }
}

/// The message of a registration that was refused.
pub open spec fn collision_message(name: Seq<char>) -> Seq<char> {
    "Op already registered: "@ + name
}

/// The error of a registration that was refused.
pub fn collision_error(name: &str) -> (e: OpError)
    ensures
        e.is(ErrorClass::TypeError, collision_message(name@)),
{
    custom_error(ErrorClass::TypeError, message_with("Op already registered: ", name).as_str())
}

/// The name-to-handler map while it is being filled. It is sealed into an
/// [`OpRegistry`] before the first dispatch.
pub struct OpTable {
    entries: Vec<OpEntry>,
    policy: CollisionPolicy,
}

impl View for OpTable {
    type V = OpTableView;

    closed spec fn view(&self) -> OpTableView {
        OpTableView {
            names: self.entries@.map_values(|e: OpEntry| e.name@),
            handlers: self.entries@.map_values(|e: OpEntry| e.op_fn),
            policy: self.policy,
        }
    }
}

impl OpTable {
    pub open spec fn wf(&self) -> bool {
        self@.wf()
    }

    /// An empty table with the given collision policy.
    pub fn new(policy: CollisionPolicy) -> (t: OpTable)
        ensures
            t.wf(),
            t@.names =~= Seq::empty(),
            t@.handlers =~= Seq::empty(),
            t@.policy == policy,
    {
        OpTable { entries: Vec::new(), policy }
    }

    /// How many ops are registered.
    pub fn len(&self) -> (n: usize)
        ensures
            n == self@.names.len(),
    {
        self.entries.len()
    }

    /// What the table does when a name is registered a second time.
    pub fn policy(&self) -> (p: CollisionPolicy)
        ensures
            p == self@.policy,
    {
        self.policy
    }

    /// The id of the op registered under `name`.
    pub fn find(&self, name: &str) -> (r: Option<OpId>)
        requires
            self.wf(),
        ensures
            r is Some <==> self@.has(name@),
            r matches Some(id) ==> id == self@.id_of(name@) && id < self@.names.len(),
    {
        let mut i: usize = 0;
        while i < self.entries.len()
            invariant
                self.wf(),
                i <= self.entries@.len(),
                forall|j: int| 0 <= j < i ==> self@.names[j] != name@,
            decreases self.entries@.len() - i,
        {
            if str_eq(self.entries[i].name.as_str(), name) {
                proof {
                    assert(self@.names[i as int] == name@);
                    let k = self@.names.index_of(name@);
                    assert(self@.names[k] == name@);
                }
                return Some(i);
            }
            i += 1;
        }
        None
    }

    /// Whether an op is registered under `name`.
    pub fn has_op(&self, name: &str) -> (b: bool)
        requires
            self.wf(),
        ensures
            b == self@.has(name@),
    {
        self.find(name).is_some()
    }

    /// Binds `op_fn` to `name` and returns the id of the op. A name that is
    /// taken is refused or rebound, as the table's policy says.
    pub fn register(&mut self, name: &str, op_fn: OpFn) -> (r: Result<OpId, OpError>)
        requires
            old(self).wf(),
        ensures
            final(self).wf(),
            r is Ok <==> old(self)@.accepts(name@),
            r matches Ok(id) ==> final(self)@ == old(self)@.with(name@, op_fn) && id == old(
                self,
            )@.id_after(name@),
            r matches Err(e) ==> final(self)@ == old(self)@ && e.is(
                ErrorClass::TypeError,
                collision_message(name@),
            ),
    {
        proof {
            self@.lemma_with(name@, op_fn);
        }
        match self.find(name) {
            Some(id) => {
                match self.policy {
                    CollisionPolicy::Reject => Err(collision_error(name)),
                    CollisionPolicy::LastWins => {
                        let entry = OpEntry { name: String::from_str(name), op_fn };
                        self.entries.set(id, entry);
                        proof {
                            assert(self@.names =~= old(self)@.names);
                            assert(self@.handlers =~= old(self)@.handlers.update(id as int, op_fn));
                        }
                        Ok(id)
                    },
                }
            },
            None => {
                let id = self.entries.len();
                self.entries.push(OpEntry { name: String::from_str(name), op_fn });
                proof {
                    assert(self@.names =~= old(self)@.names.push(name@));
                    assert(self@.handlers =~= old(self)@.handlers.push(op_fn));
                }
                Ok(id)
            },
        }
    }

    /// Ends the registration phase.
    pub fn seal(self) -> (registry: OpRegistry)
        requires
            self.wf(),
        ensures
            registry.wf(),
            registry@ == self@,
    {
        OpRegistry { table: self }
    }
}

/// The name-to-handler map once registration is over. It can be read and
/// dispatched through; nothing can be added to it.
pub struct OpRegistry {
    table: OpTable,
}

impl View for OpRegistry {
    type V = OpTableView;

    closed spec fn view(&self) -> OpTableView {
        self.table@
    }
}

/// What a dispatch by name may do to the session state and yield, given the
/// ops of the table.
pub open spec fn dispatch_post(
    table: OpTableView,
    name: Seq<char>,
    before: OpState,
    promise_id: PromiseId,
    args: OpArgs,
    buf: OpBuf,
    after: OpState,
    op: Op,
) -> bool {
    if table.has(name) {
        table.handlers[table.id_of(name)].handler.post(before, promise_id, args, buf, after, op)
    } else {
        op is NotFound && after == before
    }
}

impl OpRegistry {
    pub open spec fn wf(&self) -> bool {
        self@.wf()
    }

    /// How many ops are registered.
    pub fn len(&self) -> (n: usize)
        ensures
            n == self@.names.len(),
    {
        self.table.len()
    }

    /// The id of the op registered under `name`.
    pub fn find(&self, name: &str) -> (r: Option<OpId>)
        requires
            self.wf(),
        ensures
            r is Some <==> self@.has(name@),
            r matches Some(id) ==> id == self@.id_of(name@) && id < self@.names.len(),
    {
        self.table.find(name)
    }

    /// Calls the op with the given id, or yields `NotFound` if there is
    /// none.
    pub fn dispatch_id(
        &self,
        state: &mut OpState,
        id: OpId,
        promise_id: PromiseId,
        args: OpArgs,
        buf: OpBuf,
    ) -> (op: Op)
        requires
            self.wf(),
            old(state).wf(),
        ensures
            final(state).wf(),
            id < self@.names.len() ==> self@.handlers[id as int].handler.post(
                *old(state),
                promise_id,
                args,
                buf,
                *final(state),
                op,
            ),
            id >= self@.names.len() ==> op is NotFound && *final(state) == *old(state),
    {
        if id < self.table.entries.len() {
            self.table.entries[id].op_fn.call(state, promise_id, args, buf)
        } else {
            Op::NotFound
        }
    }

    /// Resolves `name` and calls the op registered under it, or yields
    /// `NotFound` if there is none.
    pub fn dispatch(
        &self,
        state: &mut OpState,
        name: &str,
        promise_id: PromiseId,
        args: OpArgs,
        buf: OpBuf,
    ) -> (op: Op)
        requires
            self.wf(),
            old(state).wf(),
        ensures
            final(state).wf(),
            dispatch_post(self@, name@, *old(state), promise_id, args, buf, *final(state), op),
    {
        match self.find(name) {
            Some(id) => self.dispatch_id(state, id, promise_id, args, buf),
            None => Op::NotFound,
        }
    }
}

/// Compares two names.
pub fn str_eq(a: &str, b: &str) -> (r: bool)
    ensures
        r == (a@ == b@),
{
    let x = String::from_str(a);
    let y = String::from_str(b);
    x == y
}

} // verus!
