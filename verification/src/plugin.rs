//! Loaded native modules: the resource that stands for one, and how a
//! module works on the resource table. Every resource that a module adds
//! holds a share of the module; every resource that it takes out lets go
//! of its share.

use vstd::prelude::*;
use crate::error::{fails_with, generic_error, ErrorClass, OpError};
use crate::extensions::{
    declares, register_all, register_all_post, register_post, OpPair, OpRegistrar, Registrar,
};
use crate::op_state::{
    add_post, denied_message, missing_message, table_full_message, unstable_message, OpState,
};
use crate::ops::{
    spec_started, started, NativeWork, Op, OpArgs, OpBuf, OpFn, OpHandler, OpId, PromiseId,
};
use crate::resources::{spec_get, Resource, ResourceId, ResourceKind, ResourceTable};

verus! {

#[derive(Debug)]
pub struct OpenPluginArgs {
    pub filename: String,
}

/// Module work that the embedder does for a suspended call.
#[derive(Debug)]
pub enum PluginWork {
    /// Load the native module at `filename`, resolved against the working
    /// directory.
    Open { filename: String },
}

/// What an open call asks of the embedder: unstable interfaces must be on,
/// and the session must have permissions that allow native modules. The
/// state is only read.
pub open spec fn op_open_plugin_post(state: OpState, args: OpenPluginArgs, r: Result<PluginWork, OpError>) -> bool {
    if !state.unstable {
        fails_with(r, ErrorClass::NotSupported, unstable_message("Deno.openPlugin"@))
    } else if state.permissions is None {
        fails_with(r, ErrorClass::Error, missing_message("Permissions"@))
    } else if !state.permissions->0.plugin {
        fails_with(r, ErrorClass::PermissionDenied, denied_message("plugin"@, args.filename@))
    } else {
        r == Ok::<PluginWork, OpError>(PluginWork::Open { filename: args.filename })
    }
}

/// Checks an open call and hands the file name to the embedder.
pub fn op_open_plugin(state: &OpState, args: OpenPluginArgs) -> (r: Result<PluginWork, OpError>)
    ensures
        op_open_plugin_post(*state, args, r),
{
    state.check_unstable("Deno.openPlugin")?;
    let permissions = state.borrow_permissions()?;
    permissions.check_plugin(args.filename.as_str())?;
    Ok(PluginWork::Open { filename: args.filename })
}

/// Whether `resource` stands for the loaded module `lib`: a free resource
/// that holds a share of the module.
pub open spec fn is_plugin(resource: Resource, lib: u64) -> bool {
    &&& resource.wf()
    &&& resource.kind == ResourceKind::Plugin
    &&& resource.handle == lib
    &&& resource.cell.holder() is None
    &&& resource.cell.waiters() =~= Seq::empty()
    &&& resource.cancel is None
    &&& resource.keep_alive == Some(lib)
    &&& resource.key_hash is None
}

/// Registers the module that the embedder loaded, and returns its id;
/// passes the error on if it loaded none.
pub fn plugin_opened(state: &mut OpState, outcome: Result<u64, OpError>) -> (r: Result<ResourceId, OpError>)
    requires
        old(state).wf(),
    ensures
        final(state).wf(),
        match outcome {
            Ok(lib) => exists|resource: Resource|
                is_plugin(resource, lib) && #[trigger] add_post(
                    *old(state),
                    resource,
                    *final(state),
                    r,
                ),
            Err(e) => *final(state) == *old(state) && r == Err::<ResourceId, OpError>(e),
        },
{
    match outcome {
        Ok(lib) => {
            let mut resource = Resource::new(ResourceKind::Plugin, lib);
            resource.keep_alive = Some(lib);
            let ghost stored = resource;
            let r = state.add_resource(resource);
            proof {
                assert(is_plugin(stored, lib) && add_post(*old(state), stored, *state, r));
            }
            r
        },
        Err(e) => Err(e),
    }
}

/// Whether some live resource holds a share of the module `lib`.
pub open spec fn holds_share(table: Map<ResourceId, Resource>, lib: u64) -> bool {
    exists|rid: ResourceId| #[trigger] table.contains_key(rid) && table[rid].keep_alive == Some(lib)
}

/// Whether `stored` is `resource` with a share of the module `lib`.
pub open spec fn wraps(stored: Resource, resource: Resource, lib: u64) -> bool {
    &&& stored.kind == resource.kind
    &&& stored.handle == resource.handle
    &&& stored.cell == resource.cell
    &&& stored.cancel == resource.cancel
    &&& stored.key_hash == resource.key_hash
    &&& stored.keep_alive == Some(lib)
}

/// Whether `resource` is `stored` without its share of a module.
pub open spec fn unwraps(resource: Resource, stored: Resource) -> bool {
    &&& resource.kind == stored.kind
    &&& resource.handle == stored.handle
    &&& resource.cell == stored.cell
    &&& resource.cancel == stored.cancel
    &&& resource.key_hash == stored.key_hash
    &&& resource.keep_alive is None
}

/// Registers `resource` for the module `lib`: it is stored with a share
/// of the module.
pub fn add(table: &mut ResourceTable, lib: u64, resource: Resource) -> (rid: ResourceId)
    requires
        old(table).wf(),
        old(table).has_room(),
        resource.wf(),
    ensures
        final(table).wf(),
        rid == old(table).next_rid(),
        final(table).next_rid() == rid + 1,
        !old(table)@.contains_key(rid),
        final(table)@ == old(table)@.insert(rid, final(table)@[rid]),
        wraps(final(table)@[rid], resource, lib),
        holds_share(final(table)@, lib),
{
    let mut resource = resource;
    resource.keep_alive = Some(lib);
    let rid = table.add(resource);
    proof {
        assert(table@.contains_key(rid) && table@[rid].keep_alive == Some(lib));
    }
    rid
}

/// Registers `resource` for the module `lib` if the table has an id left:
/// then it is stored with a share of the module, under an id that no live
/// resource has, and every resource that was live stays as it was. A table
/// that has given out every id stays as it is.
pub fn try_add(table: &mut ResourceTable, lib: u64, resource: Resource) -> (r: Result<ResourceId, OpError>)
    requires
        old(table).wf(),
        resource.wf(),
    ensures
        final(table).wf(),
        r is Ok <==> old(table).has_room(),
        r matches Ok(rid) ==> {
            &&& rid == old(table).next_rid()
            &&& final(table).next_rid() == rid + 1
            &&& !old(table)@.contains_key(rid)
            &&& final(table)@ == old(table)@.insert(rid, final(table)@[rid])
            &&& wraps(final(table)@[rid], resource, lib)
            &&& holds_share(final(table)@, lib)
        },
        r is Err ==> *final(table) == *old(table) && fails_with(
            r,
            ErrorClass::Error,
            table_full_message(),
        ),
{
    if table.is_full() {
        Err(generic_error("Resource table is full"))
    } else {
        Ok(self::add(table, lib, resource))
    }
}

/// Takes the resource `rid` of type `kind` out of the table for a module:
/// the module gets it without a share of any module.
pub fn remove(table: &mut ResourceTable, rid: ResourceId, kind: ResourceKind) -> (r: Result<Resource, OpError>)
    requires
        old(table).wf(),
    ensures
        final(table).wf(),
        final(table).next_rid() == old(table).next_rid(),
        r is Ok <==> spec_get(old(table)@, rid, kind) is Some,
        r matches Ok(resource) ==> unwraps(resource, old(table)@[rid]) && final(table)@ == old(
            table,
        )@.remove(rid),
        r matches Err(e) ==> e.is(ErrorClass::BadResource, "Bad resource ID"@) && final(table)@
            == old(table)@,
{
    let mut resource = table.take(rid, kind)?;
    resource.keep_alive = None;
    Ok(resource)
}

/// A module is held for as long as a resource that was added for it is
/// live: until every such resource has been closed or taken out, some
/// resource holds a share of it.
pub proof fn lemma_share_keeps_module(table: Map<ResourceId, Resource>, lib: u64, rid: ResourceId)
    requires
        table.contains_key(rid),
        table[rid].keep_alive == Some(lib),
    ensures
        holds_share(table, lib),
        forall|other: ResourceId|
            other != rid ==> holds_share(#[trigger] table.remove(other), lib),
{
    assert forall|other: ResourceId| other != rid implies holds_share(
        #[trigger] table.remove(other),
        lib,
    ) by {
        assert(table.remove(other).contains_key(rid));
    }
}

/// An op that a loaded module registered. It holds a share of the module,
/// and otherwise behaves as the handler of the module does.
pub struct PluginOp {
    pub lib: u64,
    pub inner: OpFn,
}

impl OpHandler for PluginOp {
    open spec fn post(
        &self,
        before: OpState,
        promise_id: PromiseId,
        args: OpArgs,
        buf: OpBuf,
        after: OpState,
        op: Op,
    ) -> bool {
        self.inner.handler.post(before, promise_id, args, buf, after, op)
    }

    open spec fn held_module(&self) -> Option<u64> {
        Some(self.lib)
    }

    fn call(&self, state: &mut OpState, promise_id: PromiseId, args: OpArgs, buf: OpBuf) -> (op: Op) {
        self.inner.call(state, promise_id, args, buf)
    }
}

/// The handler of an op of a loaded module: it behaves as `inner` does,
/// and holds a share of the module `lib`.
pub fn plugin_op(lib: u64, inner: OpFn) -> (f: OpFn)
    ensures
        f.same_as(inner),
        f.handler.held_module() == Some(lib),
{
    OpFn { handler: Box::new(PluginOp { lib, inner }) }
}

/// Registers an op for the module `lib`: what is registered holds a share
/// of the module and behaves as `op_fn` does.
pub fn register_op(registrar: &mut Registrar, lib: u64, name: &'static str, op_fn: OpFn) -> (r: Result<
    OpId,
    OpError,
>)
    requires
        old(registrar)@.table.wf(),
    ensures
        final(registrar)@.table.wf(),
        exists|shared: OpFn|
            shared.same_as(op_fn) && shared.handler.held_module() == Some(lib)
                && #[trigger] register_post(
                old(registrar)@,
                name@,
                shared,
                final(registrar)@,
                r,
            ),
{
    let shared = plugin_op(lib, op_fn);
    let r = registrar.register_op(name, shared);
    proof {
        assert(shared.same_as(op_fn) && shared.handler.held_module() == Some(lib) && register_post(
            old(registrar)@,
            name@,
            shared,
            registrar@,
            r,
        ));
    }
    r
}

/// The op that loads a native module. It takes the name of the file.
#[derive(Clone, Copy, Debug, PartialEq, Eq, Structural)]
pub struct OpenPlugin;

/// The module work of a call as native work, or the error of arguments
/// that are no file name.
pub open spec fn spec_lift(r: Result<PluginWork, OpError>) -> Result<NativeWork, OpError> {
    match r {
        Ok(work) => Ok(NativeWork::Plugin(work)),
        Err(e) => Err(e),
    }
}

/// What the first half of a call yields: the check of the file name, or
/// the error of arguments that are no file name.
pub open spec fn open_plugin_starts(state: OpState, args: OpArgs, r: Result<PluginWork, OpError>) -> bool {
    match args {
        OpArgs::Text(filename) => op_open_plugin_post(state, OpenPluginArgs { filename }, r),
        _ => fails_with(r, ErrorClass::TypeError, "Invalid arguments"@),
    }
}

impl OpHandler for OpenPlugin {
    /// The call is checked and suspended on the loading of the module, or
    /// fails at once. The state is only read.
    open spec fn post(
        &self,
        before: OpState,
        promise_id: PromiseId,
        args: OpArgs,
        buf: OpBuf,
        after: OpState,
        op: Op,
    ) -> bool {
        after == before && exists|r: Result<PluginWork, OpError>| #[trigger]
            open_plugin_starts(before, args, r) && op == spec_started(promise_id, spec_lift(r))
    }

    fn call(&self, state: &mut OpState, promise_id: PromiseId, args: OpArgs, buf: OpBuf) -> (op: Op) {
        let r = match args {
            OpArgs::Text(filename) => op_open_plugin(state, OpenPluginArgs { filename }),
            _ => Err(crate::ops::invalid_args()),
        };
        proof {
            assert(open_plugin_starts(*old(state), args, r));
        }
        let lifted = match r {
            Ok(work) => Ok(NativeWork::Plugin(work)),
            Err(e) => Err(e),
        };
        started(promise_id, lifted)
    }
}

/// The handler of the op that loads a native module.
pub fn open_plugin_op() -> (f: OpFn)
    ensures
        f.behaves_as(OpenPlugin),
{
    OpFn { handler: Box::new(OpenPlugin) }
}

/// Registers the op that loads a native module into `rt`.
pub fn init(rt: &mut Registrar) -> (r: Result<(), OpError>)
    requires
        old(rt)@.table.wf(),
    ensures
        final(rt)@.table.wf(),
        exists|all: Seq<OpPair>|
            {
                &&& all.len() == 1
                &&& declares(all, 0, "op_open_plugin"@, OpenPlugin)
                &&& #[trigger] register_all_post(old(rt)@, all, final(rt)@, r)
            },
{
    let mut all: Vec<OpPair> = Vec::new();
    all.push(("op_open_plugin", open_plugin_op()));
    let ghost declared = all@;
    let r = register_all(rt, all);
    proof {
        assert(declares(declared, 0, "op_open_plugin"@, OpenPlugin));
        assert(register_all_post(old(rt)@, declared, rt@, r));
    }
    r
}

} // verus!
