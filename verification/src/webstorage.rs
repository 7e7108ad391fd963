//! Storage ops: which connection a call works on and which statement it
//! runs.

use vstd::prelude::*;
use crate::error::{fails_with, ErrorClass, OpError};
use crate::extensions::{declares, Extension, OpPair, OpStateFn, SourcePair, StateInit};
use crate::op_state::{add_post, missing_message, missing_state, LocationDataDir, OpState};
use crate::ops::{
    invalid_args, spec_started, started, NativeWork, Op, OpArgs, OpBuf, OpFn, OpHandler, PromiseId,
};
use crate::resources::{spec_get, Resource, ResourceId, ResourceKind};

verus! {

#[derive(Clone, Copy, Debug, PartialEq, Eq, Structural)]
pub struct OpenArgs {
    pub persistent: bool,
}

#[derive(Clone, Copy, Debug, PartialEq, Eq, Structural)]
pub struct LengthArgs {
    pub rid: u32,
}

#[derive(Clone, Copy, Debug, PartialEq, Eq, Structural)]
pub struct KeyArgs {
    pub rid: u32,
    pub index: u32,
}

#[derive(Debug)]
pub struct SetArgs {
    pub rid: u32,
    pub key_name: String,
    pub key_value: String,
}

#[derive(Debug)]
pub struct GetArgs {
    pub rid: u32,
    pub key_name: String,
}

#[derive(Debug)]
pub struct RemoveArgs {
    pub rid: u32,
    pub key_name: String,
}

#[derive(Clone, Copy, Debug, PartialEq, Eq, Structural)]
pub struct ClearArgs {
    pub rid: u32,
}

/// What a call does to the stored data.
#[derive(Debug)]
pub enum Statement {
    /// Count the entries.
    Length,
    /// Read the key at place `index`.
    Key { index: u32 },
    /// Store `key_value` under `key_name`, in place of what is there.
    SetItem { key_name: String, key_value: String },
    /// Read the value under `key_name`.
    GetItem { key_name: String },
    /// Delete the entry under `key_name`.
    RemoveItem { key_name: String },
    /// Delete every entry.
    Clear,
}

/// The statement that makes the table of a store that does not have one.
pub open spec fn spec_create_table() -> Seq<char> {
    "CREATE TABLE data (key VARCHAR UNIQUE, value VARCHAR)"@
}

impl Statement {
    /// The statement in the language of the storage engine. Its
    /// parameters are the strings and numbers of the statement, in order.
    pub open spec fn spec_sql(&self) -> Seq<char> {
        match self {
            Statement::Length => "SELECT COUNT(*) FROM data"@,
            Statement::Key { .. } => "SELECT key FROM data LIMIT 1 OFFSET ?"@,
            Statement::SetItem { .. } => "INSERT OR REPLACE INTO data (key, value) VALUES (?, ?)"@,
            Statement::GetItem { .. } => "SELECT value FROM data WHERE key = ?"@,
            Statement::RemoveItem { .. } => "DELETE FROM data WHERE key = ?"@,
            Statement::Clear => "DROP TABLE data"@,
        }
    }

    /// The statement to run after the first one, if there is one: clearing
    /// drops the table and makes it anew.
    pub open spec fn spec_then_sql(&self) -> Option<Seq<char>> {
        match self {
            Statement::Clear => Some(spec_create_table()),
            _ => None,
        }
    }

    pub fn sql(&self) -> (s: &'static str)
        ensures
            s@ == self.spec_sql(),
    {
        match self {
            Statement::Length => "SELECT COUNT(*) FROM data",
            Statement::Key { .. } => "SELECT key FROM data LIMIT 1 OFFSET ?",
            Statement::SetItem { .. } => "INSERT OR REPLACE INTO data (key, value) VALUES (?, ?)",
            Statement::GetItem { .. } => "SELECT value FROM data WHERE key = ?",
            Statement::RemoveItem { .. } => "DELETE FROM data WHERE key = ?",
            Statement::Clear => "DROP TABLE data",
        }
    }

    pub fn then_sql(&self) -> (s: Option<&'static str>)
        ensures
            s is Some <==> self.spec_then_sql() is Some,
            s matches Some(text) ==> text@ == self.spec_then_sql()->0,
    {
        match self {
            Statement::Clear => Some("CREATE TABLE data (key VARCHAR UNIQUE, value VARCHAR)"),
            _ => None,
        }
    }
}

/// Storage work that the embedder does for a suspended call.
#[derive(Debug)]
pub enum StorageWork {
    /// Open a store: in the directory `location`, which is made if it is
    /// not there, or in memory if there is none; then make its table with
    /// `create_table`.
    Open { location: Option<String>, create_table: &'static str },
    /// Run `statement` on `connection`.
    Query { connection: u64, statement: Statement },
}

/// What an open call asks of the embedder. A persistent store needs the
/// data directory of the session, and its table is only made if it is not
/// there yet. The state is only read.
pub open spec fn op_webstorage_open_post(state: OpState, args: OpenArgs, r: Result<StorageWork, OpError>) -> bool {
    if !args.persistent {
        r matches Ok(StorageWork::Open { location, create_table }) && location is None
            && create_table@ == spec_create_table()
    } else {
        match state.location_data_dir {
            Some(LocationDataDir(Some(dir))) => r matches Ok(
                StorageWork::Open { location, create_table },
            ) && location matches Some(path) && path@ == dir@ && create_table@
                == "CREATE TABLE IF NOT EXISTS data (key VARCHAR UNIQUE, value VARCHAR)"@,
            _ => fails_with(r, ErrorClass::Error, missing_message("LocationDataDir"@)),
        }
    }
}

/// Checks an open call and says which store the embedder has to open.
pub fn op_webstorage_open(state: &OpState, args: OpenArgs) -> (r: Result<StorageWork, OpError>)
    ensures
        op_webstorage_open_post(*state, args, r),
{
    if args.persistent {
        match &state.location_data_dir {
            Some(LocationDataDir(Some(dir))) => Ok(
                StorageWork::Open {
                    location: Some(dir.clone()),
                    create_table: "CREATE TABLE IF NOT EXISTS data (key VARCHAR UNIQUE, value VARCHAR)",
                },
            ),
            _ => Err(missing_state("LocationDataDir")),
        }
    } else {
        Ok(
            StorageWork::Open {
                location: None,
                create_table: "CREATE TABLE data (key VARCHAR UNIQUE, value VARCHAR)",
            },
        )
    }
}

/// Registers the connection that the embedder opened, and returns its id;
/// passes the error on if it opened none.
pub fn webstorage_opened(state: &mut OpState, outcome: Result<u64, OpError>) -> (r: Result<ResourceId, OpError>)
    requires
        old(state).wf(),
    ensures
        final(state).wf(),
        match outcome {
            Ok(connection) => exists|resource: Resource|
                resource.is_free(ResourceKind::WebStorage, connection) && #[trigger] add_post(
                    *old(state),
                    resource,
                    *final(state),
                    r,
                ),
            Err(e) => *final(state) == *old(state) && r == Err::<ResourceId, OpError>(e),
        },
{
    match outcome {
        Ok(connection) => {
            let resource = Resource::new(ResourceKind::WebStorage, connection);
            let ghost stored = resource;
            let r = state.add_resource(resource);
            proof {
                assert(stored.is_free(ResourceKind::WebStorage, connection) && add_post(
                    *old(state),
                    stored,
                    *state,
                    r,
                ));
            }
            r
        },
        Err(e) => Err(e),
    }
}

/// What a call on a connection asks of the embedder: to run `statement`
/// on the connection registered under `rid`. The state is only read.
pub open spec fn query_post(state: OpState, rid: ResourceId, statement: Statement, r: Result<StorageWork, OpError>) -> bool {
    match spec_get(state.resource_table@, rid, ResourceKind::WebStorage) {
        Some(resource) => r == Ok::<StorageWork, OpError>(
            StorageWork::Query { connection: resource.handle, statement },
        ),
        None => fails_with(r, ErrorClass::BadResource, "Bad resource ID"@),
    }
}

fn query(state: &OpState, rid: ResourceId, statement: Statement) -> (r: Result<StorageWork, OpError>)
    requires
        state.wf(),
    ensures
        query_post(*state, rid, statement, r),
{
    let resource = state.resource_table.get(rid, ResourceKind::WebStorage)?;
    Ok(StorageWork::Query { connection: resource.handle, statement })
}

/// Asks for the number of entries.
pub fn op_webstorage_length(state: &OpState, args: LengthArgs) -> (r: Result<StorageWork, OpError>)
    requires
        state.wf(),
    ensures
        query_post(*state, args.rid, Statement::Length, r),
{
    query(state, args.rid, Statement::Length)
}

/// Asks for the key at a place.
pub fn op_webstorage_key(state: &OpState, args: KeyArgs) -> (r: Result<StorageWork, OpError>)
    requires
        state.wf(),
    ensures
        query_post(*state, args.rid, Statement::Key { index: args.index }, r),
{
    query(state, args.rid, Statement::Key { index: args.index })
}

/// Asks to store a value under a key.
pub fn op_webstorage_set(state: &OpState, args: SetArgs) -> (r: Result<StorageWork, OpError>)
    requires
        state.wf(),
    ensures
        query_post(
            *state,
            args.rid,
            Statement::SetItem { key_name: args.key_name, key_value: args.key_value },
            r,
        ),
{
    query(state, args.rid, Statement::SetItem { key_name: args.key_name, key_value: args.key_value })
}

/// Asks for the value under a key.
pub fn op_webstorage_get(state: &OpState, args: GetArgs) -> (r: Result<StorageWork, OpError>)
    requires
        state.wf(),
    ensures
        query_post(*state, args.rid, Statement::GetItem { key_name: args.key_name }, r),
{
    query(state, args.rid, Statement::GetItem { key_name: args.key_name })
}

/// Asks to delete the entry under a key.
pub fn op_webstorage_remove(state: &OpState, args: RemoveArgs) -> (r: Result<StorageWork, OpError>)
    requires
        state.wf(),
    ensures
        query_post(*state, args.rid, Statement::RemoveItem { key_name: args.key_name }, r),
{
    query(state, args.rid, Statement::RemoveItem { key_name: args.key_name })
}

/// Asks to delete every entry.
pub fn op_webstorage_clear(state: &OpState, args: ClearArgs) -> (r: Result<StorageWork, OpError>)
    requires
        state.wf(),
    ensures
        query_post(*state, args.rid, Statement::Clear, r),
{
    query(state, args.rid, Statement::Clear)
}

/// The ops of this module.
#[derive(Clone, Copy, Debug, PartialEq, Eq, Structural)]
pub enum StorageOp {
    Open,
    Length,
    Key,
    SetItem,
    GetItem,
    RemoveItem,
    Clear,
}

/// The storage work of a call as native work.
pub open spec fn spec_lift(r: Result<StorageWork, OpError>) -> Result<NativeWork, OpError> {
    match r {
        Ok(work) => Ok(NativeWork::Storage(work)),
        Err(e) => Err(e),
    }
}

fn lift(r: Result<StorageWork, OpError>) -> (l: Result<NativeWork, OpError>)
    ensures
        l == spec_lift(r),
{
    match r {
        Ok(work) => Ok(NativeWork::Storage(work)),
        Err(e) => Err(e),
    }
}

impl StorageOp {
    /// The name under which the op is registered.
    pub open spec fn spec_name(self) -> Seq<char> {
        match self {
            StorageOp::Open => "op_webstorage_open"@,
            StorageOp::Length => "op_webstorage_length"@,
            StorageOp::Key => "op_webstorage_key"@,
            StorageOp::SetItem => "op_webstorage_set"@,
            StorageOp::GetItem => "op_webstorage_get"@,
            StorageOp::RemoveItem => "op_webstorage_remove"@,
            StorageOp::Clear => "op_webstorage_clear"@,
        }
    }

    pub fn name(&self) -> (s: &'static str)
        ensures
            s@ == self.spec_name(),
    {
        match self {
            StorageOp::Open => "op_webstorage_open",
            StorageOp::Length => "op_webstorage_length",
            StorageOp::Key => "op_webstorage_key",
            StorageOp::SetItem => "op_webstorage_set",
            StorageOp::GetItem => "op_webstorage_get",
            StorageOp::RemoveItem => "op_webstorage_remove",
            StorageOp::Clear => "op_webstorage_clear",
        }
    }

    /// What the first half of a call of this op yields. Arguments of
    /// another shape are an error.
    pub open spec fn starts(self, state: OpState, args: OpArgs, r: Result<StorageWork, OpError>) -> bool {
        match (self, args) {
            (StorageOp::Open, OpArgs::StorageOpen(a)) => op_webstorage_open_post(state, a, r),
            (StorageOp::Length, OpArgs::StorageLength(a)) => query_post(
                state,
                a.rid,
                Statement::Length,
                r,
            ),
            (StorageOp::Key, OpArgs::StorageKey(a)) => query_post(
                state,
                a.rid,
                Statement::Key { index: a.index },
                r,
            ),
            (StorageOp::SetItem, OpArgs::StorageSet(a)) => query_post(
                state,
                a.rid,
                Statement::SetItem { key_name: a.key_name, key_value: a.key_value },
                r,
            ),
            (StorageOp::GetItem, OpArgs::StorageGet(a)) => query_post(
                state,
                a.rid,
                Statement::GetItem { key_name: a.key_name },
                r,
            ),
            (StorageOp::RemoveItem, OpArgs::StorageRemove(a)) => query_post(
                state,
                a.rid,
                Statement::RemoveItem { key_name: a.key_name },
                r,
            ),
            (StorageOp::Clear, OpArgs::StorageClear(a)) => query_post(
                state,
                a.rid,
                Statement::Clear,
                r,
            ),
            _ => fails_with(r, ErrorClass::TypeError, "Invalid arguments"@),
        }
    }
}

impl OpHandler for StorageOp {
    /// The first half of the op runs; the call is suspended on the storage
    /// work that it asks for, or fails at once. The state is only read.
    open spec fn post(
        &self,
        before: OpState,
        promise_id: PromiseId,
        args: OpArgs,
        buf: OpBuf,
        after: OpState,
        op: Op,
    ) -> bool {
        after == before && exists|r: Result<StorageWork, OpError>| #[trigger]
            self.starts(before, args, r) && op == spec_started(promise_id, spec_lift(r))
    }

    fn call(&self, state: &mut OpState, promise_id: PromiseId, args: OpArgs, buf: OpBuf) -> (op: Op) {
        let r = match (self, args) {
            (StorageOp::Open, OpArgs::StorageOpen(a)) => op_webstorage_open(state, a),
            (StorageOp::Length, OpArgs::StorageLength(a)) => op_webstorage_length(state, a),
            (StorageOp::Key, OpArgs::StorageKey(a)) => op_webstorage_key(state, a),
            (StorageOp::SetItem, OpArgs::StorageSet(a)) => op_webstorage_set(state, a),
            (StorageOp::GetItem, OpArgs::StorageGet(a)) => op_webstorage_get(state, a),
            (StorageOp::RemoveItem, OpArgs::StorageRemove(a)) => op_webstorage_remove(state, a),
            (StorageOp::Clear, OpArgs::StorageClear(a)) => op_webstorage_clear(state, a),
            _ => Err(invalid_args()),
        };
        proof {
            assert(self.starts(*old(state), args, r));
        }
        started(promise_id, lift(r))
    }
}

/// The handler of a storage op.
pub fn storage_op(op: StorageOp) -> (f: OpFn)
    ensures
        f.behaves_as(op),
{
    OpFn { handler: Box::new(op) }
}

/// Whether `ops` are the storage ops in the order in which they are
/// registered.
pub open spec fn declares_all(ops: Seq<OpPair>) -> bool {
    &&& ops.len() == 7
    &&& declares(ops, 0, StorageOp::Open.spec_name(), StorageOp::Open)
    &&& declares(ops, 1, StorageOp::Length.spec_name(), StorageOp::Length)
    &&& declares(ops, 2, StorageOp::Key.spec_name(), StorageOp::Key)
    &&& declares(ops, 3, StorageOp::SetItem.spec_name(), StorageOp::SetItem)
    &&& declares(ops, 4, StorageOp::GetItem.spec_name(), StorageOp::GetItem)
    &&& declares(ops, 5, StorageOp::RemoveItem.spec_name(), StorageOp::RemoveItem)
    &&& declares(ops, 6, StorageOp::Clear.spec_name(), StorageOp::Clear)
}

/// The storage ops in the order in which they are registered.
pub fn ops() -> (all: Vec<OpPair>)
    ensures
        declares_all(all@),
{
    let mut all: Vec<OpPair> = Vec::new();
    all.push((StorageOp::Open.name(), storage_op(StorageOp::Open)));
    all.push((StorageOp::Length.name(), storage_op(StorageOp::Length)));
    all.push((StorageOp::Key.name(), storage_op(StorageOp::Key)));
    all.push((StorageOp::SetItem.name(), storage_op(StorageOp::SetItem)));
    all.push((StorageOp::GetItem.name(), storage_op(StorageOp::GetItem)));
    all.push((StorageOp::RemoveItem.name(), storage_op(StorageOp::RemoveItem)));
    all.push((StorageOp::Clear.name(), storage_op(StorageOp::Clear)));
    all
}

/// Seeds the state with the data directory of the session.
pub struct PutLocationDataDir {
    pub dir: Option<String>,
}

/// Whether `slot` holds the directory `dir`.
pub open spec fn holds_dir(slot: Option<LocationDataDir>, dir: Option<String>) -> bool {
    slot matches Some(LocationDataDir(stored)) && match dir {
        Some(d) => stored matches Some(s) && s@ == d@,
        None => stored is None,
    }
}

impl StateInit for PutLocationDataDir {
    /// The slot for the data directory is filled; nothing else changes.
    open spec fn post(&self, before: OpState, after: OpState, r: Result<(), OpError>) -> bool {
        &&& r is Ok
        &&& holds_dir(after.location_data_dir, self.dir)
        &&& after.resource_table == before.resource_table
        &&& after.permissions == before.permissions
        &&& after.seeded_rng == before.seeded_rng
        &&& after.gpu_instance == before.gpu_instance
        &&& after.unstable == before.unstable
        &&& after.metrics == before.metrics
    }

    fn init(&self, state: &mut OpState) -> (r: Result<(), OpError>) {
        let dir = match &self.dir {
            Some(d) => Some(d.clone()),
            None => None,
        };
        state.location_data_dir = Some(LocationDataDir(dir));
        Ok(())
    }
}

/// The state initializer that puts `dir` into the state.
pub fn put_location_data_dir(dir: Option<String>) -> (f: OpStateFn)
    ensures
        forall|before: OpState, after: OpState, r: Result<(), OpError>|
            #[trigger] f.f.post(before, after, r) == (PutLocationDataDir { dir }).post(
                before,
                after,
                r,
            ),
{
    OpStateFn { f: Box::new(PutLocationDataDir { dir }) }
}

/// The extension of this module: its script, whose text is `source`, its
/// ops, and a state initializer that puts the data directory `deno_dir`
/// into the state.
pub fn init(source: &'static str, deno_dir: Option<String>) -> (e: Extension)
    ensures
        e.js_files().len() == 1,
        e.js_files()[0].0@ == "deno:op_crates/webstorage/01_webstorage.js"@,
        e.js_files()[0].1 == source,
        declares_all(e.ops()),
        e.opstate_fn() matches Some(f) && forall|before: OpState, after: OpState, r: Result<(), OpError>|
            #[trigger] f.f.post(before, after, r) == (PutLocationDataDir { dir: deno_dir }).post(
                before,
                after,
                r,
            ),
        e.middleware_fn() is None,
        !e.ops_consumed(),
        !e.state_consumed(),
{
    let mut files: Vec<SourcePair> = Vec::new();
    files.push(("deno:op_crates/webstorage/01_webstorage.js", source));
    Extension::with_ops(files, ops(), Some(put_location_data_dir(deno_dir)))
}

} // verus!
