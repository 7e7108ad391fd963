//! Subprocess ops: what they check before the embedder spawns or waits,
//! and which resources stand for a child and its pipes.

use vstd::prelude::*;
use crate::async_cell::BorrowerId;
use crate::error::{
    bad_resource_id, custom_error, fails_with, generic_error, ErrorClass, OpError,
};
use crate::extensions::{declares, Extension, OpPair};
use crate::op_state::{
    denied_message, missing_message, release_post, same_but_table, same_slots,
    table_full_message, try_borrow_post, unchanged, unstable_message, BorrowError, OpState,
};
use crate::ops::{
    invalid_args, spec_started, started, NativeWork, Op, OpArgs, OpBuf, OpFn, OpHandler,
    PromiseId, ZeroCopyBuf,
};
use crate::resources::{spec_get, Resource, ResourceId, ResourceKind};

verus! {

/// What to connect to a standard stream of a child.
#[derive(Clone, Copy, Debug, PartialEq, Eq, Structural)]
pub enum Stdio {
    Inherit,
    Piped,
    Null,
}

#[derive(Clone, Copy, Debug, PartialEq, Eq, Structural)]
pub struct CommandStdio {
    pub stdin: Option<Stdio>,
    pub stdout: Option<Stdio>,
    pub stderr: Option<Stdio>,
}

#[derive(Debug)]
pub struct CommandArgs {
    pub cmd: String,
    pub args: Vec<String>,
    pub cwd: Option<String>,
    pub clear_env: bool,
    pub env: Vec<(String, String)>,
    pub gid: Option<u32>,
    pub uid: Option<u32>,
    pub stdio: CommandStdio,
}

/// How a child ended, as the system reports it.
#[derive(Clone, Copy, Debug, PartialEq, Eq, Structural)]
pub struct ExitStatus {
    pub code: Option<i32>,
    pub signal: Option<i32>,
}

/// How a child ended, as the caller sees it.
#[derive(Clone, Copy, Debug, PartialEq, Eq, Structural)]
pub struct CommandStatus {
    pub success: bool,
    pub code: i32,
    pub signal: Option<i32>,
}

#[derive(Debug)]
pub struct CommandOutput {
    pub status: CommandStatus,
    pub stdout: Option<ZeroCopyBuf>,
    pub stderr: Option<ZeroCopyBuf>,
}

/// A spawned child as the caller sees it.
#[derive(Clone, Copy, Debug, PartialEq, Eq, Structural)]
pub struct Child {
    pub rid: ResourceId,
    pub pid: u32,
    pub stdin_rid: Option<ResourceId>,
    pub stdout_rid: Option<ResourceId>,
    pub stderr_rid: Option<ResourceId>,
}

/// The child to collect the output of, and the pipes to read it from.
#[derive(Clone, Copy, Debug, PartialEq, Eq, Structural)]
pub struct ChildStdio {
    pub rid: ResourceId,
    pub stdout_rid: Option<ResourceId>,
    pub stderr_rid: Option<ResourceId>,
}

/// A child that the embedder has spawned, with its pipes.
#[derive(Clone, Copy, Debug, PartialEq, Eq, Structural)]
pub struct Spawned {
    pub child: u64,
    pub pid: u32,
    pub stdin: Option<u64>,
    pub stdout: Option<u64>,
    pub stderr: Option<u64>,
}

/// What a child wrote until it ended, and how it ended.
#[derive(Debug)]
pub struct Output {
    pub status: ExitStatus,
    pub stdout: Vec<u8>,
    pub stderr: Vec<u8>,
}

/// Subprocess work that the embedder does for a suspended call.
#[derive(Debug)]
pub enum CommandWork {
    /// Spawn a child. It is killed when it is dropped.
    Spawn(CommandArgs),
    /// Ask whether `child` has ended, without waiting.
    Status { rid: ResourceId, child: u64 },
    /// Give `stdin` back to `child`, if there is one, and wait for the
    /// child to end.
    Wait { child: u64, stdin: Option<u64> },
    /// Give `stdout` and `stderr` back to `child`, if there are any, and
    /// collect what it writes until it ends.
    Output { child: u64, stdout: Option<u64>, stderr: Option<u64> },
}

impl CommandStatus {
    /// The status of a child that a signal ended, or else of one that
    /// left an exit code. A child that a signal ended has not succeeded,
    /// and its code is 128 more than the signal.
    pub open spec fn spec_from_exit(status: ExitStatus) -> Option<CommandStatus> {
        match status.signal {
            Some(signal) => if signal <= i32::MAX - 128 {
                Some(
                    CommandStatus {
                        success: false,
                        code: (128 + signal) as i32,
                        signal: Some(signal),
                    },
                )
            } else {
                None
            },
            None => match status.code {
                Some(code) => Some(CommandStatus { success: code == 0, code, signal: None }),
                None => None,
            },
        }
    }

    /// The status that the caller sees, if the system reported one that
    /// can be shown.
    pub fn try_from_exit(status: ExitStatus) -> (s: Option<CommandStatus>)
        ensures
            s == Self::spec_from_exit(status),
    {
        match status.signal {
            Some(signal) => if signal <= i32::MAX - 128 {
                Some(CommandStatus { success: false, code: 128 + signal, signal: Some(signal) })
            } else {
                None
            },
            None => match status.code {
                Some(code) => Some(CommandStatus { success: code == 0, code, signal: None }),
                None => None,
            },
        }
    }

    /// The status that the caller sees.
    pub fn from_exit(status: ExitStatus) -> (s: CommandStatus)
        requires
            Self::spec_from_exit(status) is Some,
        ensures
            Some(s) == Self::spec_from_exit(status),
    {
        match Self::try_from_exit(status) {
            Some(s) => s,
            None => CommandStatus { success: false, code: 0, signal: None },
        }
    }
}

/// The status of an outcome, or the error of a status that cannot be
/// shown.
pub open spec fn spec_status_of(status: ExitStatus) -> Result<CommandStatus, OpError>
    recommends
        CommandStatus::spec_from_exit(status) is Some,
{
    Ok(CommandStatus::spec_from_exit(status)->0)
}

fn status_of(status: ExitStatus) -> (r: Result<CommandStatus, OpError>)
    ensures
        CommandStatus::spec_from_exit(status) is Some ==> r == spec_status_of(status),
        CommandStatus::spec_from_exit(status) is None ==> fails_with(
            r,
            ErrorClass::Error,
            "Should have either an exit code or a signal."@,
        ),
{
    match CommandStatus::try_from_exit(status) {
        Some(s) => Ok(s),
        None => Err(generic_error("Should have either an exit code or a signal.")),
    }
}

/// What a spawn call asks of the embedder: the session must have
/// permissions that allow running, and a group or user id needs unstable
/// interfaces. The state is only read.
pub open spec fn op_command_spawn_post(state: OpState, args: CommandArgs, r: Result<CommandWork, OpError>) -> bool {
    if state.permissions is None {
        fails_with(r, ErrorClass::Error, missing_message("Permissions"@))
    } else if !state.permissions->0.run {
        fails_with(r, ErrorClass::PermissionDenied, denied_message("run"@, args.cmd@))
    } else if args.gid is Some && !state.unstable {
        fails_with(r, ErrorClass::NotSupported, unstable_message("Deno.Command.gid"@))
    } else if args.uid is Some && !state.unstable {
        fails_with(r, ErrorClass::NotSupported, unstable_message("Deno.Command.uid"@))
    } else {
        r == Ok::<CommandWork, OpError>(CommandWork::Spawn(args))
    }
}

/// Checks a spawn call and hands the command to the embedder.
pub fn op_command_spawn(state: &OpState, args: CommandArgs) -> (r: Result<CommandWork, OpError>)
    ensures
        op_command_spawn_post(*state, args, r),
{
    let permissions = state.borrow_permissions()?;
    permissions.check_run(args.cmd.as_str())?;
    if args.gid.is_some() {
        state.check_unstable("Deno.Command.gid")?;
    }
    if args.uid.is_some() {
        state.check_unstable("Deno.Command.uid")?;
    }
    Ok(CommandWork::Spawn(args))
}

/// How many ids a spawned child needs: one for itself and one for each
/// pipe.
pub open spec fn ids_needed(spawned: Spawned) -> int {
    1 + (if spawned.stdin is Some { 1int } else { 0 }) + (if spawned.stdout is Some { 1int } else { 0 })
        + (if spawned.stderr is Some { 1int } else { 0 })
}

/// The id that the pipe `pipe` gets if it is the next to be registered.
pub open spec fn pipe_rid(pipe: Option<u64>, next: int) -> Option<ResourceId> {
    match pipe {
        Some(_) => Some(next as ResourceId),
        None => None,
    }
}

/// The next id after the pipe `pipe` was registered, if there is one.
pub open spec fn after_pipe(pipe: Option<u64>, next: int) -> int {
    match pipe {
        Some(_) => next + 1,
        None => next,
    }
}

/// The child that the caller sees when `spawned` is registered from the
/// id `first` on: the pipes come first, in the order stdin, stdout,
/// stderr, and the child last.
pub open spec fn spec_child(spawned: Spawned, first: int) -> Child {
    let second = after_pipe(spawned.stdin, first);
    let third = after_pipe(spawned.stdout, second);
    let last = after_pipe(spawned.stderr, third);
    Child {
        rid: last as ResourceId,
        pid: spawned.pid,
        stdin_rid: pipe_rid(spawned.stdin, first),
        stdout_rid: pipe_rid(spawned.stdout, second),
        stderr_rid: pipe_rid(spawned.stderr, third),
    }
}

/// Whether `table` holds, under the id of the pipe, a free resource of
/// type `kind` for it.
pub open spec fn holds_pipe(
    table: Map<ResourceId, Resource>,
    pipe: Option<u64>,
    rid: Option<ResourceId>,
    kind: ResourceKind,
) -> bool {
    pipe matches Some(handle) ==> table.contains_key(rid->0) && table[rid->0].is_free(kind, handle)
}

/// What registering a spawned child does. If the table has ids for the
/// child and all its pipes, they are registered, every other resource
/// stays, and the child is reported; if not, nothing is registered.
pub open spec fn spawned_post(before: OpState, spawned: Spawned, after: OpState, r: Result<Child, OpError>) -> bool {
    let first = before.resource_table.next_rid() as int;
    let child = spec_child(spawned, first);
    if first + ids_needed(spawned) <= u32::MAX {
        &&& r == Ok::<Child, OpError>(child)
        &&& after.resource_table.next_rid() == first + ids_needed(spawned)
        &&& same_but_table(before, after)
        &&& forall|rid: ResourceId| #[trigger]
            after.resource_table@.contains_key(rid) <==> before.resource_table@.contains_key(rid)
                || first <= rid < first + ids_needed(spawned)
        &&& forall|rid: ResourceId| #[trigger]
            before.resource_table@.contains_key(rid) ==> after.resource_table@[rid]
                == before.resource_table@[rid]
        &&& holds_pipe(
            after.resource_table@,
            spawned.stdin,
            child.stdin_rid,
            ResourceKind::ChildStdin,
        )
        &&& holds_pipe(
            after.resource_table@,
            spawned.stdout,
            child.stdout_rid,
            ResourceKind::ChildStdout,
        )
        &&& holds_pipe(
            after.resource_table@,
            spawned.stderr,
            child.stderr_rid,
            ResourceKind::ChildStderr,
        )
        &&& after.resource_table@[child.rid].is_free(ResourceKind::Child, spawned.child)
    } else {
        after == before && fails_with(r, ErrorClass::Error, table_full_message())
    }
}

fn count(pipe: &Option<u64>) -> (n: u32)
    ensures
        n == (if pipe is Some { 1int } else { 0 }),
{
    match pipe {
        Some(_) => 1,
        None => 0,
    }
}

fn add_pipe(state: &mut OpState, pipe: Option<u64>, kind: ResourceKind) -> (rid: Option<ResourceId>)
    requires
        old(state).wf(),
        pipe is Some ==> old(state).resource_table.has_room(),
    ensures
        final(state).wf(),
        same_but_table(*old(state), *final(state)),
        rid == pipe_rid(pipe, old(state).resource_table.next_rid() as int),
        final(state).resource_table.next_rid() == after_pipe(
            pipe,
            old(state).resource_table.next_rid() as int,
        ),
        pipe is None ==> *final(state) == *old(state),
        pipe matches Some(handle) ==> {
            &&& !old(state).resource_table@.contains_key(rid->0)
            &&& final(state).resource_table@[rid->0].is_free(kind, handle)
            &&& final(state).resource_table@ == old(state).resource_table@.insert(
                rid->0,
                final(state).resource_table@[rid->0],
            )
        },
{
    match pipe {
        Some(handle) => {
            let resource = Resource::new(kind, handle);
            let rid = state.resource_table.add(resource);
            Some(rid)
        },
        None => None,
    }
}

/// Registers the child that the embedder spawned and its pipes, all or
/// none; passes the error on if it could not spawn one.
pub fn command_spawned(state: &mut OpState, outcome: Result<Spawned, OpError>) -> (r: Result<Child, OpError>)
    requires
        old(state).wf(),
    ensures
        final(state).wf(),
        match outcome {
            Ok(spawned) => spawned_post(*old(state), spawned, *final(state), r),
            Err(e) => *final(state) == *old(state) && r == Err::<Child, OpError>(e),
        },
{
    let spawned = match outcome {
        Ok(spawned) => spawned,
        Err(e) => {
            return Err(e);
        },
    };
    let needed: u32 = 1 + count(&spawned.stdin) + count(&spawned.stdout) + count(&spawned.stderr);
    if state.resource_table.next() > u32::MAX - needed {
        return Err(generic_error("Resource table is full"));
    }
    let ghost t0 = state.resource_table@;
    let stdin_rid = add_pipe(state, spawned.stdin, ResourceKind::ChildStdin);
    let ghost t1 = state.resource_table@;
    let stdout_rid = add_pipe(state, spawned.stdout, ResourceKind::ChildStdout);
    let ghost t2 = state.resource_table@;
    let stderr_rid = add_pipe(state, spawned.stderr, ResourceKind::ChildStderr);
    let ghost t3 = state.resource_table@;
    let resource = Resource::new(ResourceKind::Child, spawned.child);
    let rid = state.resource_table.add(resource);
    proof {
        let first = old(state).resource_table.next_rid() as int;
        assert forall|k: ResourceId| #[trigger] t0.contains_key(k) implies k < first by {
            old(state).resource_table.lemma_live(k);
        }
        assert(forall|k: ResourceId| #[trigger] t0.contains_key(k) ==> t1.contains_key(k) && t1[k] == t0[k]);
        assert(forall|k: ResourceId| #[trigger] t1.contains_key(k) ==> t2.contains_key(k) && t2[k] == t1[k]);
        assert(forall|k: ResourceId| #[trigger] t2.contains_key(k) ==> t3.contains_key(k) && t3[k] == t2[k]);
    }
    Ok(Child { rid, pid: spawned.pid, stdin_rid, stdout_rid, stderr_rid })
}

/// What a status call does: the call `who` takes the borrow of the child
/// and asks the embedder whether it has ended. A child that is gone, and
/// one that another call holds, are errors that change nothing.
pub open spec fn op_command_status_post(
    before: OpState,
    rid: ResourceId,
    who: BorrowerId,
    after: OpState,
    r: Result<CommandWork, OpError>,
) -> bool {
    exists|borrowed: Result<u64, BorrowError>|
        {
            &&& #[trigger] try_borrow_post(before, rid, ResourceKind::Child, who, after, borrowed)
            &&& match borrowed {
                Ok(child) => r == Ok::<CommandWork, OpError>(CommandWork::Status { rid, child }),
                Err(BorrowError::NotFound) => fails_with(
                    r,
                    ErrorClass::BadResource,
                    "Bad resource ID"@,
                ),
                Err(BorrowError::Busy) => fails_with(r, ErrorClass::Busy, "Child is busy"@),
            }
        }
}

/// Asks whether the child `rid` has ended.
pub fn op_command_status(state: &mut OpState, rid: ResourceId, who: BorrowerId) -> (r: Result<
    CommandWork,
    OpError,
>)
    requires
        old(state).wf(),
    ensures
        final(state).wf(),
        op_command_status_post(*old(state), rid, who, *final(state), r),
{
    let borrowed = state.try_borrow_resource(rid, ResourceKind::Child, who);
    proof {
        assert(try_borrow_post(*old(state), rid, ResourceKind::Child, who, *state, borrowed));
    }
    match borrowed {
        Ok(child) => Ok(CommandWork::Status { rid, child }),
        Err(BorrowError::NotFound) => Err(bad_resource_id()),
        Err(BorrowError::Busy) => Err(custom_error(ErrorClass::Busy, "Child is busy")),
    }
}

/// The status that a status call reports for what the embedder found.
pub open spec fn spec_status_report(found: Option<ExitStatus>) -> Result<Option<CommandStatus>, OpError>
    recommends
        found matches Some(status) ==> CommandStatus::spec_from_exit(status) is Some,
{
    match found {
        Some(status) => Ok(CommandStatus::spec_from_exit(status)),
        None => Ok(None),
    }
}

/// Finishes a status call: the call lets go of the child, and the status
/// is reported if the child has ended.
pub fn command_status_done(
    state: &mut OpState,
    rid: ResourceId,
    who: BorrowerId,
    outcome: Result<Option<ExitStatus>, OpError>,
) -> (r: Result<Option<CommandStatus>, OpError>)
    requires
        old(state).wf(),
    ensures
        final(state).wf(),
        exists|woken: Option<BorrowerId>| #[trigger]
            release_post(*old(state), rid, ResourceKind::Child, who, *final(state), woken),
        match outcome {
            Ok(Some(status)) => if CommandStatus::spec_from_exit(status) is Some {
                r == spec_status_report(Some(status))
            } else {
                fails_with(r, ErrorClass::Error, "Should have either an exit code or a signal."@)
            },
            Ok(None) => r == spec_status_report(None),
            Err(e) => r == Err::<Option<CommandStatus>, OpError>(e),
        },
{
    let woken = state.release_resource(rid, ResourceKind::Child, who);
    proof {
        assert(release_post(*old(state), rid, ResourceKind::Child, who, *state, woken));
    }
    match outcome {
        Ok(Some(status)) => match status_of(status) {
            Ok(s) => Ok(Some(s)),
            Err(e) => Err(e),
        },
        Ok(None) => Ok(None),
        Err(e) => Err(e),
    }
}

/// What can be taken out of the table under `rid`: the handle of a
/// resource of type `kind` that nobody borrows.
pub open spec fn spec_claim(
    table: Map<ResourceId, Resource>,
    rid: ResourceId,
    kind: ResourceKind,
) -> Option<u64> {
    match spec_get(table, rid, kind) {
        Some(resource) => if resource.cell.spec_is_borrowed() {
            None
        } else {
            Some(resource.handle)
        },
        None => None,
    }
}

/// The same for a pipe that the call may or may not name: nothing is
/// wrong with a pipe that is not named.
pub open spec fn spec_claim_pipe(
    table: Map<ResourceId, Resource>,
    rid: Option<ResourceId>,
    kind: ResourceKind,
) -> bool {
    rid matches Some(rid) ==> spec_claim(table, rid, kind) is Some
}

/// The handle of the pipe that the call names, if it names one.
pub open spec fn spec_pipe_handle(
    table: Map<ResourceId, Resource>,
    rid: Option<ResourceId>,
    kind: ResourceKind,
) -> Option<u64> {
    match rid {
        Some(rid) => spec_claim(table, rid, kind),
        None => None,
    }
}

/// Whether `r` is the error for a resource that cannot be taken: gone, or
/// borrowed.
pub open spec fn claim_fails<T>(
    table: Map<ResourceId, Resource>,
    rid: ResourceId,
    kind: ResourceKind,
    r: Result<T, OpError>,
) -> bool {
    if spec_get(table, rid, kind) is None {
        fails_with(r, ErrorClass::BadResource, "Bad resource ID"@)
    } else {
        fails_with(r, ErrorClass::Busy, "Resource is busy"@)
    }
}

fn claim(state: &OpState, rid: ResourceId, kind: ResourceKind) -> (r: Result<u64, OpError>)
    requires
        state.wf(),
    ensures
        r is Ok <==> spec_claim(state.resource_table@, rid, kind) is Some,
        r matches Ok(handle) ==> Some(handle) == spec_claim(state.resource_table@, rid, kind),
        r is Err ==> claim_fails(state.resource_table@, rid, kind, r),
{
    match state.resource_table.get(rid, kind) {
        Ok(resource) => if resource.cell.is_borrowed() {
            Err(custom_error(ErrorClass::Busy, "Resource is busy"))
        } else {
            Ok(resource.handle)
        },
        Err(e) => Err(e),
    }
}

fn claim_pipe(state: &OpState, rid: Option<ResourceId>, kind: ResourceKind) -> (r: Result<Option<u64>, OpError>)
    requires
        state.wf(),
    ensures
        r is Ok <==> spec_claim_pipe(state.resource_table@, rid, kind),
        r matches Ok(handle) ==> handle == spec_pipe_handle(state.resource_table@, rid, kind),
        r is Err ==> claim_fails(state.resource_table@, rid->0, kind, r),
{
    match rid {
        Some(rid) => match claim(state, rid, kind) {
            Ok(handle) => Ok(Some(handle)),
            Err(e) => Err(e),
        },
        None => Ok(None),
    }
}

fn remove(state: &mut OpState, rid: Option<ResourceId>, kind: ResourceKind)
    requires
        old(state).wf(),
        spec_claim_pipe(old(state).resource_table@, rid, kind),
    ensures
        final(state).wf(),
        same_slots(*old(state), *final(state)),
        final(state).resource_table@ == (match rid {
            Some(rid) => old(state).resource_table@.remove(rid),
            None => old(state).resource_table@,
        }),
{
    match rid {
        Some(rid) => {
            let _ = state.resource_table.take(rid, kind);
        },
        None => {},
    }
}

/// What a wait call does. The child must be registered and free, and so
/// must the stdin pipe if the call names one; then both leave the table
/// and are handed to the embedder, which gives the pipe back to the child
/// and waits. If anything is missing or borrowed, nothing leaves the
/// table.
pub open spec fn op_command_wait_post(
    before: OpState,
    rid: ResourceId,
    stdin_rid: Option<ResourceId>,
    after: OpState,
    r: Result<CommandWork, OpError>,
) -> bool {
    let table = before.resource_table@;
    if spec_claim(table, rid, ResourceKind::Child) is None {
        unchanged(before, after) && claim_fails(table, rid, ResourceKind::Child, r)
    } else if !spec_claim_pipe(table, stdin_rid, ResourceKind::ChildStdin) {
        unchanged(before, after) && claim_fails(table, stdin_rid->0, ResourceKind::ChildStdin, r)
    } else {
        &&& same_slots(before, after)
        &&& after.resource_table@ == (match stdin_rid {
            Some(stdin_rid) => table.remove(rid).remove(stdin_rid),
            None => table.remove(rid),
        })
        &&& r == Ok::<CommandWork, OpError>(
            CommandWork::Wait {
                child: spec_claim(table, rid, ResourceKind::Child)->0,
                stdin: spec_pipe_handle(table, stdin_rid, ResourceKind::ChildStdin),
            },
        )
    }
}

/// Takes the child `rid`, and its stdin pipe if the call names one, out of
/// the table, for the embedder to wait for the child.
pub fn op_command_wait(state: &mut OpState, rid: ResourceId, stdin_rid: Option<ResourceId>) -> (r: Result<
    CommandWork,
    OpError,
>)
    requires
        old(state).wf(),
    ensures
        final(state).wf(),
        op_command_wait_post(*old(state), rid, stdin_rid, *final(state), r),
{
    let child = claim(state, rid, ResourceKind::Child)?;
    let stdin = claim_pipe(state, stdin_rid, ResourceKind::ChildStdin)?;
    remove(state, Some(rid), ResourceKind::Child);
    remove(state, stdin_rid, ResourceKind::ChildStdin);
    Ok(CommandWork::Wait { child, stdin })
}

/// Finishes a wait call: the status of the child as the caller sees it,
/// or the error of the embedder.
pub fn command_wait_done(outcome: Result<ExitStatus, OpError>) -> (r: Result<CommandStatus, OpError>)
    ensures
        match outcome {
            Ok(status) => if CommandStatus::spec_from_exit(status) is Some {
                r == spec_status_of(status)
            } else {
                fails_with(r, ErrorClass::Error, "Should have either an exit code or a signal."@)
            },
            Err(e) => r == Err::<CommandStatus, OpError>(e),
        },
{
    match outcome {
        Ok(status) => status_of(status),
        Err(e) => Err(e),
    }
}

/// What an output call does. The child must be registered and free, and so
/// must each pipe that the call names; then all of them leave the table
/// and are handed to the embedder. If anything is missing or borrowed,
/// nothing leaves the table.
pub open spec fn op_command_output_post(before: OpState, args: ChildStdio, after: OpState, r: Result<CommandWork, OpError>) -> bool {
    let table = before.resource_table@;
    if spec_claim(table, args.rid, ResourceKind::Child) is None {
        unchanged(before, after) && claim_fails(table, args.rid, ResourceKind::Child, r)
    } else if !spec_claim_pipe(table, args.stdout_rid, ResourceKind::ChildStdout) {
        unchanged(before, after) && claim_fails(
            table,
            args.stdout_rid->0,
            ResourceKind::ChildStdout,
            r,
        )
    } else if !spec_claim_pipe(table, args.stderr_rid, ResourceKind::ChildStderr) {
        unchanged(before, after) && claim_fails(
            table,
            args.stderr_rid->0,
            ResourceKind::ChildStderr,
            r,
        )
    } else {
        &&& same_slots(before, after)
        &&& forall|k: ResourceId| #[trigger]
            after.resource_table@.contains_key(k) <==> table.contains_key(k) && k != args.rid
                && Some(k) != args.stdout_rid && Some(k) != args.stderr_rid
        &&& forall|k: ResourceId| #[trigger]
            after.resource_table@.contains_key(k) ==> after.resource_table@[k] == table[k]
        &&& r == Ok::<CommandWork, OpError>(
            CommandWork::Output {
                child: spec_claim(table, args.rid, ResourceKind::Child)->0,
                stdout: spec_pipe_handle(table, args.stdout_rid, ResourceKind::ChildStdout),
                stderr: spec_pipe_handle(table, args.stderr_rid, ResourceKind::ChildStderr),
            },
        )
    }
}

/// Takes the child and the pipes that `args` names out of the table, for
/// the embedder to collect the output of the child.
pub fn op_command_output(state: &mut OpState, args: ChildStdio) -> (r: Result<CommandWork, OpError>)
    requires
        old(state).wf(),
    ensures
        final(state).wf(),
        op_command_output_post(*old(state), args, *final(state), r),
{
    let child = claim(state, args.rid, ResourceKind::Child)?;
    let stdout = claim_pipe(state, args.stdout_rid, ResourceKind::ChildStdout)?;
    let stderr = claim_pipe(state, args.stderr_rid, ResourceKind::ChildStderr)?;
    remove(state, Some(args.rid), ResourceKind::Child);
    remove(state, args.stdout_rid, ResourceKind::ChildStdout);
    remove(state, args.stderr_rid, ResourceKind::ChildStderr);
    Ok(CommandWork::Output { child, stdout, stderr })
}

/// Finishes an output call: the status of the child, and what it wrote to
/// each pipe that the call named.
pub fn command_output_done(args: ChildStdio, outcome: Result<Output, OpError>) -> (r: Result<CommandOutput, OpError>)
    ensures
        match outcome {
            Ok(output) => if CommandStatus::spec_from_exit(output.status) is Some {
                &&& r matches Ok(reported)
                &&& Some(reported.status) == CommandStatus::spec_from_exit(output.status)
                &&& reported.stdout == (if args.stdout_rid is Some {
                    Some(output.stdout)
                } else {
                    None
                })
                &&& reported.stderr == (if args.stderr_rid is Some {
                    Some(output.stderr)
                } else {
                    None
                })
            } else {
                fails_with(r, ErrorClass::Error, "Should have either an exit code or a signal."@)
            },
            Err(e) => r == Err::<CommandOutput, OpError>(e),
        },
{
    let output = outcome?;
    let status = status_of(output.status)?;
    let stdout = if args.stdout_rid.is_some() {
        Some(output.stdout)
    } else {
        None
    };
    let stderr = if args.stderr_rid.is_some() {
        Some(output.stderr)
    } else {
        None
    };
    Ok(CommandOutput { status, stdout, stderr })
}

/// The ops of this module.
#[derive(Clone, Copy, Debug, PartialEq, Eq, Structural)]
pub enum CommandOp {
    Spawn,
    Status,
    Wait,
    Output,
}

/// The subprocess work of a call as native work.
pub open spec fn spec_lift(r: Result<CommandWork, OpError>) -> Result<NativeWork, OpError> {
    match r {
        Ok(work) => Ok(NativeWork::Command(work)),
        Err(e) => Err(e),
    }
}

fn lift(r: Result<CommandWork, OpError>) -> (l: Result<NativeWork, OpError>)
    ensures
        l == spec_lift(r),
{
    match r {
        Ok(work) => Ok(NativeWork::Command(work)),
        Err(e) => Err(e),
    }
}

impl CommandOp {
    /// The name under which the op is registered.
    pub open spec fn spec_name(self) -> Seq<char> {
        match self {
            CommandOp::Spawn => "op_command_spawn"@,
            CommandOp::Status => "op_command_status"@,
            CommandOp::Wait => "op_command_wait"@,
            CommandOp::Output => "op_command_output"@,
        }
    }

    pub fn name(&self) -> (s: &'static str)
        ensures
            s@ == self.spec_name(),
    {
        match self {
            CommandOp::Spawn => "op_command_spawn",
            CommandOp::Status => "op_command_status",
            CommandOp::Wait => "op_command_wait",
            CommandOp::Output => "op_command_output",
        }
    }

    /// What the first half of a call of this op does, up to the work that
    /// it asks for. Arguments of another shape are an error that changes
    /// nothing.
    pub open spec fn starts(
        self,
        before: OpState,
        who: PromiseId,
        args: OpArgs,
        after: OpState,
        r: Result<CommandWork, OpError>,
    ) -> bool {
        match (self, args) {
            (CommandOp::Spawn, OpArgs::Command(a)) => after == before && op_command_spawn_post(
                before,
                a,
                r,
            ),
            (CommandOp::Status, OpArgs::Number(rid)) => op_command_status_post(
                before,
                rid,
                who,
                after,
                r,
            ),
            (CommandOp::Wait, OpArgs::ChildWait { rid, stdin_rid }) => op_command_wait_post(
                before,
                rid,
                stdin_rid,
                after,
                r,
            ),
            (CommandOp::Output, OpArgs::ChildStdio(a)) => op_command_output_post(
                before,
                a,
                after,
                r,
            ),
            _ => after == before && fails_with(r, ErrorClass::TypeError, "Invalid arguments"@),
        }
    }
}

impl OpHandler for CommandOp {
    /// The first half of the op runs; the call is suspended on the work
    /// that it asks for, or fails at once.
    open spec fn post(
        &self,
        before: OpState,
        promise_id: PromiseId,
        args: OpArgs,
        buf: OpBuf,
        after: OpState,
        op: Op,
    ) -> bool {
        exists|r: Result<CommandWork, OpError>| #[trigger]
            self.starts(before, promise_id, args, after, r) && op == spec_started(
                promise_id,
                spec_lift(r),
            )
    }

    fn call(&self, state: &mut OpState, promise_id: PromiseId, args: OpArgs, buf: OpBuf) -> (op: Op) {
        let r = match (self, args) {
            (CommandOp::Spawn, OpArgs::Command(a)) => op_command_spawn(state, a),
            (CommandOp::Status, OpArgs::Number(rid)) => op_command_status(state, rid, promise_id),
            (CommandOp::Wait, OpArgs::ChildWait { rid, stdin_rid }) => op_command_wait(
                state,
                rid,
                stdin_rid,
            ),
            (CommandOp::Output, OpArgs::ChildStdio(a)) => op_command_output(state, a),
            _ => Err(invalid_args()),
        };
        proof {
            assert(self.starts(*old(state), promise_id, args, *state, r));
        }
        started(promise_id, lift(r))
    }
}

/// The handler of a subprocess op.
pub fn command_op(op: CommandOp) -> (f: OpFn)
    ensures
        f.behaves_as(op),
{
    OpFn { handler: Box::new(op) }
}

/// The subprocess ops in the order in which they are registered.
pub fn ops() -> (all: Vec<OpPair>)
    ensures
        all@.len() == 4,
        declares(all@, 0, CommandOp::Spawn.spec_name(), CommandOp::Spawn),
        declares(all@, 1, CommandOp::Status.spec_name(), CommandOp::Status),
        declares(all@, 2, CommandOp::Wait.spec_name(), CommandOp::Wait),
        declares(all@, 3, CommandOp::Output.spec_name(), CommandOp::Output),
{
    let mut all: Vec<OpPair> = Vec::new();
    all.push((CommandOp::Spawn.name(), command_op(CommandOp::Spawn)));
    all.push((CommandOp::Status.name(), command_op(CommandOp::Status)));
    all.push((CommandOp::Wait.name(), command_op(CommandOp::Wait)));
    all.push((CommandOp::Output.name(), command_op(CommandOp::Output)));
    all
}

/// The extension that brings the subprocess ops, and nothing else.
pub fn init() -> (e: Extension)
    ensures
        e.js_files() =~= Seq::empty(),
        e.ops().len() == 4,
        declares(e.ops(), 0, CommandOp::Spawn.spec_name(), CommandOp::Spawn),
        declares(e.ops(), 1, CommandOp::Status.spec_name(), CommandOp::Status),
        declares(e.ops(), 2, CommandOp::Wait.spec_name(), CommandOp::Wait),
        declares(e.ops(), 3, CommandOp::Output.spec_name(), CommandOp::Output),
        e.opstate_fn() is None,
        e.middleware_fn() is None,
        !e.ops_consumed(),
        !e.state_consumed(),
{
    Extension::new(None, Some(ops()), None, None)
}

} // verus!
