//! The per-session context that every op call reads and writes.

use vstd::prelude::*;
use crate::async_cell::{Acquire, BorrowerId};
use crate::error::{custom_error, fails_with, generic_error, message_with, ErrorClass, OpError};
use crate::resources::{spec_get, Resource, ResourceId, ResourceKind, ResourceTable};

verus! {

/// What the session may touch. Each capability is granted or not.
#[derive(Clone, Copy, Debug, PartialEq, Eq, Structural)]
pub struct Permissions {
    pub read: bool,
    pub write: bool,
    pub net: bool,
    pub run: bool,
    pub plugin: bool,
}

/// The message of a refused check: what was asked for, and on what.
pub open spec fn denied_message(capability: Seq<char>, target: Seq<char>) -> Seq<char> {
    "Requires "@ + capability + " access to "@ + target
}

fn check(granted: bool, capability: &str, target: &str) -> (r: Result<(), OpError>)
    ensures
        r is Ok <==> granted,
        r matches Err(e) ==> e.is(
            ErrorClass::PermissionDenied,
            denied_message(capability@, target@),
        ),
{
    if granted {
        Ok(())
    } else {
        let message = message_with("Requires ", capability).concat(" access to ").concat(target);
        Err(custom_error(ErrorClass::PermissionDenied, message.as_str()))
    }
}

impl Permissions {
    /// Every capability granted.
    pub fn allow_all() -> (p: Permissions)
        ensures
            p == (Permissions { read: true, write: true, net: true, run: true, plugin: true }),
    {
        Permissions { read: true, write: true, net: true, run: true, plugin: true }
    }

    /// No capability granted.
    pub fn none() -> (p: Permissions)
        ensures
            p == (Permissions { read: false, write: false, net: false, run: false, plugin: false }),
    {
        Permissions { read: false, write: false, net: false, run: false, plugin: false }
    }

    /// May the session talk to `hostname`?
    pub fn check_net(&self, hostname: &str) -> (r: Result<(), OpError>)
        ensures
            r is Ok <==> self.net,
            r matches Err(e) ==> e.is(
                ErrorClass::PermissionDenied,
                denied_message("net"@, hostname@),
            ),
    {
        check(self.net, "net", hostname)
    }

    /// May the session read `path`?
    pub fn check_read(&self, path: &str) -> (r: Result<(), OpError>)
        ensures
            r is Ok <==> self.read,
            r matches Err(e) ==> e.is(
                ErrorClass::PermissionDenied,
                denied_message("read"@, path@),
            ),
    {
        check(self.read, "read", path)
    }

    /// May the session write `path`?
    pub fn check_write(&self, path: &str) -> (r: Result<(), OpError>)
        ensures
            r is Ok <==> self.write,
            r matches Err(e) ==> e.is(
                ErrorClass::PermissionDenied,
                denied_message("write"@, path@),
            ),
    {
        check(self.write, "write", path)
    }

    /// May the session run `command`?
    pub fn check_run(&self, command: &str) -> (r: Result<(), OpError>)
        ensures
            r is Ok <==> self.run,
            r matches Err(e) ==> e.is(
                ErrorClass::PermissionDenied,
                denied_message("run"@, command@),
            ),
    {
        check(self.run, "run", command)
    }

    /// May the session load the native module at `filename`?
    pub fn check_plugin(&self, filename: &str) -> (r: Result<(), OpError>)
        ensures
            r is Ok <==> self.plugin,
            r matches Err(e) ==> e.is(
                ErrorClass::PermissionDenied,
                denied_message("plugin"@, filename@),
            ),
    {
        check(self.plugin, "plugin", filename)
    }
}

/// Where persistent storage for the session's origin lives, if anywhere.
#[derive(Clone, Debug)]
pub struct LocationDataDir(pub Option<String>);

/// Counters kept by the metrics middleware.
#[derive(Clone, Copy, Debug, PartialEq, Eq, Structural)]
pub struct OpMetrics {
    pub ops_dispatched: u64,
    pub ops_completed: u64,
}

/// The shared state of one session: the resource table, and one slot per
/// type of singleton. A slot that was never filled is empty, and an op that
/// needs it fails.
pub struct OpState {
    pub resource_table: ResourceTable,
    pub permissions: Option<Permissions>,
    pub location_data_dir: Option<LocationDataDir>,
    /// The embedder's handle for a seeded random number generator.
    pub seeded_rng: Option<u64>,
    /// The embedder's handle for the GPU instance.
    pub gpu_instance: Option<u64>,
    /// Whether unstable interfaces are switched on.
    pub unstable: bool,
    pub metrics: OpMetrics,
}

/// The message of an op that found a slot empty.
pub open spec fn missing_message(slot: Seq<char>) -> Seq<char> {
    "Missing state: "@ + slot
}

/// The message of a call into an unstable interface that is switched off.
pub open spec fn unstable_message(api_name: Seq<char>) -> Seq<char> {
    "Unstable API '"@ + api_name + "'. The --unstable flag must be provided."@
}

/// The error of an op that found the slot named `slot` empty.
pub fn missing_state(slot: &str) -> (e: OpError)
    ensures
        e.is(ErrorClass::Error, missing_message(slot@)),
{
    custom_error(ErrorClass::Error, message_with("Missing state: ", slot).as_str())
}

/// Whether two states differ at most in their resource tables.
pub open spec fn same_but_table(before: OpState, after: OpState) -> bool {
    &&& after.permissions == before.permissions
    &&& after.location_data_dir == before.location_data_dir
    &&& after.seeded_rng == before.seeded_rng
    &&& after.gpu_instance == before.gpu_instance
    &&& after.unstable == before.unstable
    &&& after.metrics == before.metrics
}

/// Whether two states differ at most in the resources they hold, and will
/// give the same id to the next resource.
pub open spec fn same_slots(before: OpState, after: OpState) -> bool {
    &&& same_but_table(before, after)
    &&& after.resource_table.next_rid() == before.resource_table.next_rid()
}

/// Whether two states hold the same resources under the same ids, and the
/// same singletons.
pub open spec fn unchanged(before: OpState, after: OpState) -> bool {
    same_slots(before, after) && after.resource_table@ == before.resource_table@
}

/// Whether two states differ at most in the borrow state of the resource
/// `rid`.
pub open spec fn touched(before: OpState, after: OpState, rid: ResourceId) -> bool {
    &&& same_slots(before, after)
    &&& after.resource_table@.dom() == before.resource_table@.dom()
    &&& forall|other: ResourceId|
        other != rid && #[trigger] before.resource_table@.contains_key(other)
            ==> after.resource_table@[other] == before.resource_table@[other]
    &&& before.resource_table@.contains_key(rid) ==> after.resource_table@[rid].same_but_cell(
        before.resource_table@[rid],
    )
}

/// Why a fail-fast borrow did not succeed.
#[derive(Clone, Copy, Debug, PartialEq, Eq, Structural)]
pub enum BorrowError {
    /// No resource of the asked type is registered under the id.
    NotFound,
    /// Somebody else holds the borrow.
    Busy,
}

/// What a fail-fast borrow of the resource `rid` of type `kind` by `who`
/// does: it takes the borrow of a free resource and returns its handle;
/// it changes nothing if the resource is missing or borrowed.
pub open spec fn try_borrow_post(
    before: OpState,
    rid: ResourceId,
    kind: ResourceKind,
    who: BorrowerId,
    after: OpState,
    r: Result<u64, BorrowError>,
) -> bool {
    match spec_get(before.resource_table@, rid, kind) {
        None => unchanged(before, after) && r == Err::<u64, BorrowError>(BorrowError::NotFound),
        Some(resource) => if resource.cell.spec_is_borrowed() {
            unchanged(before, after) && r == Err::<u64, BorrowError>(BorrowError::Busy)
        } else {
            &&& touched(before, after, rid)
            &&& after.resource_table@[rid].cell.holder() == Some(who)
            &&& after.resource_table@[rid].cell.waiters() == resource.cell.waiters()
            &&& r == Ok::<u64, BorrowError>(resource.handle)
        },
    }
}

/// A fail-fast borrow of a resource that somebody holds is refused as
/// busy and leaves no trace: nobody is queued, so nobody waits.
pub proof fn lemma_busy_leaves_no_trace(
    before: OpState,
    rid: ResourceId,
    kind: ResourceKind,
    who: BorrowerId,
    after: OpState,
    r: Result<u64, BorrowError>,
)
    requires
        try_borrow_post(before, rid, kind, who, after, r),
        spec_get(before.resource_table@, rid, kind) matches Some(resource)
            && resource.cell.spec_is_borrowed(),
    ensures
        r == Err::<u64, BorrowError>(BorrowError::Busy),
        unchanged(before, after),
        after.resource_table@[rid].cell.waiters() == before.resource_table@[rid].cell.waiters(),
{
}

/// What a suspending borrow of the resource `rid` of type `kind` by `who`
/// does: it takes the borrow of a free resource, or puts `who` at the back
/// of the queue of a borrowed one, and returns the handle either way; it
/// changes nothing if the resource is missing.
pub open spec fn borrow_post(
    before: OpState,
    rid: ResourceId,
    kind: ResourceKind,
    who: BorrowerId,
    after: OpState,
    r: Option<(u64, Acquire)>,
) -> bool {
    match spec_get(before.resource_table@, rid, kind) {
        None => unchanged(before, after) && r is None,
        Some(resource) => {
            &&& touched(before, after, rid)
            &&& r == Some((
                resource.handle,
                if resource.cell.spec_is_borrowed() {
                    Acquire::Queued
                } else {
                    Acquire::Acquired
                },
            ))
            &&& if resource.cell.spec_is_borrowed() {
                &&& after.resource_table@[rid].cell.holder() == resource.cell.holder()
                &&& after.resource_table@[rid].cell.waiters() == resource.cell.waiters().push(who)
            } else {
                &&& after.resource_table@[rid].cell.holder() == Some(who)
                &&& after.resource_table@[rid].cell.waiters() == resource.cell.waiters()
            }
        },
    }
}

/// What the end of the borrow that `who` holds on the resource `rid` of
/// type `kind` does: the resource goes to the caller that has waited
/// longest, who is returned, or is free if nobody waits. Nothing changes
/// if the resource is gone or `who` does not hold it.
pub open spec fn release_post(
    before: OpState,
    rid: ResourceId,
    kind: ResourceKind,
    who: BorrowerId,
    after: OpState,
    woken: Option<BorrowerId>,
) -> bool {
    match spec_get(before.resource_table@, rid, kind) {
        None => unchanged(before, after) && woken is None,
        Some(resource) => if resource.cell.holder() != Some(who) {
            unchanged(before, after) && woken is None
        } else {
            &&& touched(before, after, rid)
            &&& after.resource_table@[rid].cell.holder() == woken
            &&& if resource.cell.waiters().len() == 0 {
                &&& woken is None
                &&& after.resource_table@[rid].cell.waiters() == resource.cell.waiters()
            } else {
                &&& woken == Some(resource.cell.waiters()[0])
                &&& after.resource_table@[rid].cell.waiters() == resource.cell.waiters().subrange(
                    1,
                    resource.cell.waiters().len() as int,
                )
            }
        },
    }
}

/// The message for a table that has given out every id.
pub open spec fn table_full_message() -> Seq<char> {
    "Resource table is full"@
}

/// What registering `resource` does: it is stored under the next id, which
/// is returned; a table that has given out every id stays as it is.
pub open spec fn add_post(before: OpState, resource: Resource, after: OpState, r: Result<ResourceId, OpError>) -> bool {
    &&& r is Ok <==> before.resource_table.has_room()
    &&& r matches Ok(rid) ==> {
        &&& rid == before.resource_table.next_rid()
        &&& !before.resource_table@.contains_key(rid)
        &&& after.resource_table@ == before.resource_table@.insert(rid, resource)
        &&& after.resource_table.next_rid() == rid + 1
        &&& same_but_table(before, after)
    }
    &&& r is Err ==> after == before && fails_with(r, ErrorClass::Error, table_full_message())
}

impl OpState {
    pub open spec fn wf(&self) -> bool {
        self.resource_table.wf()
    }

    /// A state with an empty resource table and every slot empty.
    pub fn new() -> (s: OpState)
        ensures
            s.wf(),
            s.resource_table@ =~= Map::empty(),
            s.resource_table.next_rid() == 0,
            s.permissions is None,
            s.location_data_dir is None,
            s.seeded_rng is None,
            s.gpu_instance is None,
            !s.unstable,
            s.metrics == (OpMetrics { ops_dispatched: 0, ops_completed: 0 }),
    {
        OpState {
            resource_table: ResourceTable::new(),
            permissions: None,
            location_data_dir: None,
            seeded_rng: None,
            gpu_instance: None,
            unstable: false,
            metrics: OpMetrics { ops_dispatched: 0, ops_completed: 0 },
        }
    }

    /// The session's permissions, or an error if none were set.
    pub fn borrow_permissions(&self) -> (r: Result<Permissions, OpError>)
        ensures
            r is Ok <==> self.permissions is Some,
            r matches Ok(p) ==> Some(p) == self.permissions,
            r matches Err(e) ==> e.is(ErrorClass::Error, missing_message("Permissions"@)),
    {
        match self.permissions {
            Some(p) => Ok(p),
            None => Err(missing_state("Permissions")),
        }
    }

    /// Refuses a call into the unstable interface `api_name` unless
    /// unstable interfaces are switched on.
    pub fn check_unstable(&self, api_name: &str) -> (r: Result<(), OpError>)
        ensures
            r is Ok <==> self.unstable,
            r matches Err(e) ==> e.is(ErrorClass::NotSupported, unstable_message(api_name@)),
    {
        if self.unstable {
            Ok(())
        } else {
            let message = message_with("Unstable API '", api_name).concat(
                "'. The --unstable flag must be provided.",
            );
            Err(custom_error(ErrorClass::NotSupported, message.as_str()))
        }
    }

    /// Registers `resource`, if the table has an id left.
    pub fn add_resource(&mut self, resource: Resource) -> (r: Result<ResourceId, OpError>)
        requires
            old(self).wf(),
            resource.wf(),
        ensures
            final(self).wf(),
            add_post(*old(self), resource, *final(self), r),
    {
        if self.resource_table.is_full() {
            Err(generic_error("Resource table is full"))
        } else {
            Ok(self.resource_table.add(resource))
        }
    }

    /// Takes the borrow of a resource for `who`, or fails at once.
    pub fn try_borrow_resource(&mut self, rid: ResourceId, kind: ResourceKind, who: BorrowerId) -> (r:
        Result<u64, BorrowError>)
        requires
            old(self).wf(),
        ensures
            final(self).wf(),
            try_borrow_post(*old(self), rid, kind, who, *final(self), r),
    {
        proof {
            if self.resource_table@.contains_key(rid) {
                self.resource_table.lemma_live(rid);
            }
        }
        let resource = match self.resource_table.get_mut(rid, kind) {
            Ok(resource) => resource,
            Err(_) => {
                return Err(BorrowError::NotFound);
            },
        };
        match resource.cell.try_borrow_mut(who) {
            Ok(()) => {
                let handle = resource.handle;
                proof {
                    assert(self.resource_table@.dom() =~= old(self).resource_table@.dom());
                }
                Ok(handle)
            },
            Err(_) => {
                proof {
                    assert(self.resource_table@ =~= old(self).resource_table@);
                }
                Err(BorrowError::Busy)
            },
        }
    }

    /// Takes the borrow of a resource for `who`, or queues `who` for it.
    pub fn borrow_resource(&mut self, rid: ResourceId, kind: ResourceKind, who: BorrowerId) -> (r:
        Option<(u64, Acquire)>)
        requires
            old(self).wf(),
        ensures
            final(self).wf(),
            borrow_post(*old(self), rid, kind, who, *final(self), r),
    {
        proof {
            if self.resource_table@.contains_key(rid) {
                self.resource_table.lemma_live(rid);
            }
        }
        let resource = match self.resource_table.get_mut(rid, kind) {
            Ok(resource) => resource,
            Err(_) => {
                return None;
            },
        };
        let acquire = resource.cell.borrow_mut(who);
        let handle = resource.handle;
        proof {
            assert(self.resource_table@.dom() =~= old(self).resource_table@.dom());
        }
        Some((handle, acquire))
    }

    /// Ends the borrow that `who` holds on a resource.
    pub fn release_resource(&mut self, rid: ResourceId, kind: ResourceKind, who: BorrowerId) -> (woken:
        Option<BorrowerId>)
        requires
            old(self).wf(),
        ensures
            final(self).wf(),
            release_post(*old(self), rid, kind, who, *final(self), woken),
    {
        proof {
            if self.resource_table@.contains_key(rid) {
                self.resource_table.lemma_live(rid);
            }
        }
        let resource = match self.resource_table.get_mut(rid, kind) {
            Ok(resource) => resource,
            Err(_) => {
                return None;
            },
        };
        if !resource.cell.is_held_by(who) {
            proof {
                assert(self.resource_table@ =~= old(self).resource_table@);
            }
            return None;
        }
        let woken = resource.cell.release(who);
        proof {
            assert(self.resource_table@.dom() =~= old(self).resource_table@.dom());
        }
        woken
    }
}

} // verus!