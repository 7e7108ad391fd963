//! Long-lived native handles, owned by a table and addressed by id.

use vstd::prelude::*;
use crate::async_cell::AsyncRefCell;
use crate::cancel::CancelHandle;
use crate::crypto::WebCryptoHash;
use crate::error::{bad_resource_id, OpError, ErrorClass};

verus! {

/// The opaque number under which a resource is registered.
pub type ResourceId = u32;

/// The closed set of resource types. A lookup names the type it expects.
#[derive(Clone, Copy, Debug, PartialEq, Eq, Structural)]
pub enum ResourceKind {
    TcpListener,
    TcpStream,
    UnixListener,
    UnixStream,
    UdpSocket,
    UnixDatagram,
    Child,
    ChildStdin,
    ChildStdout,
    ChildStderr,
    SignalStream,
    Plugin,
    WebGpuInstance,
    WebGpuAdapter,
    WebGpuDevice,
    WebGpuSampler,
    WebGpuSwapChain,
    RsaPublicKey,
    RsaPrivateKey,
    EcdsaKey,
    EcdhPublicKey,
    EcdhPrivateKey,
    HmacKey,
    WebStorage,
}

impl ResourceKind {
    pub open spec fn spec_name(self) -> Seq<char> {
        match self {
            ResourceKind::TcpListener => "tcpListener"@,
            ResourceKind::TcpStream => "tcpStream"@,
            ResourceKind::UnixListener => "unixListener"@,
            ResourceKind::UnixStream => "unixStream"@,
            ResourceKind::UdpSocket => "udpSocket"@,
            ResourceKind::UnixDatagram => "unixDatagram"@,
            ResourceKind::Child => "child"@,
            ResourceKind::ChildStdin => "childStdin"@,
            ResourceKind::ChildStdout => "childStdout"@,
            ResourceKind::ChildStderr => "childStderr"@,
            ResourceKind::SignalStream => "signal"@,
            ResourceKind::Plugin => "plugin"@,
            ResourceKind::WebGpuInstance => "webGPUInstance"@,
            ResourceKind::WebGpuAdapter => "webGPUAdapter"@,
            ResourceKind::WebGpuDevice => "webGPUDevice"@,
            ResourceKind::WebGpuSampler => "webGPUSampler"@,
            ResourceKind::WebGpuSwapChain => "webGPUSwapChain"@,
            ResourceKind::RsaPublicKey => "RSAPublicCryptoKey"@,
            ResourceKind::RsaPrivateKey => "RSAPrivateCryptoKey"@,
            ResourceKind::EcdsaKey => "ECDSACryptoKey"@,
            ResourceKind::EcdhPublicKey => "ECDHPublicKey"@,
            ResourceKind::EcdhPrivateKey => "ECDHPrivateKey"@,
            ResourceKind::HmacKey => "HMACKey"@,
            ResourceKind::WebStorage => "webStorage"@,
        }
    }

    /// The name under which resources of this type are listed.
    pub fn name(&self) -> (s: &'static str)
        ensures
            s@ == self.spec_name(),
    {
        match self {
            ResourceKind::TcpListener => "tcpListener",
            ResourceKind::TcpStream => "tcpStream",
            ResourceKind::UnixListener => "unixListener",
            ResourceKind::UnixStream => "unixStream",
            ResourceKind::UdpSocket => "udpSocket",
            ResourceKind::UnixDatagram => "unixDatagram",
            ResourceKind::Child => "child",
            ResourceKind::ChildStdin => "childStdin",
            ResourceKind::ChildStdout => "childStdout",
            ResourceKind::ChildStderr => "childStderr",
            ResourceKind::SignalStream => "signal",
            ResourceKind::Plugin => "plugin",
            ResourceKind::WebGpuInstance => "webGPUInstance",
            ResourceKind::WebGpuAdapter => "webGPUAdapter",
            ResourceKind::WebGpuDevice => "webGPUDevice",
            ResourceKind::WebGpuSampler => "webGPUSampler",
            ResourceKind::WebGpuSwapChain => "webGPUSwapChain",
            ResourceKind::RsaPublicKey => "RSAPublicCryptoKey",
            ResourceKind::RsaPrivateKey => "RSAPrivateCryptoKey",
            ResourceKind::EcdsaKey => "ECDSACryptoKey",
            ResourceKind::EcdhPublicKey => "ECDHPublicKey",
            ResourceKind::EcdhPrivateKey => "ECDHPrivateKey",
            ResourceKind::HmacKey => "HMACKey",
            ResourceKind::WebStorage => "webStorage",
        }
    }
}

/// One native object as the runtime sees it: its type, the embedder's
/// handle for it, its borrow state, and what it needs to be closed safely.
#[derive(Debug)]
pub struct Resource {
    pub kind: ResourceKind,
    /// The embedder's name for the native object.
    pub handle: u64,
    /// Who holds it exclusively, and who waits.
    pub cell: AsyncRefCell,
    /// Present on resources that support a long-lived suspended wait.
    pub cancel: Option<CancelHandle>,
    /// The loaded native module that created this resource, if one did.
    /// The resource holds a share of it for as long as it lives.
    pub keep_alive: Option<u64>,
    /// The hash that a cryptographic key was generated for, if it was
    /// generated for one.
    pub key_hash: Option<WebCryptoHash>,
}

impl Resource {
    pub open spec fn wf(&self) -> bool {
        self.cell.wf()
    }

    /// Whether this is a resource of type `kind` for the native object
    /// `handle` that nobody borrows or waits for, that has no cancel handle
    /// and that no native module created.
    pub open spec fn is_free(&self, kind: ResourceKind, handle: u64) -> bool {
        &&& self.wf()
        &&& self.kind == kind
        &&& self.handle == handle
        &&& self.cell.holder() is None
        &&& self.cell.waiters() =~= Seq::empty()
        &&& self.cancel is None
        &&& self.keep_alive is None
        &&& self.key_hash is None
    }

    /// Whether two resources differ at most in their borrow state.
    pub open spec fn same_but_cell(&self, before: Resource) -> bool {
        &&& self.kind == before.kind
        &&& self.handle == before.handle
        &&& self.cancel == before.cancel
        &&& self.keep_alive == before.keep_alive
        &&& self.key_hash == before.key_hash
    }

    /// What the close hook leaves of a resource: the same resource, its
    /// cancel handle triggered if it has one.
    pub open spec fn closed_from(&self, before: Resource) -> bool {
        &&& self.kind == before.kind
        &&& self.handle == before.handle
        &&& self.cell == before.cell
        &&& self.keep_alive == before.keep_alive
        &&& self.key_hash == before.key_hash
        &&& self.cancel is Some <==> before.cancel is Some
        &&& self.cancel is Some ==> self.cancel->0.spec_is_canceled()
    }

    /// A free resource without a cancel handle.
    pub fn new(kind: ResourceKind, handle: u64) -> (r: Resource)
        ensures
            r.is_free(kind, handle),
    {
        Resource {
            kind,
            handle,
            cell: AsyncRefCell::new(),
            cancel: None,
            keep_alive: None,
            key_hash: None,
        }
    }

    /// A free resource with a cancel handle that has not been triggered.
    pub fn cancellable(kind: ResourceKind, handle: u64) -> (r: Resource)
        ensures
            r.wf(),
            r.kind == kind,
            r.handle == handle,
            r.cell.holder() is None,
            r.cell.waiters() =~= Seq::empty(),
            r.cancel is Some && !r.cancel->0.spec_is_canceled(),
            r.keep_alive is None,
            r.key_hash is None,
    {
        Resource {
            kind,
            handle,
            cell: AsyncRefCell::new(),
            cancel: Some(CancelHandle::new()),
            keep_alive: None,
            key_hash: None,
        }
    }

    /// The name under which the resource is listed.
    pub fn name(&self) -> (s: &'static str)
        ensures
            s@ == self.kind.spec_name(),
    {
        self.kind.name()
    }

    /// Whether the resource was closed while somebody could still see it.
    pub fn is_cancelled(&self) -> (b: bool)
        ensures
            b == (self.cancel is Some && self.cancel->0.spec_is_canceled()),
    {
        match &self.cancel {
            Some(c) => c.is_canceled(),
            None => false,
        }
    }

    /// The close hook: triggers the cancel handle, if there is one.
    pub fn close(&mut self)
        ensures
            final(self).closed_from(*old(self)),
    {
        match self.cancel {
            Some(c) => {
                let mut c = c;
                c.cancel();
                self.cancel = Some(c);
            },
            None => {},
        }
    }
}

struct Entry {
    rid: ResourceId,
    resource: Resource,
}

/// The registry of live resources. It owns them; everybody else names them
/// by id.
pub struct ResourceTable {
    index: Vec<Entry>,
    next_rid: ResourceId,
}

/// What a lookup by id and type finds in `m`.
pub open spec fn spec_get(m: Map<ResourceId, Resource>, rid: ResourceId, kind: ResourceKind) -> Option<Resource> {
    if m.contains_key(rid) && m[rid].kind == kind {
        Some(m[rid])
    } else {
        None
    }
}

impl View for ResourceTable {
    type V = Map<ResourceId, Resource>;

    /// The live resources by id.
    closed spec fn view(&self) -> Map<ResourceId, Resource> {
        Map::new(
            |rid: ResourceId| self.spec_position(rid) is Some,
            |rid: ResourceId| self.index@[self.spec_position(rid)->0].resource,
        )
    }
}

impl ResourceTable {
    spec fn spec_position(&self, rid: ResourceId) -> Option<int> {
        if exists|i: int| 0 <= i < self.index@.len() && self.index@[i].rid == rid {
            Some(choose|i: int| 0 <= i < self.index@.len() && self.index@[i].rid == rid)
        } else {
            None
        }
    }

    /// The id that the next resource will get.
    pub closed spec fn next_rid(&self) -> ResourceId {
        self.next_rid
    }

    /// Ids grow along the index and stay below the next id, and every
    /// resource is well formed.
    pub closed spec fn wf(&self) -> bool {
        &&& forall|i: int, j: int|
            0 <= i < j < self.index@.len() ==> self.index@[i].rid < self.index@[j].rid
        &&& forall|i: int| 0 <= i < self.index@.len() ==> self.index@[i].rid < self.next_rid
        &&& forall|i: int| 0 <= i < self.index@.len() ==> self.index@[i].resource.wf()
    }

    /// Whether another resource can be registered.
    pub open spec fn has_room(&self) -> bool {
        self.next_rid() < u32::MAX
    }

    proof fn lemma_position(&self, i: int)
        requires
            self.wf(),
            0 <= i < self.index@.len(),
        ensures
            self.spec_position(self.index@[i].rid) == Some(i),
            self@.contains_key(self.index@[i].rid),
            self@[self.index@[i].rid] == self.index@[i].resource,
    {
        let rid = self.index@[i].rid;
        let j = choose|j: int| 0 <= j < self.index@.len() && self.index@[j].rid == rid;
        assert(j == i) by {
            if j < i {
                assert(self.index@[j].rid < self.index@[i].rid);
            }
            if i < j {
                assert(self.index@[i].rid < self.index@[j].rid);
            }
        }
    }

    /// Every live id lies below the next id, and every live resource is
    /// well formed.
    pub proof fn lemma_live(&self, rid: ResourceId)
        requires
            self.wf(),
            self@.contains_key(rid),
        ensures
            rid < self.next_rid(),
            self@[rid].wf(),
    {
        let i = self.spec_position(rid)->0;
        self.lemma_position(i);
    }

    /// An empty table. The first id it gives out is 0.
    pub fn new() -> (t: ResourceTable)
        ensures
            t.wf(),
            t@ =~= Map::empty(),
            t.next_rid() == 0,
    {
        ResourceTable { index: Vec::new(), next_rid: 0 }
    }

    fn position(&self, rid: ResourceId) -> (r: Option<usize>)
        requires
            self.wf(),
        ensures
            r is Some <==> self@.contains_key(rid),
            r matches Some(i) ==> i < self.index@.len() && self.index@[i as int].rid == rid
                && self.spec_position(rid) == Some(i as int),
    {
        let mut i: usize = 0;
        while i < self.index.len()
            invariant
                self.wf(),
                i <= self.index@.len(),
                forall|j: int| 0 <= j < i ==> self.index@[j].rid != rid,
            decreases self.index@.len() - i,
        {
            if self.index[i].rid == rid {
                proof {
                    self.lemma_position(i as int);
                }
                return Some(i);
            }
            i += 1;
        }
        None
    }

    /// The id that the next resource will get.
    pub fn next(&self) -> (rid: ResourceId)
        ensures
            rid == self.next_rid(),
    {
        self.next_rid
    }

    /// Whether every id has been given out.
    pub fn is_full(&self) -> (b: bool)
        ensures
            b == !self.has_room(),
    {
        self.next_rid == u32::MAX
    }

    /// Whether a resource is registered under `rid`.
    pub fn has(&self, rid: ResourceId) -> (b: bool)
        requires
            self.wf(),
        ensures
            b == self@.contains_key(rid),
    {
        self.position(rid).is_some()
    }

    /// How many resources are registered.
    pub fn len(&self) -> (n: usize)
        requires
            self.wf(),
        ensures
            n == self@.dom().len(),
            self@.dom().finite(),
    {
        proof {
            self.lemma_dom();
        }
        self.index.len()
    }

    proof fn lemma_dom(&self)
        requires
            self.wf(),
        ensures
            self@.dom().finite(),
            self@.dom().len() == self.index@.len(),
        decreases self.index@.len(),
    {
        let rids = self.index@.map_values(|e: Entry| e.rid);
        assert(rids.no_duplicates()) by {
            assert forall|i: int, j: int| 0 <= i < rids.len() && 0 <= j < rids.len() && i != j implies rids[i] != rids[j] by {
                if i < j {
                    assert(self.index@[i].rid < self.index@[j].rid);
                } else {
                    assert(self.index@[j].rid < self.index@[i].rid);
                }
            }
        }
        assert(rids.to_set() =~= self@.dom()) by {
            assert forall|rid: ResourceId| rids.to_set().contains(rid) <==> self@.dom().contains(rid) by {
                if rids.to_set().contains(rid) {
                    let i = choose|i: int| 0 <= i < rids.len() && rids[i] == rid;
                    self.lemma_position(i);
                }
                if self@.dom().contains(rid) {
                    let i = self.spec_position(rid)->0;
                    assert(rids[i] == rid);
                }
            }
        }
        rids.unique_seq_to_set();
    }

    /// Registers `resource` under an id that no live resource has, and
    /// returns the id.
    pub fn add(&mut self, resource: Resource) -> (rid: ResourceId)
        requires
            old(self).wf(),
            old(self).has_room(),
            resource.wf(),
        ensures
            final(self).wf(),
            rid == old(self).next_rid(),
            !old(self)@.contains_key(rid),
            final(self)@ == old(self)@.insert(rid, resource),
            final(self).next_rid() == rid + 1,
    {
        let rid = self.next_rid;
        proof {
            if old(self)@.contains_key(rid) {
                old(self).lemma_live(rid);
            }
        }
        self.next_rid = rid + 1;
        self.index.push(Entry { rid, resource });
        proof {
            let n = old(self).index@.len() as int;
            assert(self.index@[n].rid == rid);
            assert(self.wf());
            assert forall|k: ResourceId| #[trigger] self@.contains_key(k) <==> (k == rid || old(self)@.contains_key(k)) by {
                if k == rid {
                    self.lemma_position(n);
                } else {
                    if old(self)@.contains_key(k) {
                        let i = old(self).spec_position(k)->0;
                        assert(self.index@[i].rid == k);
                    }
                    if self@.contains_key(k) {
                        let i = self.spec_position(k)->0;
                        assert(old(self).index@[i].rid == k);
                    }
                }
            }
            assert forall|k: ResourceId| #[trigger] self@.contains_key(k) implies self@[k] == old(self)@.insert(rid, resource)[k] by {
                if k == rid {
                    self.lemma_position(n);
                } else {
                    let i = old(self).spec_position(k)->0;
                    old(self).lemma_position(i);
                    self.lemma_position(i);
                }
            }
            assert(self@ =~= old(self)@.insert(rid, resource));
        }
        rid
    }

    /// The resource registered under `rid`, if it is of type `kind`.
    /// An unknown id and a resource of another type give the same error.
    pub fn get(&self, rid: ResourceId, kind: ResourceKind) -> (r: Result<&Resource, OpError>)
        requires
            self.wf(),
        ensures
            r is Ok <==> spec_get(self@, rid, kind) is Some,
            r matches Ok(res) ==> Some(*res) == spec_get(self@, rid, kind),
            r matches Err(e) ==> e.is(ErrorClass::BadResource, "Bad resource ID"@),
    {
        match self.position(rid) {
            Some(i) => {
                proof {
                    self.lemma_position(i as int);
                }
                if self.index[i].resource.kind == kind {
                    Ok(&self.index[i].resource)
                } else {
                    Err(bad_resource_id())
                }
            },
            None => Err(bad_resource_id()),
        }
    }

    broadcast proof fn lemma_replaced(
        before: &ResourceTable,
        after: &ResourceTable,
        rid: ResourceId,
        resource: Resource,
    )
        requires
            before.wf(),
            before.spec_position(rid) is Some,
            after.next_rid == before.next_rid,
            after.index@ == before.index@.update(
                before.spec_position(rid)->0,
                Entry { rid, resource },
            ),
        ensures
            #![trigger after@, before@.insert(rid, resource)]
            after@ == before@.insert(rid, resource),
            resource.wf() ==> after.wf(),
    {
        let i = before.spec_position(rid)->0;
        assert forall|a: int, b: int| 0 <= a < b < after.index@.len() implies after.index@[a].rid
            < after.index@[b].rid by {
            assert(before.index@[a].rid < before.index@[b].rid);
        }
        assert forall|k: ResourceId| #[trigger] after@.contains_key(k) <==> before@.contains_key(k) by {
            if before@.contains_key(k) {
                let j = before.spec_position(k)->0;
                assert(after.index@[j].rid == k);
            }
            if after@.contains_key(k) {
                let j = after.spec_position(k)->0;
                assert(before.index@[j].rid == k);
            }
        }
        before.lemma_position(i);
        if resource.wf() {
            assert(after.wf());
        }
        assert forall|k: ResourceId| #[trigger] after@.contains_key(k) implies after@[k] == before@.insert(
            rid,
            resource,
        )[k] by {
            let j = before.spec_position(k)->0;
            before.lemma_position(j);
            let j2 = after.spec_position(k)->0;
            assert(after.index@[j2].rid == k);
            assert(before.index@[j2].rid == k);
            before.lemma_position(j2);
            assert(j2 == j);
        }
        assert(after@ =~= before@.insert(rid, resource));
    }

    /// Exclusive access to the resource registered under `rid`, if it is of
    /// type `kind`. What the caller leaves behind the reference is what the
    /// table then holds under `rid`.
    pub fn get_mut(&mut self, rid: ResourceId, kind: ResourceKind) -> (r: Result<
        &mut Resource,
        OpError,
    >)
        requires
            old(self).wf(),
        ensures
            r is Ok <==> spec_get(old(self)@, rid, kind) is Some,
            r matches Ok(res) ==> Some(*res) == spec_get(old(self)@, rid, kind) && final(self)@
                == old(self)@.insert(rid, *final(res)) && final(self).next_rid() == old(
                self,
            ).next_rid() && (final(res).wf() ==> final(self).wf()),
            r matches Err(e) ==> e.is(ErrorClass::BadResource, "Bad resource ID"@) && *final(self)
                == *old(self),
    {
        match self.position(rid) {
            Some(i) => {
                proof {
                    self.lemma_position(i as int);
                }
                if self.index[i].resource.kind == kind {
                    broadcast use ResourceTable::lemma_replaced;
                    Ok(&mut self.index[i].resource)
                } else {
                    Err(bad_resource_id())
                }
            },
            None => Err(bad_resource_id()),
        }
    }

    fn remove_at(&mut self, i: usize) -> (resource: Resource)
        requires
            old(self).wf(),
            i < old(self).index@.len(),
        ensures
            final(self).wf(),
            resource == old(self)@[old(self).index@[i as int].rid],
            final(self)@ == old(self)@.remove(old(self).index@[i as int].rid),
            final(self).next_rid() == old(self).next_rid(),
    {
        let entry = self.index.remove(i);
        proof {
            let rid = entry.rid;
            let before = old(self);
            before.lemma_position(i as int);
            assert forall|a: int, b: int| 0 <= a < b < self.index@.len() implies self.index@[a].rid
                < self.index@[b].rid by {
                let a0 = if a < i { a } else { a + 1 };
                let b0 = if b < i { b } else { b + 1 };
                assert(before.index@[a0].rid < before.index@[b0].rid);
            }
            assert(self.wf());
            assert forall|k: ResourceId| #[trigger] self@.contains_key(k) <==> (k != rid && before@.contains_key(k)) by {
                if k != rid && before@.contains_key(k) {
                    let j = before.spec_position(k)->0;
                    let j1 = if j < i { j } else { j - 1 };
                    assert(self.index@[j1].rid == k);
                }
                if self@.contains_key(k) {
                    let j = self.spec_position(k)->0;
                    let j0 = if j < i { j } else { j + 1 };
                    assert(before.index@[j0].rid == k);
                    if j0 < i {
                        assert(before.index@[j0].rid < before.index@[i as int].rid);
                    } else {
                        assert(before.index@[i as int].rid < before.index@[j0].rid);
                    }
                }
            }
            assert forall|k: ResourceId| #[trigger] self@.contains_key(k) implies self@[k] == before@.remove(
                rid,
            )[k] by {
                let j = self.spec_position(k)->0;
                self.lemma_position(j);
                let j0 = if j < i { j } else { j + 1 };
                before.lemma_position(j0);
            }
            assert(self@ =~= before@.remove(rid));
        }
        entry.resource
    }

    /// Removes the resource registered under `rid`, if it is of type
    /// `kind`, and hands it to the caller without closing it.
    pub fn take(&mut self, rid: ResourceId, kind: ResourceKind) -> (r: Result<Resource, OpError>)
        requires
            old(self).wf(),
        ensures
            final(self).wf(),
            final(self).next_rid() == old(self).next_rid(),
            r is Ok <==> spec_get(old(self)@, rid, kind) is Some,
            r matches Ok(res) ==> Some(res) == spec_get(old(self)@, rid, kind) && final(self)@
                == old(self)@.remove(rid),
            r matches Err(e) ==> e.is(ErrorClass::BadResource, "Bad resource ID"@) && final(self)@
                == old(self)@,
    {
        match self.position(rid) {
            Some(i) => {
                proof {
                    self.lemma_position(i as int);
                }
                if self.index[i].resource.kind == kind {
                    Ok(self.remove_at(i))
                } else {
                    Err(bad_resource_id())
                }
            },
            None => Err(bad_resource_id()),
        }
    }

    /// Removes the resource registered under `rid`, runs its close hook,
    /// and returns what is left of it. An id that is not registered is an
    /// error, and the table stays as it was.
    pub fn close(&mut self, rid: ResourceId) -> (r: Result<Resource, OpError>)
        requires
            old(self).wf(),
        ensures
            final(self).wf(),
            final(self).next_rid() == old(self).next_rid(),
            final(self)@ == old(self)@.remove(rid),
            r is Ok <==> old(self)@.contains_key(rid),
            r matches Ok(res) ==> res.closed_from(old(self)@[rid]),
            r matches Err(e) ==> e.is(ErrorClass::BadResource, "Bad resource ID"@),
    {
        match self.position(rid) {
            Some(i) => {
                let mut resource = self.remove_at(i);
                resource.close();
                Ok(resource)
            },
            None => {
                proof {
                    assert(self@ =~= self@.remove(rid));
                }
                Err(bad_resource_id())
            },
        }
    }

    /// Whether some live resource holds a share of the native module
    /// `lib`. A module that is still held must not be unloaded.
    pub fn holds_share(&self, lib: u64) -> (b: bool)
        requires
            self.wf(),
        ensures
            b == exists|rid: ResourceId| #[trigger]
                self@.contains_key(rid) && self@[rid].keep_alive == Some(lib),
    {
        let mut i: usize = 0;
        while i < self.index.len()
            invariant
                self.wf(),
                i <= self.index@.len(),
                forall|j: int| 0 <= j < i ==> self.index@[j].resource.keep_alive != Some(lib),
            decreases self.index@.len() - i,
        {
            match self.index[i].resource.keep_alive {
                Some(held) => {
                    if held == lib {
                        proof {
                            self.lemma_position(i as int);
                            assert(self@.contains_key(self.index@[i as int].rid));
                        }
                        return true;
                    }
                },
                None => {},
            }
            i += 1;
        }
        proof {
            assert forall|rid: ResourceId| #[trigger]
                self@.contains_key(rid) implies self@[rid].keep_alive != Some(lib) by {
                let j = self.spec_position(rid)->0;
                self.lemma_position(j);
            }
        }
        false
    }

    /// The ids of the live resources with their names, by growing id.
    pub fn entries(&self) -> (list: Vec<(ResourceId, String)>)
        requires
            self.wf(),
        ensures
            list@.len() == self@.dom().len(),
            forall|i: int, j: int| 0 <= i < j < list@.len() ==> list@[i].0 < list@[j].0,
            forall|i: int|
                0 <= i < list@.len() ==> self@.contains_key(#[trigger] list@[i].0) && list@[i].1@
                    == self@[list@[i].0].kind.spec_name(),
            forall|rid: ResourceId|
                self@.contains_key(rid) ==> exists|i: int|
                    0 <= i < list@.len() && #[trigger] list@[i].0 == rid,
    {
        proof {
            self.lemma_dom();
        }
        let mut list: Vec<(ResourceId, String)> = Vec::new();
        let mut i: usize = 0;
        while i < self.index.len()
            invariant
                self.wf(),
                i <= self.index@.len(),
                list@.len() == i,
                forall|j: int| 0 <= j < i ==> #[trigger] list@[j].0 == self.index@[j].rid,
                forall|j: int|
                    0 <= j < i ==> #[trigger] list@[j].1@
                        == self.index@[j].resource.kind.spec_name(),
            decreases self.index@.len() - i,
        {
            let name = String::from_str(self.index[i].resource.name());
            list.push((self.index[i].rid, name));
            i += 1;
        }
        proof {
            assert forall|a: int, b: int| 0 <= a < b < list@.len() implies list@[a].0 < list@[b].0 by {
                assert(self.index@[a].rid < self.index@[b].rid);
            }
            assert forall|j: int| 0 <= j < list@.len() implies self@.contains_key(
                #[trigger] list@[j].0,
            ) && list@[j].1@ == self@[list@[j].0].kind.spec_name() by {
                self.lemma_position(j);
            }
            assert forall|rid: ResourceId| self@.contains_key(rid) implies exists|i: int|
                0 <= i < list@.len() && #[trigger] list@[i].0 == rid by {
                let i = self.spec_position(rid)->0;
                assert(list@[i].0 == rid);
            }
        }
        list
    }
}

/// After a resource is closed, no lookup finds it, whatever type is asked
/// for.
pub proof fn lemma_get_after_close(before: ResourceTable, after: ResourceTable, rid: ResourceId, kind: ResourceKind)
    requires
        after@ == before@.remove(rid),
    ensures
        spec_get(after@, rid, kind) is None,
{
}

/// Registering a resource never disturbs a live one: the new id was free,
/// and every resource that was live is still found under its own id.
pub proof fn lemma_add_keeps_ids_apart(
    before: ResourceTable,
    after: ResourceTable,
    resource: Resource,
    other: ResourceId,
)
    requires
        before.wf(),
        after@ == before@.insert(before.next_rid(), resource),
        before@.contains_key(other),
    ensures
        other != before.next_rid(),
        after@.contains_key(other),
        after@[other] == before@[other],
{
    before.lemma_live(other);
}

/// Two resources that are registered one after the other get different
/// ids, and both are live afterwards: no two live resources share an id.
pub proof fn lemma_two_adds_differ(
    start: ResourceTable,
    middle: ResourceTable,
    end: ResourceTable,
    first: Resource,
    second: Resource,
)
    requires
        start.wf(),
        middle@ == start@.insert(start.next_rid(), first),
        middle.next_rid() == start.next_rid() + 1,
        end@ == middle@.insert(middle.next_rid(), second),
    ensures
        start.next_rid() != middle.next_rid(),
        end@.contains_key(start.next_rid()),
        end@.contains_key(middle.next_rid()),
        end@[start.next_rid()] == first,
        end@[middle.next_rid()] == second,
        forall|other: ResourceId| #[trigger]
            start@.contains_key(other) ==> end@.contains_key(other) && end@[other] == start@[other],
{
    assert forall|other: ResourceId| #[trigger] start@.contains_key(other) implies end@.contains_key(
        other,
    ) && end@[other] == start@[other] by {
        start.lemma_live(other);
    }
}

} // verus!