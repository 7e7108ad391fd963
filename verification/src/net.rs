//! Network ops: what they check before the embedder touches a socket, and
//! what they register once it has.

use vstd::prelude::*;
use crate::async_cell::{Acquire, BorrowerId};
use crate::error::{
    bad_resource, bad_resource_id, custom_error, fails_with, generic_error, message_with, type_error, ErrorClass, OpError,
};
use crate::op_state::{
    add_post, borrow_post, denied_message, missing_message, release_post, touched, unchanged, unstable_message, BorrowError, OpState,
};
use crate::extensions::{declares, register_all, register_all_post, OpPair, Registrar};
use crate::ops::{
    invalid_args, spec_started, started, str_eq, NativeWork, Op, OpArgs, OpBuf, OpFn, OpHandler, PromiseId,
};
use crate::resources::{spec_get, Resource, ResourceId, ResourceKind};

verus! {

#[derive(Debug)]
pub struct AcceptArgs {
    pub rid: i32,
    pub transport: String,
}

#[derive(Debug)]
pub struct ReceiveArgs {
    pub rid: i32,
    pub transport: String,
}

#[derive(Debug)]
pub struct IpListenArgs {
    pub hostname: String,
    pub port: u16,
}

#[derive(Debug)]
pub struct UnixListenArgs {
    pub path: String,
}

#[derive(Debug)]
pub enum ArgsEnum {
    Ip(IpListenArgs),
    Unix(UnixListenArgs),
}

#[derive(Debug)]
pub struct SendArgs {
    pub rid: i32,
    pub transport: String,
    pub transport_args: ArgsEnum,
}

#[derive(Debug)]
pub struct ConnectArgs {
    pub transport: String,
    pub transport_args: ArgsEnum,
}

#[derive(Debug)]
pub struct ShutdownArgs {
    pub rid: i32,
    pub how: i32,
}

#[derive(Debug)]
pub struct ListenArgs {
    pub transport: String,
    pub transport_args: ArgsEnum,
}

/// An address as the system reports it.
#[derive(Debug)]
pub enum Addr {
    Ip { hostname: String, port: u16 },
    Unix { path: Option<String> },
}

/// An address with the transport it belongs to.
#[derive(Debug)]
pub struct NetAddr {
    pub addr: Addr,
    pub transport: String,
}

/// The two ways to shut a stream down.
#[derive(Clone, Copy, Debug, PartialEq, Eq, Structural)]
pub enum Shutdown {
    Read,
    Write,
}

/// The socket that a listen call asks for.
#[derive(Clone, Copy, Debug, PartialEq, Eq, Structural)]
pub enum ListenKind {
    Tcp,
    Udp,
    Unix,
    UnixPacket,
}

impl ListenKind {
    /// The type of the resource that the socket is registered as.
    pub open spec fn spec_resource_kind(self) -> ResourceKind {
        match self {
            ListenKind::Tcp => ResourceKind::TcpListener,
            ListenKind::Udp => ResourceKind::UdpSocket,
            ListenKind::Unix => ResourceKind::UnixListener,
            ListenKind::UnixPacket => ResourceKind::UnixDatagram,
        }
    }

    pub fn resource_kind(&self) -> (k: ResourceKind)
        ensures
            k == self.spec_resource_kind(),
    {
        match self {
            ListenKind::Tcp => ResourceKind::TcpListener,
            ListenKind::Udp => ResourceKind::UdpSocket,
            ListenKind::Unix => ResourceKind::UnixListener,
            ListenKind::UnixPacket => ResourceKind::UnixDatagram,
        }
    }
}

/// Socket work that the embedder does for a suspended call.
#[allow(inconsistent_fields)]
#[derive(Debug)]
pub enum NetWork {
    /// Wait for a connection on the listener `listener`.
    Accept { rid: ResourceId, listener: u64, kind: ResourceKind },
    /// Receive a datagram on `socket`. If `queued`, wait first until the
    /// call is handed the socket.
    Receive { rid: ResourceId, socket: u64, kind: ResourceKind, queued: bool },
    /// Send the buffer of the call from `socket` to `target`. If `queued`,
    /// wait first until the call is handed the socket.
    Send { rid: ResourceId, socket: u64, target: Addr, queued: bool },
    /// Connect to `target`.
    Connect { target: Addr, transport: String },
    /// Shut `stream` down.
    Shutdown { rid: ResourceId, stream: u64, how: Shutdown },
    /// Bind a socket of kind `kind` to `target`.
    Listen { kind: ListenKind, target: Addr, transport: String },
}

/// A socket that the embedder has bound or connected, with its addresses.
#[derive(Debug)]
pub struct Socket {
    pub handle: u64,
    pub local_addr: Addr,
    pub remote_addr: Option<Addr>,
}

/// What a call that produced a socket returns.
#[derive(Debug)]
pub struct SocketResult {
    pub rid: ResourceId,
    pub local_addr: NetAddr,
    pub remote_addr: Option<NetAddr>,
}

/// What a datagram receive returns.
#[derive(Debug)]
pub struct ReceiveResult {
    pub size: usize,
    pub remote_addr: NetAddr,
}

/// The result of a call that was suspended on a resource, and the caller
/// that the resource was handed to when this call let go of it.
#[derive(Debug)]
pub struct Completion<T> {
    pub result: Result<T, OpError>,
    pub woken: Option<BorrowerId>,
}

/// The id that a call means by the number `rid`.
pub open spec fn rid_of(rid: i32) -> ResourceId {
    rid as u32
}

fn to_rid(rid: i32) -> (r: ResourceId)
    ensures
        r == rid_of(rid),
{
    #[verifier::truncate]
    (rid as u32)
}

/// The message for a transport that a call cannot use.
pub open spec fn unsupported_transport(transport: Seq<char>) -> Seq<char> {
    "Unsupported transport protocol "@ + transport
}

fn unsupported(transport: &str) -> (e: OpError)
    ensures
        e.is(ErrorClass::Error, unsupported_transport(transport@)),
{
    generic_error(message_with("Unsupported transport protocol ", transport).as_str())
}

/// What starting an accept does: on a listener of type `kind` that nobody
/// borrows, the call `who` takes the borrow and is suspended on the
/// listener; a listener that is gone and one that is borrowed are errors
/// that change nothing.
pub open spec fn accept_post(
    before: OpState,
    rid: ResourceId,
    kind: ResourceKind,
    who: BorrowerId,
    after: OpState,
    r: Result<NetWork, OpError>,
) -> bool {
    match spec_get(before.resource_table@, rid, kind) {
        None => unchanged(before, after) && fails_with(
            r,
            ErrorClass::BadResource,
            "Listener has been closed"@,
        ),
        Some(listener) => if listener.cell.spec_is_borrowed() {
            unchanged(before, after) && fails_with(
                r,
                ErrorClass::Busy,
                "Another accept task is ongoing"@,
            )
        } else {
            &&& touched(before, after, rid)
            &&& after.resource_table@[rid].cell.holder() == Some(who)
            &&& after.resource_table@[rid].cell.waiters() == listener.cell.waiters()
            &&& r == Ok::<NetWork, OpError>(
                NetWork::Accept { rid, listener: listener.handle, kind },
            )
        },
    }
}

fn accept_on(state: &mut OpState, rid: ResourceId, kind: ResourceKind, who: BorrowerId) -> (r: Result<
    NetWork,
    OpError,
>)
    requires
        old(state).wf(),
    ensures
        final(state).wf(),
        accept_post(*old(state), rid, kind, who, *final(state), r),
{
    match state.try_borrow_resource(rid, kind, who) {
        Ok(listener) => Ok(NetWork::Accept { rid, listener, kind }),
        Err(BorrowError::NotFound) => Err(bad_resource("Listener has been closed")),
        Err(BorrowError::Busy) => Err(
            custom_error(ErrorClass::Busy, "Another accept task is ongoing"),
        ),
    }
}


/// What starting an accept on the transport of `args` does.
pub open spec fn op_accept_post(
    before: OpState,
    args: AcceptArgs,
    who: BorrowerId,
    after: OpState,
    r: Result<NetWork, OpError>,
) -> bool {
    if args.transport@ == "tcp"@ {
        accept_post(before, rid_of(args.rid), ResourceKind::TcpListener, who, after, r)
    } else if args.transport@ == "unix"@ {
        accept_post(before, rid_of(args.rid), ResourceKind::UnixListener, who, after, r)
    } else {
        unchanged(before, after) && fails_with(
            r,
            ErrorClass::Error,
            unsupported_transport(args.transport@),
        )
    }
}

/// Starts an accept on a TCP listener: fails at once if another accept is
/// going on, else suspends the call on the listener.
pub fn accept_tcp(state: &mut OpState, args: AcceptArgs, who: BorrowerId) -> (r: Result<NetWork, OpError>)
    requires
        old(state).wf(),
    ensures
        final(state).wf(),
        accept_post(*old(state), rid_of(args.rid), ResourceKind::TcpListener, who, *final(state), r),
{
    accept_on(state, to_rid(args.rid), ResourceKind::TcpListener, who)
}

/// Starts an accept on the listener that `args` names.
pub fn op_accept(state: &mut OpState, args: AcceptArgs, who: BorrowerId) -> (r: Result<NetWork, OpError>)
    requires
        old(state).wf(),
    ensures
        final(state).wf(),
        op_accept_post(*old(state), args, who, *final(state), r),
{
    if str_eq(args.transport.as_str(), "tcp") {
        accept_tcp(state, args, who)
    } else if str_eq(args.transport.as_str(), "unix") {
        accept_on(state, to_rid(args.rid), ResourceKind::UnixListener, who)
    } else {
        Err(unsupported(args.transport.as_str()))
    }
}

/// The type of the stream that a listener of type `kind` accepts.
pub open spec fn spec_stream_kind(kind: ResourceKind) -> ResourceKind {
    if kind == ResourceKind::UnixListener {
        ResourceKind::UnixStream
    } else {
        ResourceKind::TcpStream
    }
}

/// The transport of a resource of type `kind`.
pub open spec fn spec_transport_name(kind: ResourceKind) -> Seq<char> {
    match kind {
        ResourceKind::UnixListener | ResourceKind::UnixStream => "unix"@,
        ResourceKind::UdpSocket => "udp"@,
        ResourceKind::UnixDatagram => "unixpacket"@,
        _ => "tcp"@,
    }
}

fn transport_name(kind: ResourceKind) -> (s: &'static str)
    ensures
        s@ == spec_transport_name(kind),
{
    match kind {
        ResourceKind::UnixListener | ResourceKind::UnixStream => "unix",
        ResourceKind::UdpSocket => "udp",
        ResourceKind::UnixDatagram => "unixpacket",
        _ => "tcp",
    }
}

/// Whether `result` reports the socket `socket`, registered under `rid`,
/// with the transport name `transport`.
pub open spec fn reports(result: SocketResult, rid: ResourceId, socket: Socket, transport: Seq<char>) -> bool {
    &&& result.rid == rid
    &&& result.local_addr.addr == socket.local_addr
    &&& result.local_addr.transport@ == transport
    &&& match socket.remote_addr {
        Some(remote) => result.remote_addr matches Some(reported) && reported.addr == remote
            && reported.transport@ == transport,
        None => result.remote_addr is None,
    }
}

/// What registering a socket does: a free resource of type `kind` that
/// stands for the socket is stored under the next id, and the result
/// reports it; if the table is full, nothing changes.
pub open spec fn register_post(
    before: OpState,
    kind: ResourceKind,
    socket: Socket,
    transport: Seq<char>,
    after: OpState,
    r: Result<SocketResult, OpError>,
) -> bool {
    exists|resource: Resource, added: Result<ResourceId, OpError>|
        {
            &&& resource.is_free(kind, socket.handle)
            &&& #[trigger] add_post(before, resource, after, added)
            &&& match added {
                Ok(rid) => r matches Ok(result) && reports(result, rid, socket, transport),
                Err(e) => r == Err::<SocketResult, OpError>(e),
            }
        }
}

fn register(state: &mut OpState, kind: ResourceKind, socket: Socket, transport: &str) -> (r: Result<
    SocketResult,
    OpError,
>)
    requires
        old(state).wf(),
    ensures
        final(state).wf(),
        register_post(*old(state), kind, socket, transport@, *final(state), r),
{
    let resource = Resource::new(kind, socket.handle);
    let ghost stored = resource;
    let added = state.add_resource(resource);
    proof {
        assert(add_post(*old(state), stored, *state, added));
    }
    match added {
        Ok(rid) => {
            let Socket { handle, local_addr, remote_addr } = socket;
            let remote_addr = match remote_addr {
                Some(addr) => Some(NetAddr { addr, transport: String::from_str(transport) }),
                None => None,
            };
            Ok(
                SocketResult {
                    rid,
                    local_addr: NetAddr { addr: local_addr, transport: String::from_str(transport) },
                    remote_addr,
                },
            )
        },
        Err(e) => Err(e),
    }
}

/// What finishing an accept does: the call `who` lets go of the listener,
/// which goes to the call that has waited longest; if the embedder
/// accepted a connection, the stream is registered and reported; if not,
/// its error is passed on.
pub open spec fn accept_done_post(
    before: OpState,
    rid: ResourceId,
    kind: ResourceKind,
    who: BorrowerId,
    outcome: Result<Socket, OpError>,
    after: OpState,
    done: Completion<SocketResult>,
) -> bool {
    exists|released: OpState|
        {
            &&& #[trigger] release_post(before, rid, kind, who, released, done.woken)
            &&& match outcome {
                Ok(socket) => register_post(
                    released,
                    spec_stream_kind(kind),
                    socket,
                    spec_transport_name(kind),
                    after,
                    done.result,
                ),
                Err(e) => after == released && done.result == Err::<SocketResult, OpError>(e),
            }
        }
}

/// Finishes an accept that was suspended on the listener `rid` of type
/// `kind`, with what the embedder got from the listener.
pub fn accept_done(
    state: &mut OpState,
    rid: ResourceId,
    kind: ResourceKind,
    who: BorrowerId,
    outcome: Result<Socket, OpError>,
) -> (done: Completion<SocketResult>)
    requires
        old(state).wf(),
    ensures
        final(state).wf(),
        accept_done_post(*old(state), rid, kind, who, outcome, *final(state), done),
{
    let woken = state.release_resource(rid, kind, who);
    let ghost released = *state;
    let result = match outcome {
        Ok(socket) => {
            let stream_kind = if kind == ResourceKind::UnixListener {
                ResourceKind::UnixStream
            } else {
                ResourceKind::TcpStream
            };
            register(state, stream_kind, socket, transport_name(kind))
        },
        Err(e) => Err(e),
    };
    proof {
        assert(release_post(*old(state), rid, kind, who, released, woken));
    }
    Completion { result, woken }
}

/// What starting a datagram receive on the socket `rid` of type `kind`
/// does: the call `who` takes the socket or queues for it, and is
/// suspended on it; a socket that is gone is an error that changes
/// nothing.
pub open spec fn receive_post(
    before: OpState,
    rid: ResourceId,
    kind: ResourceKind,
    who: BorrowerId,
    after: OpState,
    r: Result<NetWork, OpError>,
) -> bool {
    exists|borrowed: Option<(u64, Acquire)>|
        {
            &&& #[trigger] borrow_post(before, rid, kind, who, after, borrowed)
            &&& match borrowed {
                Some((socket, acquire)) => r == Ok::<NetWork, OpError>(
                    NetWork::Receive { rid, socket, kind, queued: acquire == Acquire::Queued },
                ),
                None => fails_with(r, ErrorClass::BadResource, "Socket has been closed"@),
            }
        }
}

fn receive_on(state: &mut OpState, rid: ResourceId, kind: ResourceKind, who: BorrowerId) -> (r: Result<
    NetWork,
    OpError,
>)
    requires
        old(state).wf(),
    ensures
        final(state).wf(),
        receive_post(*old(state), rid, kind, who, *final(state), r),
{
    let borrowed = state.borrow_resource(rid, kind, who);
    proof {
        assert(borrow_post(*old(state), rid, kind, who, *state, borrowed));
    }
    match borrowed {
        Some((socket, acquire)) => Ok(
            NetWork::Receive { rid, socket, kind, queued: acquire == Acquire::Queued },
        ),
        None => Err(bad_resource("Socket has been closed")),
    }
}

/// Starts a datagram receive on a UDP socket.
pub fn receive_udp(state: &mut OpState, args: ReceiveArgs, who: BorrowerId) -> (r: Result<NetWork, OpError>)
    requires
        old(state).wf(),
    ensures
        final(state).wf(),
        receive_post(*old(state), rid_of(args.rid), ResourceKind::UdpSocket, who, *final(state), r),
{
    receive_on(state, to_rid(args.rid), ResourceKind::UdpSocket, who)
}

/// What starting a datagram receive on the transport of `args` does.
pub open spec fn op_datagram_receive_post(
    before: OpState,
    args: ReceiveArgs,
    who: BorrowerId,
    after: OpState,
    r: Result<NetWork, OpError>,
) -> bool {
    if args.transport@ == "udp"@ {
        receive_post(before, rid_of(args.rid), ResourceKind::UdpSocket, who, after, r)
    } else if args.transport@ == "unixpacket"@ {
        receive_post(before, rid_of(args.rid), ResourceKind::UnixDatagram, who, after, r)
    } else {
        unchanged(before, after) && fails_with(
            r,
            ErrorClass::Error,
            unsupported_transport(args.transport@),
        )
    }
}

/// Starts a datagram receive on the socket that `args` names.
pub fn op_datagram_receive(state: &mut OpState, args: ReceiveArgs, who: BorrowerId) -> (r: Result<
    NetWork,
    OpError,
>)
    requires
        old(state).wf(),
    ensures
        final(state).wf(),
        op_datagram_receive_post(*old(state), args, who, *final(state), r),
{
    if str_eq(args.transport.as_str(), "udp") {
        receive_udp(state, args, who)
    } else if str_eq(args.transport.as_str(), "unixpacket") {
        receive_on(state, to_rid(args.rid), ResourceKind::UnixDatagram, who)
    } else {
        Err(unsupported(args.transport.as_str()))
    }
}

/// A datagram that the embedder received: its size and where it came
/// from.
#[derive(Debug)]
pub struct Received {
    pub size: usize,
    pub remote_addr: Addr,
}

/// Finishes a datagram receive that was suspended on the socket `rid` of
/// type `kind`: the call lets go of the socket, and what the embedder
/// received is reported, or its error passed on.
pub fn receive_done(
    state: &mut OpState,
    rid: ResourceId,
    kind: ResourceKind,
    who: BorrowerId,
    outcome: Result<Received, OpError>,
) -> (done: Completion<ReceiveResult>)
    requires
        old(state).wf(),
    ensures
        final(state).wf(),
        release_post(*old(state), rid, kind, who, *final(state), done.woken),
        match outcome {
            Ok(received) => done.result matches Ok(result) && result.size == received.size
                && result.remote_addr.addr == received.remote_addr
                && result.remote_addr.transport@ == spec_transport_name(kind),
            Err(e) => done.result == Err::<ReceiveResult, OpError>(e),
        },
{
    let woken = state.release_resource(rid, kind, who);
    let result = match outcome {
        Ok(received) => Ok(
            ReceiveResult {
                size: received.size,
                remote_addr: NetAddr {
                    addr: received.remote_addr,
                    transport: String::from_str(transport_name(kind)),
                },
            },
        ),
        Err(e) => Err(e),
    };
    Completion { result, woken }
}

/// What starting a datagram send does. To a host, over "udp": the session
/// must have permissions that allow the net, and the call takes the UDP
/// socket or queues for it. To a path, over "unixpacket": the session must
/// have permissions that allow reading, and the socket must be there; the
/// call does not borrow it. Anything else is a malformed call. An error
/// changes nothing.
pub open spec fn op_datagram_send_post(
    before: OpState,
    args: SendArgs,
    who: BorrowerId,
    after: OpState,
    r: Result<NetWork, OpError>,
) -> bool {
    let rid = rid_of(args.rid);
    match args.transport_args {
        ArgsEnum::Ip(ip) => if args.transport@ != "udp"@ {
            unchanged(before, after) && fails_with(
                r,
                ErrorClass::TypeError,
                "Wrong argument format!"@,
            )
        } else if before.permissions is None {
            unchanged(before, after) && fails_with(
                r,
                ErrorClass::Error,
                missing_message("Permissions"@),
            )
        } else if !before.permissions->0.net {
            unchanged(before, after) && fails_with(
                r,
                ErrorClass::PermissionDenied,
                denied_message("net"@, ip.hostname@),
            )
        } else {
            exists|borrowed: Option<(u64, Acquire)>|
                {
                    &&& #[trigger] borrow_post(
                        before,
                        rid,
                        ResourceKind::UdpSocket,
                        who,
                        after,
                        borrowed,
                    )
                    &&& match borrowed {
                        Some((socket, acquire)) => r == Ok::<NetWork, OpError>(
                            NetWork::Send {
                                rid,
                                socket,
                                target: Addr::Ip { hostname: ip.hostname, port: ip.port },
                                queued: acquire == Acquire::Queued,
                            },
                        ),
                        None => fails_with(
                            r,
                            ErrorClass::BadResource,
                            "Socket has been closed"@,
                        ),
                    }
                }
        },
        ArgsEnum::Unix(unix) => unchanged(before, after) && if args.transport@ != "unixpacket"@ {
            fails_with(r, ErrorClass::TypeError, "Wrong argument format!"@)
        } else if before.permissions is None {
            fails_with(r, ErrorClass::Error, missing_message("Permissions"@))
        } else if !before.permissions->0.read {
            fails_with(r, ErrorClass::PermissionDenied, denied_message("read"@, unix.path@))
        } else {
            match spec_get(before.resource_table@, rid, ResourceKind::UnixDatagram) {
                Some(resource) => r == Ok::<NetWork, OpError>(
                    NetWork::Send {
                        rid,
                        socket: resource.handle,
                        target: Addr::Unix { path: Some(unix.path) },
                        queued: false,
                    },
                ),
                None => fails_with(r, ErrorClass::BadResource, "Socket has been closed"@),
            }
        },
    }
}

/// Starts a datagram send from the socket that `args` names.
pub fn op_datagram_send(state: &mut OpState, args: SendArgs, who: BorrowerId) -> (r: Result<NetWork, OpError>)
    requires
        old(state).wf(),
    ensures
        final(state).wf(),
        op_datagram_send_post(*old(state), args, who, *final(state), r),
{
    let SendArgs { rid, transport, transport_args } = args;
    let rid = to_rid(rid);
    match transport_args {
        ArgsEnum::Ip(ip) => {
            if !str_eq(transport.as_str(), "udp") {
                return Err(type_error("Wrong argument format!"));
            }
            let permissions = state.borrow_permissions()?;
            permissions.check_net(ip.hostname.as_str())?;
            let borrowed = state.borrow_resource(rid, ResourceKind::UdpSocket, who);
            proof {
                assert(borrow_post(
                    *old(state),
                    rid,
                    ResourceKind::UdpSocket,
                    who,
                    *state,
                    borrowed,
                ));
            }
            match borrowed {
                Some((socket, acquire)) => Ok(
                    NetWork::Send {
                        rid,
                        socket,
                        target: Addr::Ip { hostname: ip.hostname, port: ip.port },
                        queued: acquire == Acquire::Queued,
                    },
                ),
                None => Err(bad_resource("Socket has been closed")),
            }
        },
        ArgsEnum::Unix(unix) => {
            if !str_eq(transport.as_str(), "unixpacket") {
                return Err(type_error("Wrong argument format!"));
            }
            let permissions = state.borrow_permissions()?;
            permissions.check_read(unix.path.as_str())?;
            match state.resource_table.get(rid, ResourceKind::UnixDatagram) {
                Ok(resource) => Ok(
                    NetWork::Send {
                        rid,
                        socket: resource.handle,
                        target: Addr::Unix { path: Some(unix.path) },
                        queued: false,
                    },
                ),
                Err(_) => Err(bad_resource("Socket has been closed")),
            }
        },
    }
}

/// Finishes a datagram send that was suspended on the socket `rid`: the
/// call lets go of the socket if it held it, and the number of bytes that
/// the embedder sent is reported, or its error passed on.
pub fn send_done(
    state: &mut OpState,
    rid: ResourceId,
    who: BorrowerId,
    outcome: Result<usize, OpError>,
) -> (done: Completion<usize>)
    requires
        old(state).wf(),
    ensures
        final(state).wf(),
        release_post(*old(state), rid, ResourceKind::UdpSocket, who, *final(state), done.woken),
        done.result == outcome,
{
    let woken = state.release_resource(rid, ResourceKind::UdpSocket, who);
    Completion { result: outcome, woken }
}

/// What starting a connect does. To a host, over "tcp": the session must
/// have permissions that allow the net. To a path, over "unix": unstable
/// interfaces must be on, and the session must have permissions that allow
/// reading. Anything else is a malformed call. The state is only read.
pub open spec fn op_connect_post(state: OpState, args: ConnectArgs, r: Result<NetWork, OpError>) -> bool {
    match args.transport_args {
        ArgsEnum::Ip(ip) => if args.transport@ != "tcp"@ {
            fails_with(r, ErrorClass::TypeError, "Wrong argument format!"@)
        } else if state.permissions is None {
            fails_with(r, ErrorClass::Error, missing_message("Permissions"@))
        } else if !state.permissions->0.net {
            fails_with(r, ErrorClass::PermissionDenied, denied_message("net"@, ip.hostname@))
        } else {
            r == Ok::<NetWork, OpError>(
                NetWork::Connect {
                    target: Addr::Ip { hostname: ip.hostname, port: ip.port },
                    transport: args.transport,
                },
            )
        },
        ArgsEnum::Unix(unix) => if args.transport@ != "unix"@ {
            fails_with(r, ErrorClass::TypeError, "Wrong argument format!"@)
        } else if !state.unstable {
            fails_with(r, ErrorClass::NotSupported, unstable_message("Deno.connect"@))
        } else if state.permissions is None {
            fails_with(r, ErrorClass::Error, missing_message("Permissions"@))
        } else if !state.permissions->0.read {
            fails_with(r, ErrorClass::PermissionDenied, denied_message("read"@, unix.path@))
        } else {
            r == Ok::<NetWork, OpError>(
                NetWork::Connect {
                    target: Addr::Unix { path: Some(unix.path) },
                    transport: args.transport,
                },
            )
        },
    }
}

/// Starts a connect to the address that `args` names.
pub fn op_connect(state: &OpState, args: ConnectArgs) -> (r: Result<NetWork, OpError>)
    ensures
        op_connect_post(*state, args, r),
{
    let ConnectArgs { transport, transport_args } = args;
    match transport_args {
        ArgsEnum::Ip(ip) => {
            if !str_eq(transport.as_str(), "tcp") {
                return Err(type_error("Wrong argument format!"));
            }
            let permissions = state.borrow_permissions()?;
            permissions.check_net(ip.hostname.as_str())?;
            Ok(
                NetWork::Connect {
                    target: Addr::Ip { hostname: ip.hostname, port: ip.port },
                    transport,
                },
            )
        },
        ArgsEnum::Unix(unix) => {
            if !str_eq(transport.as_str(), "unix") {
                return Err(type_error("Wrong argument format!"));
            }
            state.check_unstable("Deno.connect")?;
            let permissions = state.borrow_permissions()?;
            permissions.check_read(unix.path.as_str())?;
            Ok(NetWork::Connect { target: Addr::Unix { path: Some(unix.path) }, transport })
        },
    }
}

/// The type of the stream that a connect to `target` yields.
pub open spec fn spec_connected_kind(target: Addr) -> ResourceKind {
    match target {
        Addr::Ip { .. } => ResourceKind::TcpStream,
        Addr::Unix { .. } => ResourceKind::UnixStream,
    }
}

/// Finishes a connect to `target`: if the embedder connected, the stream
/// is registered and reported under the transport of the call; if not, its
/// error is passed on and nothing changes.
pub fn connect_done(state: &mut OpState, target: &Addr, transport: &str, outcome: Result<Socket, OpError>) -> (r:
    Result<SocketResult, OpError>)
    requires
        old(state).wf(),
    ensures
        final(state).wf(),
        match outcome {
            Ok(socket) => register_post(
                *old(state),
                spec_connected_kind(*target),
                socket,
                transport@,
                *final(state),
                r,
            ),
            Err(e) => *final(state) == *old(state) && r == Err::<SocketResult, OpError>(e),
        },
{
    match outcome {
        Ok(socket) => {
            let kind = match target {
                Addr::Ip { .. } => ResourceKind::TcpStream,
                Addr::Unix { .. } => ResourceKind::UnixStream,
            };
            register(state, kind, socket, transport)
        },
        Err(e) => Err(e),
    }
}

/// The direction that the number `how` stands for.
pub open spec fn spec_shutdown_mode(how: i32) -> Option<Shutdown> {
    if how == 0 {
        Some(Shutdown::Read)
    } else if how == 1 {
        Some(Shutdown::Write)
    } else {
        None
    }
}

/// What a shutdown does: with unstable interfaces on, a direction that is
/// known and a stream registered under the id, the call is suspended on
/// the shutdown of that stream. The state is only read.
pub open spec fn op_shutdown_post(state: OpState, args: ShutdownArgs, r: Result<NetWork, OpError>) -> bool {
    let rid = rid_of(args.rid);
    let table = state.resource_table@;
    if !state.unstable {
        fails_with(r, ErrorClass::NotSupported, unstable_message("Deno.shutdown"@))
    } else if spec_shutdown_mode(args.how) is None {
        fails_with(r, ErrorClass::NotSupported, "The operation is not supported"@)
    } else if table.contains_key(rid) && (table[rid].kind == ResourceKind::TcpStream
        || table[rid].kind == ResourceKind::UnixStream) {
        r == Ok::<NetWork, OpError>(
            NetWork::Shutdown {
                rid,
                stream: table[rid].handle,
                how: spec_shutdown_mode(args.how)->0,
            },
        )
    } else {
        fails_with(r, ErrorClass::BadResource, "Bad resource ID"@)
    }
}

/// Starts the shutdown of one direction of a stream.
pub fn op_shutdown(state: &OpState, args: ShutdownArgs) -> (r: Result<NetWork, OpError>)
    requires
        state.wf(),
    ensures
        op_shutdown_post(*state, args, r),
{
    state.check_unstable("Deno.shutdown")?;
    let rid = to_rid(args.rid);
    let how = if args.how == 0 {
        Shutdown::Read
    } else if args.how == 1 {
        Shutdown::Write
    } else {
        return Err(crate::error::not_supported());
    };
    match state.resource_table.get(rid, ResourceKind::TcpStream) {
        Ok(resource) => Ok(NetWork::Shutdown { rid, stream: resource.handle, how }),
        Err(_) => match state.resource_table.get(rid, ResourceKind::UnixStream) {
            Ok(resource) => Ok(NetWork::Shutdown { rid, stream: resource.handle, how }),
            Err(_) => Err(bad_resource_id()),
        },
    }
}

/// Registers a TCP listener that the embedder has bound, and returns its
/// id and its address.
pub fn listen_tcp(state: &mut OpState, bound: Socket) -> (r: Result<SocketResult, OpError>)
    requires
        old(state).wf(),
    ensures
        final(state).wf(),
        register_post(*old(state), ResourceKind::TcpListener, bound, "tcp"@, *final(state), r),
{
    register(state, ResourceKind::TcpListener, bound, "tcp")
}

/// Registers a UDP socket that the embedder has bound, and returns its id
/// and its address.
pub fn listen_udp(state: &mut OpState, bound: Socket) -> (r: Result<SocketResult, OpError>)
    requires
        old(state).wf(),
    ensures
        final(state).wf(),
        register_post(*old(state), ResourceKind::UdpSocket, bound, "udp"@, *final(state), r),
{
    register(state, ResourceKind::UdpSocket, bound, "udp")
}

/// What a listen call asks of the embedder. The session must have
/// permissions. On a host: any transport but "tcp" is a datagram socket,
/// and "udp" needs unstable interfaces; the permissions must allow the
/// net. On a path: the transport is "unix" or "unixpacket", unstable
/// interfaces must be on, and the permissions must allow reading and
/// writing. Anything else is a malformed call. The state is only read.
pub open spec fn op_listen_post(state: OpState, args: ListenArgs, r: Result<NetWork, OpError>) -> bool {
    if state.permissions is None {
        fails_with(r, ErrorClass::Error, missing_message("Permissions"@))
    } else {
        let permissions = state.permissions->0;
        match args.transport_args {
            ArgsEnum::Ip(ip) => if args.transport@ == "udp"@ && !state.unstable {
                fails_with(r, ErrorClass::NotSupported, unstable_message("Deno.listenDatagram"@))
            } else if !permissions.net {
                fails_with(r, ErrorClass::PermissionDenied, denied_message("net"@, ip.hostname@))
            } else {
                r == Ok::<NetWork, OpError>(
                    NetWork::Listen {
                        kind: if args.transport@ == "tcp"@ {
                            ListenKind::Tcp
                        } else {
                            ListenKind::Udp
                        },
                        target: Addr::Ip { hostname: ip.hostname, port: ip.port },
                        transport: args.transport,
                    },
                )
            },
            ArgsEnum::Unix(unix) => if args.transport@ != "unix"@ && args.transport@
                != "unixpacket"@ {
                fails_with(r, ErrorClass::TypeError, "Wrong argument format!"@)
            } else if !state.unstable {
                fails_with(
                    r,
                    ErrorClass::NotSupported,
                    unstable_message(
                        if args.transport@ == "unix"@ {
                            "Deno.listen"@
                        } else {
                            "Deno.listenDatagram"@
                        },
                    ),
                )
            } else if !permissions.read {
                fails_with(r, ErrorClass::PermissionDenied, denied_message("read"@, unix.path@))
            } else if !permissions.write {
                fails_with(r, ErrorClass::PermissionDenied, denied_message("write"@, unix.path@))
            } else {
                r == Ok::<NetWork, OpError>(
                    NetWork::Listen {
                        kind: if args.transport@ == "unix"@ {
                            ListenKind::Unix
                        } else {
                            ListenKind::UnixPacket
                        },
                        target: Addr::Unix { path: Some(unix.path) },
                        transport: args.transport,
                    },
                )
            },
        }
    }
}

/// Checks a listen call and says which socket the embedder has to bind.
pub fn op_listen(state: &OpState, args: ListenArgs) -> (r: Result<NetWork, OpError>)
    ensures
        op_listen_post(*state, args, r),
{
    let permissions = state.borrow_permissions()?;
    let ListenArgs { transport, transport_args } = args;
    match transport_args {
        ArgsEnum::Ip(ip) => {
            if str_eq(transport.as_str(), "udp") {
                state.check_unstable("Deno.listenDatagram")?;
            }
            permissions.check_net(ip.hostname.as_str())?;
            let kind = if str_eq(transport.as_str(), "tcp") {
                ListenKind::Tcp
            } else {
                ListenKind::Udp
            };
            Ok(
                NetWork::Listen {
                    kind,
                    target: Addr::Ip { hostname: ip.hostname, port: ip.port },
                    transport,
                },
            )
        },
        ArgsEnum::Unix(unix) => {
            let is_unix = str_eq(transport.as_str(), "unix");
            if !is_unix && !str_eq(transport.as_str(), "unixpacket") {
                return Err(type_error("Wrong argument format!"));
            }
            if is_unix {
                state.check_unstable("Deno.listen")?;
            } else {
                state.check_unstable("Deno.listenDatagram")?;
            }
            permissions.check_read(unix.path.as_str())?;
            permissions.check_write(unix.path.as_str())?;
            let kind = if is_unix {
                ListenKind::Unix
            } else {
                ListenKind::UnixPacket
            };
            Ok(NetWork::Listen { kind, target: Addr::Unix { path: Some(unix.path) }, transport })
        },
    }
}

/// Finishes a listen call: if the embedder bound the socket, it is
/// registered as a resource of the type that `kind` asks for and reported
/// under the transport of the call; if not, its error is passed on and
/// nothing changes.
pub fn listen_done(state: &mut OpState, kind: ListenKind, transport: &str, outcome: Result<Socket, OpError>) -> (r:
    Result<SocketResult, OpError>)
    requires
        old(state).wf(),
    ensures
        final(state).wf(),
        match outcome {
            Ok(bound) => register_post(
                *old(state),
                kind.spec_resource_kind(),
                bound,
                transport@,
                *final(state),
                r,
            ),
            Err(e) => *final(state) == *old(state) && r == Err::<SocketResult, OpError>(e),
        },
{
    match outcome {
        Ok(bound) => register(state, kind.resource_kind(), bound, transport),
        Err(e) => Err(e),
    }
}

/// The ops of this module.
#[derive(Clone, Copy, Debug, PartialEq, Eq, Structural)]
pub enum NetOp {
    Accept,
    Connect,
    Shutdown,
    Listen,
    DatagramReceive,
    DatagramSend,
}

/// The socket work of a call as native work.
pub open spec fn spec_lift(r: Result<NetWork, OpError>) -> Result<NativeWork, OpError> {
    match r {
        Ok(work) => Ok(NativeWork::Net(work)),
        Err(e) => Err(e),
    }
}

fn lift(r: Result<NetWork, OpError>) -> (l: Result<NativeWork, OpError>)
    ensures
        l == spec_lift(r),
{
    match r {
        Ok(work) => Ok(NativeWork::Net(work)),
        Err(e) => Err(e),
    }
}

impl NetOp {
    /// The name under which the op is registered.
    pub open spec fn spec_name(self) -> Seq<char> {
        match self {
            NetOp::Accept => "op_accept"@,
            NetOp::Connect => "op_connect"@,
            NetOp::Shutdown => "op_shutdown"@,
            NetOp::Listen => "op_listen"@,
            NetOp::DatagramReceive => "op_datagram_receive"@,
            NetOp::DatagramSend => "op_datagram_send"@,
        }
    }

    pub fn name(&self) -> (s: &'static str)
        ensures
            s@ == self.spec_name(),
    {
        match self {
            NetOp::Accept => "op_accept",
            NetOp::Connect => "op_connect",
            NetOp::Shutdown => "op_shutdown",
            NetOp::Listen => "op_listen",
            NetOp::DatagramReceive => "op_datagram_receive",
            NetOp::DatagramSend => "op_datagram_send",
        }
    }

    /// What the first half of a call of this op does, up to the socket
    /// work that it asks for. Arguments of another shape are an error that
    /// changes nothing.
    pub open spec fn starts(
        self,
        before: OpState,
        who: PromiseId,
        args: OpArgs,
        after: OpState,
        r: Result<NetWork, OpError>,
    ) -> bool {
        match (self, args) {
            (NetOp::Accept, OpArgs::Accept(a)) => op_accept_post(before, a, who, after, r),
            (NetOp::Connect, OpArgs::Connect(a)) => after == before && op_connect_post(before, a, r),
            (NetOp::Shutdown, OpArgs::Shutdown(a)) => after == before && op_shutdown_post(
                before,
                a,
                r,
            ),
            (NetOp::Listen, OpArgs::Listen(a)) => after == before && op_listen_post(before, a, r),
            (NetOp::DatagramReceive, OpArgs::Receive(a)) => op_datagram_receive_post(
                before,
                a,
                who,
                after,
                r,
            ),
            (NetOp::DatagramSend, OpArgs::Send(a)) => op_datagram_send_post(
                before,
                a,
                who,
                after,
                r,
            ),
            _ => after == before && fails_with(r, ErrorClass::TypeError, "Invalid arguments"@),
        }
    }
}

impl OpHandler for NetOp {
    /// The first half of the op runs; the call is suspended on the socket
    /// work that it asks for, or fails at once.
    open spec fn post(
        &self,
        before: OpState,
        promise_id: PromiseId,
        args: OpArgs,
        buf: OpBuf,
        after: OpState,
        op: Op,
    ) -> bool {
        exists|r: Result<NetWork, OpError>| #[trigger]
            self.starts(before, promise_id, args, after, r) && op == spec_started(
                promise_id,
                spec_lift(r),
            )
    }

    fn call(&self, state: &mut OpState, promise_id: PromiseId, args: OpArgs, buf: OpBuf) -> (op: Op) {
        let r = match (self, args) {
            (NetOp::Accept, OpArgs::Accept(a)) => op_accept(state, a, promise_id),
            (NetOp::Connect, OpArgs::Connect(a)) => op_connect(state, a),
            (NetOp::Shutdown, OpArgs::Shutdown(a)) => op_shutdown(state, a),
            (NetOp::Listen, OpArgs::Listen(a)) => op_listen(state, a),
            (NetOp::DatagramReceive, OpArgs::Receive(a)) => op_datagram_receive(
                state,
                a,
                promise_id,
            ),
            (NetOp::DatagramSend, OpArgs::Send(a)) => op_datagram_send(state, a, promise_id),
            _ => Err(invalid_args()),
        };
        proof {
            assert(self.starts(*old(state), promise_id, args, *state, r));
        }
        started(promise_id, lift(r))
    }
}

/// The handler of a network op.
pub fn net_op(op: NetOp) -> (f: OpFn)
    ensures
        f.behaves_as(op),
{
    OpFn { handler: Box::new(op) }
}

/// The network ops in the order in which they are registered.
pub fn ops() -> (all: Vec<OpPair>)
    ensures
        all@.len() == 6,
        declares(all@, 0, NetOp::Accept.spec_name(), NetOp::Accept),
        declares(all@, 1, NetOp::Connect.spec_name(), NetOp::Connect),
        declares(all@, 2, NetOp::Shutdown.spec_name(), NetOp::Shutdown),
        declares(all@, 3, NetOp::Listen.spec_name(), NetOp::Listen),
        declares(all@, 4, NetOp::DatagramReceive.spec_name(), NetOp::DatagramReceive),
        declares(all@, 5, NetOp::DatagramSend.spec_name(), NetOp::DatagramSend),
{
    let mut all: Vec<OpPair> = Vec::new();
    all.push((NetOp::Accept.name(), net_op(NetOp::Accept)));
    all.push((NetOp::Connect.name(), net_op(NetOp::Connect)));
    all.push((NetOp::Shutdown.name(), net_op(NetOp::Shutdown)));
    all.push((NetOp::Listen.name(), net_op(NetOp::Listen)));
    all.push((NetOp::DatagramReceive.name(), net_op(NetOp::DatagramReceive)));
    all.push((NetOp::DatagramSend.name(), net_op(NetOp::DatagramSend)));
    all
}

/// Registers the network ops into `rt`.
pub fn init(rt: &mut Registrar) -> (r: Result<(), OpError>)
    requires
        old(rt)@.table.wf(),
    ensures
        final(rt)@.table.wf(),
        exists|all: Seq<OpPair>|
            {
                &&& all.len() == 6
                &&& declares(all, 0, NetOp::Accept.spec_name(), NetOp::Accept)
                &&& declares(all, 1, NetOp::Connect.spec_name(), NetOp::Connect)
                &&& declares(all, 2, NetOp::Shutdown.spec_name(), NetOp::Shutdown)
                &&& declares(all, 3, NetOp::Listen.spec_name(), NetOp::Listen)
                &&& declares(all, 4, NetOp::DatagramReceive.spec_name(), NetOp::DatagramReceive)
                &&& declares(all, 5, NetOp::DatagramSend.spec_name(), NetOp::DatagramSend)
                &&& #[trigger] register_all_post(old(rt)@, all, final(rt)@, r)
            },
{
    let all = ops();
    let ghost declared = all@;
    let r = register_all(rt, all);
    proof {
        assert(register_all_post(old(rt)@, declared, rt@, r));
    }
    r
}

} // verus!
