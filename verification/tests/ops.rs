use op_runtime::command::{
    command_output_done, command_spawned, command_status_done, command_wait_done,
    op_command_output, op_command_spawn, op_command_status, op_command_wait, Child, ChildStdio,
    CommandArgs, CommandStatus, CommandStdio, CommandWork, ExitStatus, Output, Spawned,
};
use op_runtime::crypto::{
    generate_key_done, key_request, op_crypto_get_random_values, op_webcrypto_generate_key,
    op_webcrypto_sign_key, Algorithm, CryptoWork, Generated, JSCryptoKey, KeyRequest, KeyType,
    SignScheme, WebCryptoAlgorithmArg, WebCryptoError, WebCryptoGenerateKeyArg, WebCryptoHash,
    WebCryptoNamedCurve, WebCryptoSignArg,
};
use op_runtime::error::{ErrorClass, ErrorKind, OpError};
use op_runtime::extensions::Registrar;
use op_runtime::net::{
    accept_done, accept_tcp, connect_done, listen_done, listen_tcp, op_accept, op_connect,
    op_datagram_receive, op_datagram_send, op_listen, op_shutdown, receive_done, send_done,
    AcceptArgs, Addr, ArgsEnum, ConnectArgs, IpListenArgs, ListenArgs, ListenKind, NetWork,
    ReceiveArgs, Received, SendArgs, Shutdown, ShutdownArgs, Socket, UnixListenArgs,
};
use op_runtime::op_state::{LocationDataDir, OpState, Permissions};
use op_runtime::ops::{
    CollisionPolicy, Convention, NativeWork, Op, OpArgs, OpResponse, OpTable,
};
use op_runtime::plugin::{op_open_plugin, plugin_opened, OpenPluginArgs, PluginWork};
use op_runtime::resources::{Resource, ResourceKind};
use op_runtime::signal::{
    op_signal_bind, op_signal_poll, op_signal_unbind, signal_bind_done, signal_poll_step,
    SignalEvent, SignalWork, WindowsSignal,
};
use op_runtime::cancel::Poll;
use op_runtime::webgpu::sampler::{
    gpu_object_created, op_webgpu_create_sampler, parse_address_mode, parse_compare_function,
    parse_filter_mode, serialize_address_mode, serialize_compare_function, serialize_filter_mode,
    AddressMode, CompareFunction, CreateSamplerArgs, FilterMode,
};
use op_runtime::webgpu::swapchain::{
    op_webgpu_configure_swapchain, op_webgpu_get_swapchain_preferred_format,
    ConfigureSwapchainArgs, GetSwapchainPreferredFormat, SwapchainWork,
};
use op_runtime::webstorage::{
    op_webstorage_clear, op_webstorage_get, op_webstorage_key, op_webstorage_length,
    op_webstorage_open, op_webstorage_remove, op_webstorage_set, webstorage_opened, ClearArgs,
    GetArgs, KeyArgs, LengthArgs, OpenArgs, RemoveArgs, SetArgs, Statement, StorageWork,
};

fn allowed() -> OpState {
    let mut state = OpState::new();
    state.permissions = Some(Permissions::allow_all());
    state.unstable = true;
    state
}

fn ip(hostname: &str, port: u16) -> ArgsEnum {
    ArgsEnum::Ip(IpListenArgs { hostname: hostname.to_string(), port })
}

fn unix(path: &str) -> ArgsEnum {
    ArgsEnum::Unix(UnixListenArgs { path: path.to_string() })
}

fn listen(transport: &str, transport_args: ArgsEnum) -> ListenArgs {
    ListenArgs { transport: transport.to_string(), transport_args }
}

fn ip_addr(hostname: &str, port: u16) -> Addr {
    Addr::Ip { hostname: hostname.to_string(), port }
}

fn fails<T: std::fmt::Debug>(r: Result<T, OpError>, class: ErrorClass, message: &str) {
    let e = r.unwrap_err();
    assert_eq!((e.class, e.message.as_str()), (class, message));
}

#[test]
fn listen_decides_the_socket() {
    let state = allowed();
    match op_listen(&state, listen("tcp", ip("localhost", 80))).unwrap() {
        NetWork::Listen { kind, target: Addr::Ip { hostname, port }, transport } => {
            assert_eq!((kind, hostname.as_str(), port, transport.as_str()), (ListenKind::Tcp, "localhost", 80, "tcp"));
        }
        other => panic!("{:?}", other),
    }
    assert!(matches!(
        op_listen(&state, listen("udp", ip("h", 1))).unwrap(),
        NetWork::Listen { kind: ListenKind::Udp, .. }
    ));
    // any transport but "tcp" on a host is a datagram socket
    assert!(matches!(
        op_listen(&state, listen("sctp", ip("h", 1))).unwrap(),
        NetWork::Listen { kind: ListenKind::Udp, .. }
    ));
    assert!(matches!(
        op_listen(&state, listen("unix", unix("/s"))).unwrap(),
        NetWork::Listen { kind: ListenKind::Unix, target: Addr::Unix { path: Some(_) }, .. }
    ));
    assert!(matches!(
        op_listen(&state, listen("unixpacket", unix("/s"))).unwrap(),
        NetWork::Listen { kind: ListenKind::UnixPacket, .. }
    ));
    fails(op_listen(&state, listen("tcp", unix("/s"))), ErrorClass::TypeError, "Wrong argument format!");
}

#[test]
fn listen_asks_for_permission_first() {
    fails(
        op_listen(&OpState::new(), listen("tcp", ip("h", 1))),
        ErrorClass::Error,
        "Missing state: Permissions",
    );
    let mut state = allowed();
    state.unstable = false;
    fails(
        op_listen(&state, listen("udp", ip("h", 1))),
        ErrorClass::NotSupported,
        "Unstable API 'Deno.listenDatagram'. The --unstable flag must be provided.",
    );
    fails(
        op_listen(&state, listen("unix", unix("/s"))),
        ErrorClass::NotSupported,
        "Unstable API 'Deno.listen'. The --unstable flag must be provided.",
    );
    assert!(op_listen(&state, listen("tcp", ip("h", 1))).is_ok());

    let mut state = allowed();
    state.permissions = Some(Permissions { net: false, ..Permissions::allow_all() });
    let e = op_listen(&state, listen("tcp", ip("example.com", 1))).unwrap_err();
    assert_eq!(e.kind(), ErrorKind::PermissionDenied);
    assert_eq!(e.message, "Requires net access to example.com");
    state.permissions = Some(Permissions { write: false, ..Permissions::allow_all() });
    fails(
        op_listen(&state, listen("unix", unix("/s"))),
        ErrorClass::PermissionDenied,
        "Requires write access to /s",
    );
    state.permissions = Some(Permissions { read: false, write: false, ..Permissions::allow_all() });
    fails(
        op_listen(&state, listen("unix", unix("/s"))),
        ErrorClass::PermissionDenied,
        "Requires read access to /s",
    );
}

fn bound(handle: u64, port: u16) -> Socket {
    Socket { handle, local_addr: ip_addr("127.0.0.1", port), remote_addr: None }
}

fn accept_args(rid: i32, transport: &str) -> AcceptArgs {
    AcceptArgs { rid, transport: transport.to_string() }
}

#[test]
fn second_accept_on_a_listener_is_busy() {
    let mut state = allowed();
    let listener = listen_tcp(&mut state, bound(11, 4000)).unwrap();
    assert_eq!(listener.rid, 0);
    assert_eq!(listener.local_addr.transport, "tcp");
    assert!(listener.remote_addr.is_none());

    let first = op_accept(&mut state, accept_args(0, "tcp"), 1).unwrap();
    assert!(matches!(first, NetWork::Accept { rid: 0, listener: 11, kind: ResourceKind::TcpListener }));
    let second = accept_tcp(&mut state, accept_args(0, "tcp"), 2).unwrap_err();
    assert_eq!(second.kind(), ErrorKind::Busy);
    assert_eq!(second.message, "Another accept task is ongoing");

    let stream = Socket {
        handle: 12,
        local_addr: ip_addr("127.0.0.1", 4000),
        remote_addr: Some(ip_addr("10.0.0.1", 5000)),
    };
    let done = accept_done(&mut state, 0, ResourceKind::TcpListener, 1, Ok(stream));
    assert_eq!(done.woken, None);
    let accepted = done.result.unwrap();
    assert_eq!(accepted.rid, 1);
    assert_eq!(accepted.remote_addr.unwrap().transport, "tcp");
    assert_eq!(state.resource_table.get(1, ResourceKind::TcpStream).unwrap().handle, 12);

    // after the first accept let go, a third one succeeds
    assert!(accept_tcp(&mut state, accept_args(0, "tcp"), 3).is_ok());
}

#[test]
fn accept_reports_what_is_wrong() {
    let mut state = allowed();
    fails(
        op_accept(&mut state, accept_args(0, "tcp"), 1),
        ErrorClass::BadResource,
        "Listener has been closed",
    );
    fails(
        op_accept(&mut state, accept_args(0, "quic"), 1),
        ErrorClass::Error,
        "Unsupported transport protocol quic",
    );
    listen_done(&mut state, ListenKind::Udp, "udp", Ok(bound(5, 1))).unwrap();
    // a socket of another type is as good as none
    fails(
        op_accept(&mut state, accept_args(0, "tcp"), 1),
        ErrorClass::BadResource,
        "Listener has been closed",
    );
    // a negative id names no resource
    fails(
        op_accept(&mut state, accept_args(-1, "tcp"), 1),
        ErrorClass::BadResource,
        "Listener has been closed",
    );
    let failed = accept_done(
        &mut state,
        0,
        ResourceKind::TcpListener,
        1,
        Err(op_runtime::error::generic_error("reset")),
    );
    fails(failed.result, ErrorClass::Error, "reset");
    assert_eq!(state.resource_table.len(), 1);
}

#[test]
fn datagram_calls_queue_for_the_socket() {
    let mut state = allowed();
    listen_udp_socket(&mut state);
    let receive = |rid| ReceiveArgs { rid, transport: "udp".to_string() };
    assert!(matches!(
        op_datagram_receive(&mut state, receive(0), 1).unwrap(),
        NetWork::Receive { rid: 0, socket: 21, queued: false, .. }
    ));
    assert!(matches!(
        op_datagram_receive(&mut state, receive(0), 2).unwrap(),
        NetWork::Receive { queued: true, .. }
    ));
    let send = SendArgs { rid: 0, transport: "udp".to_string(), transport_args: ip("h", 9) };
    assert!(matches!(
        op_datagram_send(&mut state, send, 3).unwrap(),
        NetWork::Send { queued: true, socket: 21, .. }
    ));

    let received = Received { size: 7, remote_addr: ip_addr("10.0.0.2", 6000) };
    let done = receive_done(&mut state, 0, ResourceKind::UdpSocket, 1, Ok(received));
    assert_eq!(done.woken, Some(2));
    let result = done.result.unwrap();
    assert_eq!((result.size, result.remote_addr.transport.as_str()), (7, "udp"));
    let done = receive_done(&mut state, 0, ResourceKind::UdpSocket, 2, Err(op_runtime::error::generic_error("gone")));
    assert_eq!(done.woken, Some(3));
    let done = send_done(&mut state, 0, 3, Ok(4));
    assert_eq!((done.woken, done.result.unwrap()), (None, 4));
    assert!(!state.resource_table.get(0, ResourceKind::UdpSocket).unwrap().cell.is_borrowed());

    fails(
        op_datagram_receive(&mut state, receive(9), 1),
        ErrorClass::BadResource,
        "Socket has been closed",
    );
    let receive_tcp = ReceiveArgs { rid: 0, transport: "tcp".to_string() };
    fails(
        op_datagram_receive(&mut state, receive_tcp, 1),
        ErrorClass::Error,
        "Unsupported transport protocol tcp",
    );
    let wrong = SendArgs { rid: 0, transport: "tcp".to_string(), transport_args: ip("h", 9) };
    fails(op_datagram_send(&mut state, wrong, 1), ErrorClass::TypeError, "Wrong argument format!");
    let packet = SendArgs { rid: 0, transport: "unixpacket".to_string(), transport_args: unix("/p") };
    let missing = op_datagram_send(&mut state, packet, 1).unwrap_err();
    assert_eq!(missing.kind(), ErrorKind::NotFound);
    assert_eq!(missing.message, "Socket has been closed");
}

fn listen_udp_socket(state: &mut OpState) {
    let socket = op_runtime::net::listen_udp(state, bound(21, 5353)).unwrap();
    assert_eq!((socket.rid, socket.local_addr.transport.as_str()), (0, "udp"));
}

#[test]
fn connect_and_shutdown() {
    let mut state = allowed();
    let args = ConnectArgs { transport: "tcp".to_string(), transport_args: ip("example.com", 443) };
    let (target, transport) = match op_connect(&state, args).unwrap() {
        NetWork::Connect { target, transport } => (target, transport),
        other => panic!("{:?}", other),
    };
    assert_eq!(transport, "tcp");
    let stream = Socket {
        handle: 31,
        local_addr: ip_addr("10.0.0.3", 50000),
        remote_addr: Some(ip_addr("93.184.216.34", 443)),
    };
    let connected = connect_done(&mut state, &target, &transport, Ok(stream)).unwrap();
    assert_eq!(connected.rid, 0);
    assert!(matches!(connected.local_addr.addr, Addr::Ip { port: 50000, .. }));

    let wrong = ConnectArgs { transport: "udp".to_string(), transport_args: ip("h", 1) };
    fails(op_connect(&state, wrong), ErrorClass::TypeError, "Wrong argument format!");
    let by_path = ConnectArgs { transport: "unix".to_string(), transport_args: unix("/s") };
    assert!(matches!(
        op_connect(&state, by_path).unwrap(),
        NetWork::Connect { target: Addr::Unix { .. }, .. }
    ));

    assert!(matches!(
        op_shutdown(&state, ShutdownArgs { rid: 0, how: 1 }).unwrap(),
        NetWork::Shutdown { rid: 0, stream: 31, how: Shutdown::Write }
    ));
    assert!(matches!(
        op_shutdown(&state, ShutdownArgs { rid: 0, how: 0 }).unwrap(),
        NetWork::Shutdown { how: Shutdown::Read, .. }
    ));
    fails(
        op_shutdown(&state, ShutdownArgs { rid: 0, how: 2 }),
        ErrorClass::NotSupported,
        "The operation is not supported",
    );
    fails(op_shutdown(&state, ShutdownArgs { rid: 5, how: 0 }), ErrorClass::BadResource, "Bad resource ID");
}

#[test]
fn closing_a_polled_signal_stream_ends_the_poll() {
    let mut state = allowed();
    for handle in 0..7u64 {
        state.resource_table.add(Resource::new(ResourceKind::TcpStream, handle));
    }
    assert!(matches!(op_signal_bind(&state, 2).unwrap(), SignalWork::Bind { signo: 2 }));
    assert_eq!(signal_bind_done(&mut state, Ok(70)).unwrap(), 7);

    assert!(matches!(
        op_signal_poll(&mut state, 7, 1).unwrap(),
        SignalWork::Poll { rid: 7, stream: 70, queued: false }
    ));
    // nothing has come yet: the poll stays suspended
    let (poll, woken) = signal_poll_step(&mut state, 7, 1, SignalEvent::Nothing);
    assert_eq!((poll, woken), (Poll::Pending, None));

    assert!(op_signal_unbind(&mut state, 7).is_ok());
    let (poll, _) = signal_poll_step(&mut state, 7, 1, SignalEvent::Nothing);
    assert_eq!(poll, Poll::Ready(Ok(true)));
    // a signal that comes after the close is not taken any more
    let (poll, woken) = signal_poll_step(&mut state, 7, 1, SignalEvent::Signal);
    assert_eq!((poll, woken), (Poll::Ready(Ok(true)), None));
    let (poll, _) = signal_poll_step(&mut state, 7, 1, SignalEvent::End);
    assert_eq!(poll, Poll::Ready(Ok(true)));
    fails(op_signal_unbind(&mut state, 7), ErrorClass::BadResource, "Bad resource ID");
    fails(op_signal_poll(&mut state, 7, 2).map(|_| ()), ErrorClass::BadResource, "Bad resource ID");
}

#[test]
fn signal_poll_reports_signals_and_the_end() {
    let mut state = allowed();
    signal_bind_done(&mut state, Ok(70)).unwrap();
    op_signal_poll(&mut state, 0, 1).unwrap();
    assert!(matches!(op_signal_poll(&mut state, 0, 2).unwrap(), SignalWork::Poll { queued: true, .. }));
    let (poll, woken) = signal_poll_step(&mut state, 0, 1, SignalEvent::Signal);
    assert_eq!((poll, woken), (Poll::Ready(Ok(false)), Some(2)));
    let (poll, woken) = signal_poll_step(&mut state, 0, 2, SignalEvent::End);
    assert_eq!((poll, woken), (Poll::Ready(Ok(true)), None));

    state.unstable = false;
    fails(
        op_signal_bind(&state, 2).map(|_| ()),
        ErrorClass::NotSupported,
        "Unstable API 'Deno.signal'. The --unstable flag must be provided.",
    );
    assert_eq!(WindowsSignal::from_signo(2), Some(WindowsSignal::SIGINT));
    assert_eq!(WindowsSignal::from_signo(21), Some(WindowsSignal::SIGBREAK));
    assert_eq!(WindowsSignal::from_signo(15), None);
}

#[test]
fn state_is_free_while_a_call_is_suspended() {
    // A call that reads the permissions is suspended on native work; a
    // second call that needs them is dispatched before the first finishes.
    let mut rt = Registrar::new(OpTable::new(CollisionPolicy::Reject));
    op_runtime::net::init(&mut rt).unwrap();
    let registry = rt.into_table().seal();
    let mut state = allowed();

    let first = registry.dispatch(&mut state, "op_listen", 1, OpArgs::Listen(listen("tcp", ip("a", 1))), None);
    let pending = match first {
        Op::Async(pending) => pending,
        other => panic!("{:?}", other),
    };
    assert_eq!(pending.promise_id, 1);

    let second = registry.dispatch(&mut state, "op_listen", 2, OpArgs::Listen(listen("tcp", ip("b", 2))), None);
    assert_eq!(second.convention(), Convention::Async);

    match pending.work {
        NativeWork::Net(NetWork::Listen { kind, transport, .. }) => {
            let listener = listen_done(&mut state, kind, &transport, Ok(bound(1, 1))).unwrap();
            assert_eq!(listener.rid, 0);
        }
        other => panic!("{:?}", other),
    }
}

#[test]
fn net_ops_are_registered_by_name() {
    let mut rt = Registrar::new(OpTable::new(CollisionPolicy::Reject));
    op_runtime::net::init(&mut rt).unwrap();
    op_runtime::signal::init(&mut rt).unwrap();
    assert!(op_runtime::signal::init(&mut rt).is_err());
    let registry = rt.into_table().seal();
    let names = [
        "op_accept", "op_connect", "op_shutdown", "op_listen", "op_datagram_receive",
        "op_datagram_send", "op_signal_bind", "op_signal_unbind", "op_signal_poll",
    ];
    for (id, name) in names.iter().enumerate() {
        assert_eq!(registry.find(name), Some(id));
    }
    assert_eq!(registry.len(), 9);

    let mut state = allowed();
    let op = registry.dispatch(&mut state, "op_accept", 4, OpArgs::Number(1), None);
    match op {
        Op::Sync(OpResponse::Value(result)) => {
            assert_eq!(result.promise_id, Some(4));
            assert_eq!(result.result.unwrap_err().message, "Invalid arguments");
        }
        other => panic!("{:?}", other),
    }
    let op = registry.dispatch(&mut state, "op_signal_unbind", 5, OpArgs::Number(3), None);
    match op {
        Op::Sync(OpResponse::Value(result)) => {
            assert_eq!(result.promise_id, None);
            assert_eq!(result.result.unwrap_err().class, ErrorClass::BadResource);
        }
        other => panic!("{:?}", other),
    }
}

fn command(cmd: &str) -> CommandArgs {
    CommandArgs {
        cmd: cmd.to_string(),
        args: vec![],
        cwd: None,
        clear_env: false,
        env: vec![],
        gid: None,
        uid: None,
        stdio: CommandStdio { stdin: None, stdout: None, stderr: None },
    }
}

#[test]
fn spawn_registers_pipes_before_the_child() {
    let mut state = allowed();
    assert!(matches!(op_command_spawn(&state, command("ls")).unwrap(), CommandWork::Spawn(_)));
    let spawned = Spawned { child: 40, pid: 4242, stdin: Some(41), stdout: None, stderr: Some(43) };
    let child = command_spawned(&mut state, Ok(spawned)).unwrap();
    assert_eq!(
        child,
        Child { rid: 2, pid: 4242, stdin_rid: Some(0), stdout_rid: None, stderr_rid: Some(1) }
    );
    assert_eq!(state.resource_table.get(0, ResourceKind::ChildStdin).unwrap().handle, 41);
    assert_eq!(state.resource_table.get(1, ResourceKind::ChildStderr).unwrap().handle, 43);
    assert_eq!(state.resource_table.get(2, ResourceKind::Child).unwrap().handle, 40);
    let names: Vec<(u32, String)> = state.resource_table.entries();
    assert_eq!(names[2], (2, "child".to_string()));

    let mut denied = allowed();
    denied.permissions = Some(Permissions { run: false, ..Permissions::allow_all() });
    fails(
        op_command_spawn(&denied, command("ls")).map(|_| ()),
        ErrorClass::PermissionDenied,
        "Requires run access to ls",
    );
    let mut stable = allowed();
    stable.unstable = false;
    let mut with_uid = command("ls");
    with_uid.uid = Some(0);
    fails(
        op_command_spawn(&stable, with_uid).map(|_| ()),
        ErrorClass::NotSupported,
        "Unstable API 'Deno.Command.uid'. The --unstable flag must be provided.",
    );
}

#[test]
fn wait_takes_the_child_out_of_the_table() {
    let mut state = allowed();
    let spawned = Spawned { child: 40, pid: 1, stdin: Some(41), stdout: Some(42), stderr: None };
    let child = command_spawned(&mut state, Ok(spawned)).unwrap();

    // a pipe that is missing leaves the child where it is
    fails(
        op_command_wait(&mut state, child.rid, Some(9)).map(|_| ()),
        ErrorClass::BadResource,
        "Bad resource ID",
    );
    assert!(state.resource_table.has(child.rid));

    assert!(matches!(op_command_status(&mut state, child.rid, 7).unwrap(), CommandWork::Status { child: 40, .. }));
    fails(op_command_wait(&mut state, child.rid, None).map(|_| ()), ErrorClass::Busy, "Resource is busy");
    fails(op_command_status(&mut state, child.rid, 8).map(|_| ()), ErrorClass::Busy, "Child is busy");
    assert_eq!(command_status_done(&mut state, child.rid, 7, Ok(None)).unwrap(), None);

    let work = op_command_wait(&mut state, child.rid, child.stdin_rid).unwrap();
    assert!(matches!(work, CommandWork::Wait { child: 40, stdin: Some(41) }));
    assert!(!state.resource_table.has(child.rid));
    assert!(!state.resource_table.has(0));
    assert!(state.resource_table.has(1));

    let status = command_wait_done(Ok(ExitStatus { code: Some(3), signal: None })).unwrap();
    assert_eq!(status, CommandStatus { success: false, code: 3, signal: None });
}

#[test]
fn output_takes_the_pipes_that_are_named() {
    let mut state = allowed();
    let spawned = Spawned { child: 40, pid: 1, stdin: None, stdout: Some(42), stderr: Some(43) };
    let child = command_spawned(&mut state, Ok(spawned)).unwrap();
    let args = ChildStdio { rid: child.rid, stdout_rid: child.stdout_rid, stderr_rid: None };
    let work = op_command_output(&mut state, args).unwrap();
    assert!(matches!(work, CommandWork::Output { child: 40, stdout: Some(42), stderr: None }));
    assert_eq!(state.resource_table.len(), 1);

    let output = Output {
        status: ExitStatus { code: None, signal: Some(9) },
        stdout: b"out".to_vec(),
        stderr: b"err".to_vec(),
    };
    let reported = command_output_done(args, Ok(output)).unwrap();
    assert_eq!(reported.status, CommandStatus { success: false, code: 137, signal: Some(9) });
    assert_eq!(reported.stdout, Some(b"out".to_vec()));
    assert_eq!(reported.stderr, None);
}

#[test]
fn exit_status_as_the_caller_sees_it() {
    let ok = ExitStatus { code: Some(0), signal: None };
    assert_eq!(CommandStatus::from_exit(ok), CommandStatus { success: true, code: 0, signal: None });
    let killed = ExitStatus { code: Some(1), signal: Some(15) };
    assert_eq!(
        CommandStatus::try_from_exit(killed),
        Some(CommandStatus { success: false, code: 143, signal: Some(15) })
    );
    assert_eq!(CommandStatus::try_from_exit(ExitStatus { code: None, signal: None }), None);
    assert_eq!(CommandStatus::try_from_exit(ExitStatus { code: None, signal: Some(i32::MAX) }), None);
    fails(
        command_wait_done(Ok(ExitStatus { code: None, signal: None })).map(|_| ()),
        ErrorClass::Error,
        "Should have either an exit code or a signal.",
    );
}

fn algorithm(name: Algorithm) -> WebCryptoAlgorithmArg {
    WebCryptoAlgorithmArg {
        name,
        public_exponent: None,
        modulus_length: None,
        hash: None,
        length: None,
        named_curve: None,
    }
}

#[test]
fn generate_key_checks_its_arguments() {
    let missing = |a: WebCryptoAlgorithmArg| match key_request(&a).unwrap_err() {
        WebCryptoError::MissingArgument(name) => name,
        WebCryptoError::Unsupported => "unsupported".to_string(),
    };
    assert_eq!(missing(algorithm(Algorithm::RsaPss)), "publicExponent");
    let mut rsa = algorithm(Algorithm::RsaOaep);
    rsa.public_exponent = Some(65537);
    assert_eq!(missing(rsa), "modulusLength");
    rsa.modulus_length = Some(2048);
    assert_eq!(key_request(&rsa).unwrap(), KeyRequest::Rsa { exponent: 65537, modulus_length: 2048 });
    assert_eq!(missing(algorithm(Algorithm::Ecdh)), "namedCurve");
    assert_eq!(missing(algorithm(Algorithm::Hmac)), "hash");
    assert_eq!(missing(algorithm(Algorithm::AesGcm)), "unsupported");
    let mut curve = algorithm(Algorithm::Ecdsa);
    curve.named_curve = Some(WebCryptoNamedCurve::P521);
    assert_eq!(missing(curve), "unsupported");
    curve.named_curve = Some(WebCryptoNamedCurve::P384);
    assert_eq!(key_request(&curve).unwrap(), KeyRequest::Ecdsa { curve: WebCryptoNamedCurve::P384 });

    let args = WebCryptoGenerateKeyArg { algorithm: algorithm(Algorithm::Hmac), extractable: true, key_usages: vec![] };
    fails(op_webcrypto_generate_key(args).map(|_| ()), ErrorClass::Error, "Missing argument hash");
    let args = WebCryptoGenerateKeyArg { algorithm: algorithm(Algorithm::AesKw), extractable: true, key_usages: vec![] };
    fails(op_webcrypto_generate_key(args).map(|_| ()), ErrorClass::Error, "Unsupported algorithm");
    assert_eq!(WebCryptoError::Unsupported.message(), "Unsupported algorithm");
}

#[test]
fn generated_keys_are_registered_private_first() {
    let mut state = OpState::new();
    let mut rsa = algorithm(Algorithm::RsassaPkcs1v15);
    rsa.public_exponent = Some(3);
    rsa.modulus_length = Some(1024);
    rsa.hash = Some(WebCryptoHash::Sha256);
    let args = WebCryptoGenerateKeyArg { algorithm: rsa, extractable: false, key_usages: vec![] };
    let call = match op_webcrypto_generate_key(args).unwrap() {
        CryptoWork::GenerateKey(call) => call,
        other => panic!("{:?}", other),
    };
    let generated = Generated::Pair { private_key: 50, public_key: 51 };
    match generate_key_done(&mut state, call, Ok(generated)).unwrap() {
        JSCryptoKey::Pair { key, private_rid, public_rid } => {
            assert_eq!((private_rid, public_rid), (0, 1));
            assert_eq!(key.public_key.key_type, KeyType::Public);
            assert_eq!(key.private_key.key_type, KeyType::Private);
            assert!(!key.private_key.extractable);
        }
        other => panic!("{:?}", other),
    }
    let private = state.resource_table.get(0, ResourceKind::RsaPrivateKey).unwrap();
    assert_eq!((private.handle, private.key_hash, private.name()), (50, Some(WebCryptoHash::Sha256), "RSAPrivateCryptoKey"));
    assert_eq!(state.resource_table.get(1, ResourceKind::RsaPublicKey).unwrap().handle, 51);

    fails(
        generate_key_done(&mut state, call, Ok(Generated::Single { key: 1 })).map(|_| ()),
        ErrorClass::TypeError,
        "Invalid key material",
    );
    assert_eq!(state.resource_table.len(), 2);

    let sign = |state: &OpState, rid, algorithm, salt_length| {
        op_webcrypto_sign_key(state, WebCryptoSignArg { rid, algorithm, salt_length, hash: None })
    };
    assert_eq!(
        sign(&state, 0, Algorithm::RsassaPkcs1v15, None).unwrap(),
        CryptoWork::Sign { key: 50, scheme: SignScheme::Pkcs1v15 }
    );
    assert_eq!(
        sign(&state, 0, Algorithm::RsaOaep, Some(20)).unwrap(),
        CryptoWork::Sign { key: 50, scheme: SignScheme::Pss { hash: WebCryptoHash::Sha256, salt_len: 20 } }
    );
    fails(sign(&state, 0, Algorithm::RsaOaep, None).map(|_| ()), ErrorClass::Error, "Missing argument saltLength");
    fails(sign(&state, 1, Algorithm::RsassaPkcs1v15, None).map(|_| ()), ErrorClass::BadResource, "Bad resource ID");
    fails(sign(&state, 0, Algorithm::Hmac, None).map(|_| ()), ErrorClass::BadResource, "Bad resource ID");
    fails(sign(&state, 0, Algorithm::Ecdh, None).map(|_| ()), ErrorClass::Error, "Unsupported algorithm");

    state.seeded_rng = Some(99);
    assert_eq!(op_crypto_get_random_values(&state), CryptoWork::RandomValues { seeded_rng: Some(99) });
}

#[test]
fn storage_calls_name_the_statement() {
    let mut state = OpState::new();
    fails(
        op_webstorage_open(&state, OpenArgs { persistent: true }).map(|_| ()),
        ErrorClass::Error,
        "Missing state: LocationDataDir",
    );
    state.location_data_dir = Some(LocationDataDir(Some("/data/origin".to_string())));
    match op_webstorage_open(&state, OpenArgs { persistent: true }).unwrap() {
        StorageWork::Open { location, create_table } => {
            assert_eq!(location.as_deref(), Some("/data/origin"));
            assert_eq!(create_table, "CREATE TABLE IF NOT EXISTS data (key VARCHAR UNIQUE, value VARCHAR)");
        }
        other => panic!("{:?}", other),
    }
    match op_webstorage_open(&state, OpenArgs { persistent: false }).unwrap() {
        StorageWork::Open { location, create_table } => {
            assert_eq!(location, None);
            assert_eq!(create_table, "CREATE TABLE data (key VARCHAR UNIQUE, value VARCHAR)");
        }
        other => panic!("{:?}", other),
    }
    assert_eq!(webstorage_opened(&mut state, Ok(60)).unwrap(), 0);

    let sql = |work: StorageWork| match work {
        StorageWork::Query { connection, statement } => {
            (connection, statement.sql(), statement.then_sql())
        }
        other => panic!("{:?}", other),
    };
    assert_eq!(
        sql(op_webstorage_length(&state, LengthArgs { rid: 0 }).unwrap()),
        (60, "SELECT COUNT(*) FROM data", None)
    );
    assert_eq!(
        sql(op_webstorage_key(&state, KeyArgs { rid: 0, index: 3 }).unwrap()).1,
        "SELECT key FROM data LIMIT 1 OFFSET ?"
    );
    let set = SetArgs { rid: 0, key_name: "k".to_string(), key_value: "v".to_string() };
    match op_webstorage_set(&state, set).unwrap() {
        StorageWork::Query { statement: Statement::SetItem { key_name, key_value }, .. } => {
            assert_eq!((key_name.as_str(), key_value.as_str()), ("k", "v"));
        }
        other => panic!("{:?}", other),
    }
    assert_eq!(
        sql(op_webstorage_get(&state, GetArgs { rid: 0, key_name: "k".to_string() }).unwrap()).1,
        "SELECT value FROM data WHERE key = ?"
    );
    assert_eq!(
        sql(op_webstorage_remove(&state, RemoveArgs { rid: 0, key_name: "k".to_string() }).unwrap()).1,
        "DELETE FROM data WHERE key = ?"
    );
    assert_eq!(
        sql(op_webstorage_clear(&state, ClearArgs { rid: 0 }).unwrap()),
        (60, "DROP TABLE data", Some("CREATE TABLE data (key VARCHAR UNIQUE, value VARCHAR)"))
    );
    fails(
        op_webstorage_length(&state, LengthArgs { rid: 1 }).map(|_| ()),
        ErrorClass::BadResource,
        "Bad resource ID",
    );
}

#[test]
fn sampler_words_are_read() {
    assert_eq!(serialize_compare_function("never"), CompareFunction::Never);
    assert_eq!(serialize_compare_function("less-equal"), CompareFunction::LessEqual);
    assert_eq!(serialize_compare_function("greater-equal"), CompareFunction::GreaterEqual);
    assert_eq!(serialize_compare_function("always"), CompareFunction::Always);
    assert_eq!(parse_compare_function("sometimes"), None);
    assert_eq!(parse_compare_function("less"), Some(CompareFunction::Less));
    assert_eq!(parse_compare_function("equal"), Some(CompareFunction::Equal));
    assert_eq!(parse_compare_function("greater"), Some(CompareFunction::Greater));
    assert_eq!(parse_compare_function("not-equal"), Some(CompareFunction::NotEqual));
    assert_eq!(serialize_address_mode(None), AddressMode::ClampToEdge);
    assert_eq!(serialize_address_mode(Some("mirror-repeat".to_string())), AddressMode::MirrorRepeat);
    assert_eq!(parse_address_mode(&Some("repeat".to_string())), Some(AddressMode::Repeat));
    assert_eq!(parse_address_mode(&Some("clamp".to_string())), None);
    assert_eq!(serialize_filter_mode(None), FilterMode::Nearest);
    assert_eq!(serialize_filter_mode(Some("linear".to_string())), FilterMode::Linear);
    assert_eq!(parse_filter_mode(&Some("cubic".to_string())), None);
}

fn sampler_args() -> CreateSamplerArgs {
    CreateSamplerArgs {
        instance_rid: 0,
        device_rid: 1,
        label: Some("s".to_string()),
        address_mode_u: Some("repeat".to_string()),
        address_mode_v: None,
        address_mode_w: None,
        mag_filter: Some("linear".to_string()),
        min_filter: None,
        mipmap_filter: None,
        compare: Some("less".to_string()),
        max_anisotropy: Some(0),
    }
}

#[test]
fn sampler_and_swapchain_calls_name_their_objects() {
    let mut state = OpState::new();
    assert_eq!(gpu_object_created(&mut state, ResourceKind::WebGpuInstance, Ok(80)).unwrap(), 0);
    fails(
        op_webgpu_create_sampler(&state, sampler_args()).map(|_| ()),
        ErrorClass::BadResource,
        "Bad resource ID",
    );
    assert_eq!(gpu_object_created(&mut state, ResourceKind::WebGpuDevice, Ok(81)).unwrap(), 1);
    let work = op_webgpu_create_sampler(&state, sampler_args()).unwrap();
    assert_eq!((work.instance, work.device), (80, 81));
    assert_eq!(work.descriptor.address_mode_u, AddressMode::Repeat);
    assert_eq!(work.descriptor.address_mode_v, AddressMode::ClampToEdge);
    assert_eq!(work.descriptor.mag_filter, FilterMode::Linear);
    assert_eq!(work.descriptor.compare, Some(CompareFunction::Less));
    assert_eq!(work.descriptor.anisotropy_clamp, None);
    let mut bad = sampler_args();
    bad.max_anisotropy = Some(4);
    bad.min_filter = Some("smooth".to_string());
    fails(
        op_webgpu_create_sampler(&state, bad).map(|_| ()),
        ErrorClass::TypeError,
        "Invalid sampler descriptor",
    );
    assert_eq!(gpu_object_created(&mut state, ResourceKind::WebGpuSampler, Ok(82)).unwrap(), 2);

    gpu_object_created(&mut state, ResourceKind::WebGpuAdapter, Ok(83)).unwrap();
    gpu_object_created(&mut state, ResourceKind::WebGpuSwapChain, Ok(84)).unwrap();
    let format = GetSwapchainPreferredFormat { adapter_rid: 3, swapchain_rid: 4 };
    fails(
        op_webgpu_get_swapchain_preferred_format(&state, format).map(|_| ()),
        ErrorClass::Error,
        "Missing state: Instance",
    );
    state.gpu_instance = Some(80);
    assert!(matches!(
        op_webgpu_get_swapchain_preferred_format(&state, format).unwrap(),
        SwapchainWork::PreferredFormat { instance: 80, adapter: 83, swapchain: 84 }
    ));
    let configure = ConfigureSwapchainArgs {
        device_rid: 1,
        swapchain_rid: 4,
        format: "bgra8unorm".to_string(),
        usage: 16,
        width: 640,
        height: 480,
    };
    assert!(matches!(
        op_webgpu_configure_swapchain(&state, configure).unwrap(),
        SwapchainWork::Configure { device: 81, swapchain: 84, usage: 16, width: 640, height: 480, .. }
    ));
    let swapped = GetSwapchainPreferredFormat { adapter_rid: 4, swapchain_rid: 3 };
    fails(
        op_webgpu_get_swapchain_preferred_format(&state, swapped).map(|_| ()),
        ErrorClass::BadResource,
        "Bad resource ID",
    );
}

#[test]
fn resources_of_a_module_hold_a_share() {
    let mut state = allowed();
    let args = OpenPluginArgs { filename: "libx.so".to_string() };
    assert!(matches!(op_open_plugin(&state, args).unwrap(), PluginWork::Open { .. }));
    assert_eq!(plugin_opened(&mut state, Ok(90)).unwrap(), 0);
    assert_eq!(state.resource_table.get(0, ResourceKind::Plugin).unwrap().keep_alive, Some(90));

    let rid = op_runtime::plugin::add(
        &mut state.resource_table,
        90,
        Resource::new(ResourceKind::TcpStream, 91),
    );
    assert_eq!(rid, 1);
    assert_eq!(state.resource_table.get(1, ResourceKind::TcpStream).unwrap().keep_alive, Some(90));
    let taken = op_runtime::plugin::remove(&mut state.resource_table, 1, ResourceKind::TcpStream).unwrap();
    assert_eq!((taken.handle, taken.keep_alive), (91, None));
    assert!(op_runtime::plugin::remove(&mut state.resource_table, 1, ResourceKind::TcpStream).is_err());

    state.permissions = Some(Permissions { plugin: false, ..Permissions::allow_all() });
    let args = OpenPluginArgs { filename: "libx.so".to_string() };
    fails(
        op_open_plugin(&state, args).map(|_| ()),
        ErrorClass::PermissionDenied,
        "Requires plugin access to libx.so",
    );
}
