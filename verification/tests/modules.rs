use op_runtime::cancel::{or_cancel, CancelHandle, Canceled, Poll};
use op_runtime::error::{
    bad_resource, bad_resource_id, custom_error, generic_error, not_supported, type_error,
    ErrorClass, ErrorKind, OpError,
};
use op_runtime::extensions::{OpPair, Registrar};
use op_runtime::napi::{status_of, Error, NapiState, ThreadSafeFunctionStatus, NAPI_OK};
use op_runtime::op_state::{OpState, Permissions};
use op_runtime::ops::{
    serialize_op_result, BufVec, CollisionPolicy, Convention, NativeWork, Op, OpArgs, OpBuf, OpFn,
    OpHandler, OpResponse, OpTable, OpValue, PendingOp, PromiseId,
};
use op_runtime::ops_bin::{
    bin_op_async, bin_op_sync, resolve_bin_op, serialize_bin_result, BinOpAsync, BinOpSync,
    ValueOrVector,
};
use op_runtime::resources::{Resource, ResourceKind, ResourceTable};
use op_runtime::runtime_modules::{boxed, BasicModule, JsRuntimeModule, MultiModule};

struct Noop;

impl OpHandler for Noop {
    fn call(&self, _: &mut OpState, _: PromiseId, _: OpArgs, _: OpBuf) -> Op {
        op_runtime::ops::finished(Ok(OpValue::Unit))
    }
}

fn ops_named(names: &[&'static str]) -> Vec<OpPair> {
    names.iter().map(|name| (*name, OpFn { handler: Box::new(Noop) })).collect()
}

#[test]
fn error_classes_and_kinds() {
    let cases = [
        (bad_resource_id(), "BadResource", ErrorKind::NotFound, "Bad resource ID"),
        (bad_resource("gone"), "BadResource", ErrorKind::NotFound, "gone"),
        (custom_error(ErrorClass::Busy, "b"), "Busy", ErrorKind::Busy, "b"),
        (custom_error(ErrorClass::Interrupted, "i"), "Interrupted", ErrorKind::Cancelled, "i"),
        (
            custom_error(ErrorClass::PermissionDenied, "p"),
            "PermissionDenied",
            ErrorKind::PermissionDenied,
            "p",
        ),
        (type_error("t"), "TypeError", ErrorKind::Underlying, "t"),
        (generic_error("g"), "Error", ErrorKind::Underlying, "g"),
        (custom_error(ErrorClass::NotConnected, "n"), "NotConnected", ErrorKind::Underlying, "n"),
        (
            not_supported(),
            "NotSupported",
            ErrorKind::Underlying,
            "The operation is not supported",
        ),
    ];
    for (error, class, kind, message) in cases {
        assert_eq!(error.class.name(), class);
        assert_eq!(error.kind(), kind);
        assert_eq!(error.message, message);
    }
    assert_eq!(op_runtime::error::message_with("a ", "b"), "a b");
}

#[test]
fn permissions_grant_or_refuse() {
    let all = Permissions::allow_all();
    assert!(all.check_net("h").is_ok() && all.check_read("p").is_ok());
    assert!(all.check_write("p").is_ok() && all.check_run("c").is_ok() && all.check_plugin("l").is_ok());
    let none = Permissions::none();
    assert_eq!(none.check_net("h").unwrap_err().message, "Requires net access to h");
    assert_eq!(none.check_read("p").unwrap_err().message, "Requires read access to p");
    assert_eq!(none.check_write("p").unwrap_err().message, "Requires write access to p");
    assert_eq!(none.check_run("c").unwrap_err().message, "Requires run access to c");
    assert_eq!(none.check_plugin("l").unwrap_err().kind(), ErrorKind::PermissionDenied);
    let state = OpState::new();
    assert_eq!(state.borrow_permissions().unwrap_err().message, "Missing state: Permissions");
    assert_eq!(state.check_unstable("X").unwrap_err().class, ErrorClass::NotSupported);
}

#[test]
fn cancelled_wait_resolves_at_the_next_point() {
    let mut cancel = CancelHandle::new();
    assert!(!cancel.is_canceled());
    assert_eq!(or_cancel::<u8>(None, &cancel), Poll::Pending);
    assert_eq!(or_cancel(Some(5u8), &cancel), Poll::Ready(Ok(5)));
    cancel.cancel();
    assert!(cancel.is_canceled());
    assert_eq!(or_cancel::<u8>(None, &cancel), Poll::Ready(Err(Canceled)));
    // a cancelled wait does not go on, whatever it has
    assert_eq!(or_cancel(Some(5u8), &cancel), Poll::Ready(Err(Canceled)));
    assert!(!CancelHandle::default().is_canceled());
}

#[test]
fn closing_triggers_the_cancel_handle() {
    let mut table = ResourceTable::new();
    let rid = table.add(Resource::cancellable(ResourceKind::SignalStream, 1));
    table.get_mut(rid, ResourceKind::SignalStream).unwrap().cell.borrow_mut(9);
    assert!(!table.get(rid, ResourceKind::SignalStream).unwrap().is_cancelled());
    let closed = table.close(rid).unwrap();
    assert!(closed.is_cancelled());
    assert!(closed.cell.is_held_by(9));
    assert_eq!(closed.name(), "signal");
    assert!(table.close(rid).is_err());
    assert!(!table.has(rid));
}

#[test]
fn ids_are_never_shared() {
    let mut table = ResourceTable::new();
    let a = table.add(Resource::new(ResourceKind::TcpStream, 1));
    let b = table.add(Resource::new(ResourceKind::UdpSocket, 2));
    table.close(a).unwrap();
    let c = table.add(Resource::new(ResourceKind::Child, 3));
    assert_eq!((a, b, c), (0, 1, 2));
    assert_eq!(table.len(), 2);
    assert_eq!(table.entries(), vec![(1, "udpSocket".to_string()), (2, "child".to_string())]);
    // a lookup names the type that it expects
    assert!(table.get(b, ResourceKind::TcpStream).is_err());
    assert_eq!(table.take(b, ResourceKind::TcpStream).unwrap_err().kind(), ErrorKind::NotFound);
    assert_eq!(table.take(b, ResourceKind::UdpSocket).unwrap().handle, 2);
    assert_eq!(table.next(), 3);
    assert!(!table.is_full());
}

struct Double;

impl BinOpSync for Double {
    type Output = u32;

    fn run(&self, state: &mut OpState, arg: u32, bufs: BufVec) -> Result<u32, OpError> {
        state.metrics.ops_completed += bufs.len() as u64;
        if arg > 1000 {
            Err(type_error("too big"))
        } else {
            Ok(arg * 2)
        }
    }
}

struct Prefix;

impl BinOpSync for Prefix {
    type Output = Vec<u8>;

    fn run(&self, _: &mut OpState, arg: u32, bufs: BufVec) -> Result<Vec<u8>, OpError> {
        Ok(bufs[0][..arg as usize].to_vec())
    }
}

struct Later;

impl BinOpAsync for Later {
    fn start(&self, _: &mut OpState, arg: u32, _: BufVec) -> NativeWork {
        NativeWork::Custom(arg)
    }
}

fn value_of(op: Op) -> (Option<PromiseId>, Result<OpValue, OpError>) {
    match op {
        Op::Sync(OpResponse::Value(result)) => (result.promise_id, result.result),
        other => panic!("{:?}", other),
    }
}

#[test]
fn binary_ops_take_a_number_and_a_buffer() {
    let mut state = OpState::new();
    let double = bin_op_sync(Double);
    let (pid, result) = value_of(double.call(&mut state, 7, OpArgs::Number(21), Some(vec![1])));
    assert_eq!(pid, None);
    assert!(matches!(result, Ok(OpValue::Number(42))));
    assert_eq!(state.metrics.ops_completed, 1);

    let (_, result) = value_of(double.call(&mut state, 7, OpArgs::Number(21), None));
    let error = result.unwrap_err();
    assert_eq!((error.class, error.message.as_str()), (ErrorClass::TypeError, "bin-ops require a non-null buffer arg"));
    let (_, result) = value_of(double.call(&mut state, 7, OpArgs::Unit, Some(vec![])));
    assert_eq!(result.unwrap_err().message, "bin-ops require a numeric arg");
    let (_, result) = value_of(double.call(&mut state, 7, OpArgs::Number(2000), Some(vec![])));
    assert_eq!(result.unwrap_err().message, "too big");
    assert_eq!(state.metrics.ops_completed, 2);

    let prefix = bin_op_sync(Prefix);
    match prefix.call(&mut state, 0, OpArgs::Number(2), Some(vec![9, 8, 7])) {
        Op::Sync(OpResponse::Buffer(bytes)) => assert_eq!(bytes, vec![9, 8]),
        other => panic!("{:?}", other),
    }
}

#[test]
fn asynchronous_binary_op_answers_its_promise() {
    let mut state = OpState::new();
    let later = bin_op_async(Later);
    let pending = match later.call(&mut state, 11, OpArgs::Number(5), Some(vec![0])) {
        Op::Async(pending) => pending,
        other => panic!("{:?}", other),
    };
    assert_eq!(pending.promise_id, 11);
    assert!(matches!(pending.work, NativeWork::Custom(5)));
    match resolve_bin_op(pending, Ok(77u32)) {
        OpResponse::Value(result) => {
            assert_eq!(result.promise_id, Some(11));
            assert!(matches!(result.result, Ok(OpValue::Number(77))));
        }
        other => panic!("{:?}", other),
    }
    // without a buffer the call is refused at once
    let refused = later.call(&mut state, 12, OpArgs::Number(5), None);
    assert_eq!(refused.convention(), Convention::Sync);

    let pending = PendingOp { promise_id: 3, work: NativeWork::Custom(0) };
    match resolve_bin_op::<u32>(pending, Err(generic_error("failed"))) {
        OpResponse::Value(result) => {
            assert_eq!(result.promise_id, Some(3));
            assert_eq!(result.result.unwrap_err().message, "failed");
        }
        other => panic!("{:?}", other),
    }
}

#[test]
fn value_or_vector() {
    assert_eq!(7u32.value(), 7);
    assert_eq!(7u32.vector(), None);
    assert_eq!(vec![1u8, 2, 3].value(), 3);
    assert_eq!(vec![1u8, 2, 3].vector(), Some(vec![1, 2, 3]));
    assert!(matches!(serialize_bin_result(Some(1), Ok(vec![4u8])), OpResponse::Buffer(b) if b == vec![4]));
    assert!(matches!(
        serialize_op_result(Some(2), Ok(OpValue::Bool(true))),
        OpResponse::Value(r) if r.promise_id == Some(2)
    ));
}

#[test]
fn modules_are_set_up_in_the_order_of_the_list() {
    let first = BasicModule::with_ops(vec![("1.js", "one")], ops_named(&["a", "b"]), None);
    let second = BasicModule::pure_js(vec![("2.js", "two"), ("3.js", "three")]);
    let init = op_runtime::webstorage::put_location_data_dir(None);
    let third = BasicModule::new(None, Some(ops_named(&["c"])), Some(init));
    let mut all = MultiModule::new(vec![boxed(first), boxed(second), boxed(third)]);

    assert_eq!(all.init_js().unwrap(), vec![("1.js", "one"), ("2.js", "two"), ("3.js", "three")]);
    let mut state = OpState::new();
    all.init_state(&mut state).unwrap();
    assert!(state.location_data_dir.is_some());

    let registrar = all.init_op_registrar_middleware(Registrar::new(OpTable::new(CollisionPolicy::Reject)));
    assert_eq!(registrar.depth(), 0);
    let mut registrar = registrar;
    all.init_ops(&mut registrar).unwrap();
    // the ops are handed out once
    assert!(all.init_ops(&mut registrar).is_err());
    let table = registrar.into_table();
    assert_eq!((table.find("a"), table.find("b"), table.find("c")), (Some(0), Some(1), Some(2)));
    assert_eq!(table.policy(), CollisionPolicy::Reject);
}

#[test]
fn first_failure_ends_the_run_of_a_group() {
    let first = BasicModule::with_ops(vec![], ops_named(&["a"]), None);
    let second = BasicModule::with_ops(vec![], ops_named(&["a"]), None);
    let third = BasicModule::with_ops(vec![], ops_named(&["z"]), None);
    let mut all = MultiModule::new(vec![boxed(first), boxed(second), boxed(third)]);
    let mut registrar = Registrar::new(OpTable::new(CollisionPolicy::Reject));
    let error = all.init_ops(&mut registrar).unwrap_err();
    assert_eq!(error.message, "Op already registered: a");
    assert!(registrar.has_op("a"));
    assert!(!registrar.has_op("z"));

    // where a later registration wins, nothing fails
    let first = BasicModule::with_ops(vec![], ops_named(&["a"]), None);
    let second = BasicModule::with_ops(vec![], ops_named(&["a", "z"]), None);
    let mut all = MultiModule::new(vec![boxed(first), boxed(second)]);
    let mut registrar = Registrar::new(OpTable::new(CollisionPolicy::LastWins));
    all.init_ops(&mut registrar).unwrap();
    assert_eq!(registrar.into_table().len(), 2);
}

#[test]
fn extensions_of_the_modules() {
    let console = op_runtime::console::init("colors", "console");
    assert_eq!(
        console.init_js().unwrap(),
        vec![
            ("deno:op_crates/console/01_colors.js", "colors"),
            ("deno:op_crates/console/02_console.js", "console"),
        ]
    );
    assert_eq!(op_runtime::console::get_declaration(), "lib.deno_console.d.ts");
    assert_eq!(op_runtime::crypto::get_declaration(), "lib.deno_crypto.d.ts");

    let webidl = op_runtime::webidl::init("idl");
    assert_eq!(webidl.init_js().unwrap(), vec![("deno:op_crates/webidl/00_webidl.js", "idl")]);

    let mut registrar = Registrar::new(OpTable::new(CollisionPolicy::Reject));
    let mut state = OpState::new();
    let mut crypto = op_runtime::crypto::init("c");
    assert_eq!(crypto.init_js().unwrap(), vec![("deno:op_crates/crypto/01_crypto.js", "c")]);
    crypto.init_ops(&mut registrar).unwrap();
    let mut storage = op_runtime::webstorage::init("s", Some("/dir".to_string()));
    assert_eq!(storage.init_js().unwrap(), vec![("deno:op_crates/webstorage/01_webstorage.js", "s")]);
    storage.init_state(&mut state).unwrap();
    assert!(storage.init_state(&mut state).is_err());
    storage.init_ops(&mut registrar).unwrap();
    let mut command = op_runtime::command::init();
    assert_eq!(command.init_js().unwrap(), vec![]);
    command.init_ops(&mut registrar).unwrap();

    let registry = registrar.into_table().seal();
    let names = [
        "op_crypto_get_random_values", "op_webcrypto_generate_key", "op_webcrypto_sign_key",
        "op_webstorage_open", "op_webstorage_length", "op_webstorage_key", "op_webstorage_set",
        "op_webstorage_get", "op_webstorage_remove", "op_webstorage_clear", "op_command_spawn",
        "op_command_status", "op_command_wait", "op_command_output",
    ];
    for (id, name) in names.iter().enumerate() {
        assert_eq!(registry.find(name), Some(id));
    }
    assert_eq!(state.location_data_dir.unwrap().0.as_deref(), Some("/dir"));

    let mut state = OpState::new();
    state.seeded_rng = Some(4);
    let op = registry.dispatch(&mut state, "op_crypto_get_random_values", 1, OpArgs::Unit, Some(vec![0; 4]));
    assert!(matches!(
        op,
        Op::Async(PendingOp { promise_id: 1, work: NativeWork::Crypto(op_runtime::crypto::CryptoWork::RandomValues { seeded_rng: Some(4) }) })
    ));
    let op = registry.dispatch(&mut state, "op_command_status", 2, OpArgs::Number(0), None);
    assert_eq!(op.convention(), Convention::Sync);
}

#[test]
fn addon_status_codes_and_event_loop() {
    assert_eq!(status_of(Ok(())), NAPI_OK);
    assert_eq!(Error::InvalidArg.status(), 1);
    assert_eq!(Error::GenericFailure.status(), 9);
    assert_eq!(Error::Cancelled.status(), 11);
    assert_eq!(Error::QueueFull.status(), 15);
    assert_eq!(status_of(Err(Error::WouldDeadlock)), 21);

    let mut state = NapiState::new();
    assert_eq!(state.event_loop_turn(0, &vec![]), (0, false));
    let alive = ThreadSafeFunctionStatus::Alive;
    let dead = ThreadSafeFunctionStatus::Dead;
    assert_eq!(state.event_loop_turn(2, &vec![alive, alive, dead]), (2, true));
    assert_eq!(state.active_threadsafe_functions, 1);
    assert_eq!(state.event_loop_turn(0, &vec![]), (0, true));
    assert_eq!(state.event_loop_turn(0, &vec![dead, dead]), (0, false));
    assert_eq!(state.active_threadsafe_functions, 0);
    state.pending_async_work = 3;
    assert_eq!(state.event_loop_turn(1, &vec![]), (4, true));
    assert_eq!(state.pending_async_work, 0);
}

#[test]
fn module_is_held_while_a_resource_of_it_lives() {
    let mut table = ResourceTable::new();
    table.add(Resource::new(ResourceKind::TcpStream, 1));
    assert!(!table.holds_share(7));
    let rid = op_runtime::plugin::add(&mut table, 7, Resource::new(ResourceKind::UdpSocket, 2));
    assert!(table.holds_share(7));
    assert!(!table.holds_share(8));
    table.close(0).unwrap();
    assert!(table.holds_share(7));
    table.close(rid).unwrap();
    assert!(!table.holds_share(7));
    let again = op_runtime::plugin::try_add(&mut table, 7, Resource::new(ResourceKind::Child, 3));
    assert_eq!(again.unwrap(), 2);
    assert_eq!(table.get(2, ResourceKind::Child).unwrap().keep_alive, Some(7));
}
