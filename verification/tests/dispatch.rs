use op_runtime::error::{ErrorClass, OpError};
use op_runtime::extensions::{
    bootstrap, declare_ops_group, Extension, OpMiddleware, OpPair, OpRegistrar, Registrar,
};
use op_runtime::middleware::{layer_middleware, MetricsLayer, OpLayer, UnstableGate};
use op_runtime::op_state::OpState;
use op_runtime::ops::{
    CollisionPolicy, Convention, Op, OpArgs, OpBuf, OpFn, OpHandler, OpResponse, OpTable,
    OpValue, PromiseId,
};

struct Echo;

impl OpHandler for Echo {
    fn call(&self, _state: &mut OpState, _promise_id: PromiseId, args: OpArgs, _buf: OpBuf) -> Op {
        let value = match args {
            OpArgs::Number(n) => OpValue::Number(n),
            OpArgs::Text(s) => OpValue::Text(s),
            _ => OpValue::Unit,
        };
        op_runtime::ops::finished(Ok(value))
    }
}

fn echo() -> OpFn {
    OpFn { handler: Box::new(Echo) }
}

fn number_of(op: Op) -> u32 {
    match op {
        Op::Sync(OpResponse::Value(result)) => match result.result {
            Ok(OpValue::Number(n)) => n,
            other => panic!("not a number: {:?}", other),
        },
        other => panic!("not a finished call: {:?}", other),
    }
}

fn error_of(op: Op) -> OpError {
    match op {
        Op::Sync(OpResponse::Value(result)) => result.result.unwrap_err(),
        other => panic!("not a finished call: {:?}", other),
    }
}

#[test]
fn echo_returns_its_argument() {
    let mut table = OpTable::new(CollisionPolicy::Reject);
    assert_eq!(table.register("echo", echo()).unwrap(), 0);
    let registry = table.seal();
    let mut state = OpState::new();
    let op = registry.dispatch(&mut state, "echo", 1, OpArgs::Number(42), None);
    assert_eq!(number_of(op), 42);
}

#[test]
fn unknown_name_is_not_found() {
    let registry = OpTable::new(CollisionPolicy::Reject).seal();
    let mut state = OpState::new();
    let op = registry.dispatch(&mut state, "nope", 1, OpArgs::Unit, None);
    assert_eq!(op.convention(), Convention::NotFound);
    let op = registry.dispatch_id(&mut state, 0, 1, OpArgs::Unit, None);
    assert_eq!(op.convention(), Convention::NotFound);
}

#[test]
fn second_registration_is_refused_or_wins() {
    let mut strict = OpTable::new(CollisionPolicy::Reject);
    assert_eq!(strict.register("a", echo()).unwrap(), 0);
    assert_eq!(strict.register("b", echo()).unwrap(), 1);
    let err = strict.register("a", echo()).unwrap_err();
    assert_eq!(err.class, ErrorClass::TypeError);
    assert_eq!(err.message, "Op already registered: a");
    assert_eq!(strict.len(), 2);

    let mut lax = OpTable::new(CollisionPolicy::LastWins);
    assert_eq!(lax.register("a", echo()).unwrap(), 0);
    assert_eq!(lax.register("b", echo()).unwrap(), 1);
    assert_eq!(lax.register("a", echo()).unwrap(), 0);
    assert_eq!(lax.len(), 2);
    assert_eq!(lax.find("b"), Some(1));
}

/// A layer whose pre-logic and post-logic leave a trace in the counters of
/// the state: `ops_dispatched` is read as a list of decimal digits.
#[derive(Clone, Copy)]
struct Trace {
    before: u64,
    after: u64,
}

impl OpLayer for Trace {
    fn before(
        &self,
        state: &mut OpState,
        _name: &str,
        _promise_id: PromiseId,
        _args: &OpArgs,
    ) -> Option<OpResponse> {
        state.metrics.ops_dispatched = state.metrics.ops_dispatched * 10 + self.before;
        None
    }

    fn after(&self, state: &mut OpState, _name: &str, op: Op) -> Op {
        state.metrics.ops_dispatched = state.metrics.ops_dispatched * 10 + self.after;
        op
    }
}

struct Mark;

impl OpHandler for Mark {
    fn call(&self, state: &mut OpState, _promise_id: PromiseId, _args: OpArgs, _buf: OpBuf) -> Op {
        state.metrics.ops_dispatched = state.metrics.ops_dispatched * 10 + 5;
        op_runtime::ops::finished(Ok(OpValue::Unit))
    }
}

#[test]
fn stacked_middlewares_run_once_each_in_order() {
    let table = OpTable::new(CollisionPolicy::Reject);
    let outer = layer_middleware(Trace { before: 1, after: 9 });
    let inner = layer_middleware(Trace { before: 2, after: 8 });
    let registrar = OpMiddleware::new(Registrar::new(table), outer).into_registrar();
    let mut stacked = OpMiddleware::new(registrar, inner);
    assert_eq!(stacked.register_op("mark", OpFn { handler: Box::new(Mark) }).unwrap(), 0);
    let registry = stacked.into_registrar().into_table().seal();
    assert_eq!(registry.find("mark"), Some(0));

    let mut state = OpState::new();
    let op = registry.dispatch(&mut state, "mark", 1, OpArgs::Unit, None);
    assert_eq!(op.convention(), Convention::Sync);
    assert_eq!(state.metrics.ops_dispatched, 12589);
    registry.dispatch(&mut state, "mark", 2, OpArgs::Unit, None);
    assert_eq!(state.metrics.ops_dispatched, 1258912589);
}

#[test]
fn metrics_layer_counts_calls() {
    let table = OpTable::new(CollisionPolicy::Reject);
    let mut registrar =
        OpMiddleware::new(Registrar::new(table), layer_middleware(MetricsLayer)).into_registrar();
    registrar.register_op("echo", echo()).unwrap();
    let registry = registrar.into_table().seal();
    let mut state = OpState::new();
    for i in 0..3u32 {
        let op = registry.dispatch(&mut state, "echo", 0, OpArgs::Number(i), None);
        assert_eq!(number_of(op), i);
    }
    assert_eq!(state.metrics.ops_dispatched, 3);
    assert_eq!(state.metrics.ops_completed, 3);
}

#[test]
fn gate_answers_in_place_of_the_call() {
    let table = OpTable::new(CollisionPolicy::Reject);
    let mut registrar =
        OpMiddleware::new(Registrar::new(table), layer_middleware(UnstableGate)).into_registrar();
    registrar.register_op("mark", OpFn { handler: Box::new(Mark) }).unwrap();
    let registry = registrar.into_table().seal();

    let mut state = OpState::new();
    let err = error_of(registry.dispatch(&mut state, "mark", 0, OpArgs::Unit, None));
    assert_eq!(err.class, ErrorClass::PermissionDenied);
    assert_eq!(err.message, "Requires unstable access to mark");
    assert_eq!(state.metrics.ops_dispatched, 0);

    state.unstable = true;
    let op = registry.dispatch(&mut state, "mark", 0, OpArgs::Unit, None);
    assert_eq!(op.convention(), Convention::Sync);
    assert_eq!(state.metrics.ops_dispatched, 5);
}

fn ops_named(names: &[&'static str]) -> Vec<OpPair> {
    names.iter().map(|name| (*name, echo())).collect()
}

#[test]
fn groups_are_joined_in_order() {
    let all = declare_ops_group(vec![ops_named(&["a", "b"]), vec![], ops_named(&["c"])]);
    let names: Vec<&str> = all.iter().map(|pair| pair.0).collect();
    assert_eq!(names, vec!["a", "b", "c"]);
}

#[test]
fn ops_of_an_extension_are_handed_out_once() {
    let mut extension = Extension::with_ops(vec![("a.js", "1")], ops_named(&["x", "y"]), None);
    assert_eq!(extension.init_js().unwrap(), vec![("a.js", "1")]);
    let mut registrar = Registrar::new(OpTable::new(CollisionPolicy::Reject));
    assert!(extension.init_ops(&mut registrar).is_ok());
    let err = extension.init_ops(&mut registrar).unwrap_err();
    assert_eq!(err.class, ErrorClass::Error);
    assert_eq!(err.message, "Extension was already initialized");
    let table = registrar.into_table();
    assert_eq!(table.len(), 2);
    assert_eq!(table.find("x"), Some(0));
    assert_eq!(table.find("y"), Some(1));
}

#[test]
fn refused_name_registers_nothing() {
    let mut table = OpTable::new(CollisionPolicy::Reject);
    table.register("y", echo()).unwrap();
    let mut registrar = Registrar::new(table);
    let mut extension = Extension::with_ops(vec![], ops_named(&["x", "y", "z"]), None);
    let err = extension.init_ops(&mut registrar).unwrap_err();
    assert_eq!(err.message, "Op already registered: y");
    assert!(!registrar.has_op("x"));

    let mut twice = Extension::with_ops(vec![], ops_named(&["p", "q", "p"]), None);
    let err = twice.init_ops(&mut registrar).unwrap_err();
    assert_eq!(err.message, "Op already registered: p");
    assert!(!registrar.has_op("p"));
    assert!(!registrar.has_op("q"));
}

#[test]
fn bootstrap_runs_the_steps_in_order() {
    let middleware = layer_middleware(Trace { before: 1, after: 9 });
    let init = op_runtime::webstorage::put_location_data_dir(Some("/data".to_string()));
    let mut extension = Extension::new(
        Some(vec![("a.js", "A"), ("b.js", "B")]),
        Some(vec![("mark", OpFn { handler: Box::new(Mark) })]),
        Some(init),
        Some(middleware),
    );
    let mut state = OpState::new();
    let registrar = Registrar::new(OpTable::new(CollisionPolicy::Reject));
    let (registrar, files) = bootstrap(&mut extension, &mut state, registrar);
    assert_eq!(files.unwrap(), vec![("a.js", "A"), ("b.js", "B")]);
    assert_eq!(state.location_data_dir.as_ref().unwrap().0.as_deref(), Some("/data"));
    assert_eq!(registrar.depth(), 1);

    let registry = registrar.into_table().seal();
    registry.dispatch(&mut state, "mark", 0, OpArgs::Unit, None);
    assert_eq!(state.metrics.ops_dispatched, 159);

    let again = Registrar::new(OpTable::new(CollisionPolicy::Reject));
    let (again, files) = bootstrap(&mut extension, &mut state, again);
    assert_eq!(files.unwrap_err().message, "Extension was already initialized");
    assert_eq!(again.into_table().len(), 0);
}
