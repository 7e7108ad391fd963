//! Bundles of script modules, ops, a state initializer and middleware, and
//! the registrars that take their ops.

use vstd::prelude::*;
use crate::error::{custom_error, fails_with, ErrorClass, OpError};
use crate::middleware::MiddlewareFn;
use crate::op_state::OpState;
use crate::ops::{
    collision_error, collision_message, str_eq, CollisionPolicy, OpFn, OpHandler, OpId, OpTable,
    OpTableView,
};

verus! {

/// A script module: its name and its source text.
pub type SourcePair = (&'static str, &'static str);

/// An op declaration: its name and its handler.
pub type OpPair = (&'static str, OpFn);

/// Code that seeds the session state at bootstrap.
pub trait StateInit {
    /// What the initializer may do to the state. One that does not say
    /// promises nothing.
    open spec fn post(&self, before: OpState, after: OpState, r: Result<(), OpError>) -> bool {
        true
    }

    fn init(&self, state: &mut OpState) -> (r: Result<(), OpError>)
        requires
            old(state).wf(),
        ensures
            final(state).wf(),
            self.post(*old(state), *final(state), r),
    ;
}

/// A state initializer of any type.
pub struct OpStateFn {
    pub f: Box<dyn StateInit>,
}

/// A registrar as a mathematical value: the table that registrations end
/// up in, and the middlewares around it. The first middleware is nearest to
/// the table; the last one is applied first.
pub struct RegistrarView {
    pub table: OpTableView,
    pub layers: Seq<MiddlewareFn>,
}

/// Whether `stored` is what reaches the table when `op_fn` is registered
/// under `name` through `layers`: each middleware applied once, the last
/// one first.
pub open spec fn stores(layers: Seq<MiddlewareFn>, name: Seq<char>, op_fn: OpFn, stored: OpFn) -> bool
    decreases layers.len(),
{
    if layers.len() == 0 {
        stored == op_fn
    } else {
        exists|wrapped: OpFn| #[trigger]
            layers.last().f.wraps(name, op_fn, wrapped) && stores(
                layers.drop_last(),
                name,
                wrapped,
                stored,
            )
    }
}

/// With two middlewares around the table, what reaches the table is the
/// handler wrapped by the last one and then by the first one: the first
/// one is the last transform before storage.
pub proof fn lemma_stores_through_two(
    first: MiddlewareFn,
    last: MiddlewareFn,
    name: Seq<char>,
    op_fn: OpFn,
    stored: OpFn,
)
    requires
        stores(seq![first, last], name, op_fn, stored),
    ensures
        exists|once: OpFn| #[trigger]
            last.f.wraps(name, op_fn, once) && first.f.wraps(name, once, stored),
{
    let layers = seq![first, last];
    assert(layers.last() == last);
    assert(layers.drop_last() =~= seq![first]);
    let once = choose|wrapped: OpFn| #[trigger]
        layers.last().f.wraps(name, op_fn, wrapped) && stores(
            layers.drop_last(),
            name,
            wrapped,
            stored,
        );
    let inner = seq![first];
    assert(inner.last() == first);
    assert(inner.drop_last() =~= Seq::<MiddlewareFn>::empty());
    let twice = choose|wrapped: OpFn| #[trigger]
        inner.last().f.wraps(name, once, wrapped) && stores(
            inner.drop_last(),
            name,
            wrapped,
            stored,
        );
    assert(twice == stored);
    assert(last.f.wraps(name, op_fn, once) && first.f.wraps(name, once, stored));
}

/// What a registration does: it leaves the middlewares alone; if the table
/// accepts the name, the wrapped handler is stored under it and the id of
/// the op is returned; if not, nothing changes and the error says so.
pub open spec fn register_post(
    before: RegistrarView,
    name: Seq<char>,
    op_fn: OpFn,
    after: RegistrarView,
    r: Result<OpId, OpError>,
) -> bool {
    &&& after.layers == before.layers
    &&& r is Ok <==> before.table.accepts(name)
    &&& r matches Ok(id) ==> id == before.table.id_after(name) && exists|stored: OpFn| #[trigger]
        stores(before.layers, name, op_fn, stored) && after.table == before.table.with(name, stored)
    &&& r matches Err(e) ==> after.table == before.table && e.is(
        ErrorClass::TypeError,
        collision_message(name),
    )
}

/// Something that ops can be registered into.
pub trait OpRegistrar {
    spec fn wf(&self) -> bool;

    spec fn registrar_view(&self) -> RegistrarView;

    fn register_op(&mut self, name: &'static str, op_fn: OpFn) -> (r: Result<OpId, OpError>)
        requires
            old(self).wf(),
        ensures
            final(self).wf(),
            register_post(old(self).registrar_view(), name@, op_fn, final(self).registrar_view(), r),
    ;
}

impl OpRegistrar for OpTable {
    open spec fn wf(&self) -> bool {
        self@.wf()
    }

    open spec fn registrar_view(&self) -> RegistrarView {
        RegistrarView { table: self@, layers: Seq::empty() }
    }

    fn register_op(&mut self, name: &'static str, op_fn: OpFn) -> (r: Result<OpId, OpError>) {
        let r = self.register(name, op_fn);
        proof {
            if r is Ok {
                assert(stores(Seq::<MiddlewareFn>::empty(), name@, op_fn, op_fn));
            }
        }
        r
    }
}

/// An op table with any number of middlewares stacked around it.
pub struct Registrar {
    table: OpTable,
    layers: Vec<MiddlewareFn>,
}

impl View for Registrar {
    type V = RegistrarView;

    closed spec fn view(&self) -> RegistrarView {
        RegistrarView { table: self.table@, layers: self.layers@ }
    }
}

impl Registrar {
    /// A registrar around `table`, with no middleware.
    pub fn new(table: OpTable) -> (registrar: Registrar)
        requires
            table@.wf(),
        ensures
            registrar@.table == table@,
            registrar@.layers =~= Seq::empty(),
            registrar@.table.wf(),
    {
        Registrar { table, layers: Vec::new() }
    }

    /// Whether an op is registered under `name`.
    pub fn has_op(&self, name: &str) -> (b: bool)
        requires
            self@.table.wf(),
        ensures
            b == self@.table.has(name@),
    {
        self.table.has_op(name)
    }

    /// Whether a registration under `name` would be accepted.
    pub fn accepts(&self, name: &str) -> (b: bool)
        requires
            self@.table.wf(),
        ensures
            b == self@.table.accepts(name@),
    {
        match self.table.policy() {
            CollisionPolicy::LastWins => true,
            CollisionPolicy::Reject => !self.table.has_op(name),
        }
    }

    /// How many middlewares are stacked around the table.
    pub fn depth(&self) -> (n: usize)
        ensures
            n == self@.layers.len(),
    {
        self.layers.len()
    }

    /// Takes the middlewares off and hands back the table.
    pub fn into_table(self) -> (table: OpTable)
        ensures
            table@ == self@.table,
    {
        self.table
    }

    fn wrap_all(&self, name: &str, op_fn: OpFn) -> (stored: OpFn)
        ensures
            stores(self.layers@, name@, op_fn, stored),
    {
        let mut current = op_fn;
        let mut i: usize = self.layers.len();
        proof {
            assert(self.layers@.take(i as int) =~= self.layers@);
        }
        while i > 0
            invariant
                i <= self.layers@.len(),
                forall|stored: OpFn|
                    stores(self.layers@.take(i as int), name@, current, stored) ==> stores(
                        self.layers@,
                        name@,
                        op_fn,
                        stored,
                    ),
            decreases i,
        {
            let ghost outer = current;
            i -= 1;
            current = self.layers[i].wrap(name, current);
            proof {
                let prefix = self.layers@.take(i as int + 1);
                assert(prefix.last() == self.layers@[i as int]);
                assert(prefix.drop_last() =~= self.layers@.take(i as int));
                assert forall|stored: OpFn|
                    stores(self.layers@.take(i as int), name@, current, stored) implies stores(
                    self.layers@,
                    name@,
                    op_fn,
                    stored,
                ) by {
                    assert(prefix.last().f.wraps(name@, outer, current));
                    assert(stores(prefix, name@, outer, stored));
                }
            }
        }
        proof {
            assert(self.layers@.take(0) =~= Seq::empty());
            assert(stores(self.layers@.take(0), name@, current, current));
        }
        current
    }
}

impl OpRegistrar for Registrar {
    open spec fn wf(&self) -> bool {
        self@.table.wf()
    }

    open spec fn registrar_view(&self) -> RegistrarView {
        self@
    }

    fn register_op(&mut self, name: &'static str, op_fn: OpFn) -> (r: Result<OpId, OpError>) {
        if !self.accepts(name) {
            return Err(collision_error(name));
        }
        let stored = self.wrap_all(name, op_fn);
        self.table.register(name, stored)
    }
}

/// A registrar with one more middleware around it.
pub struct OpMiddleware {
    registrar: Registrar,
    middleware_fn: MiddlewareFn,
}

impl OpMiddleware {
    /// Puts `middleware_fn` around `registrar`.
    pub fn new(registrar: Registrar, middleware_fn: MiddlewareFn) -> (m: OpMiddleware)
        requires
            registrar@.table.wf(),
        ensures
            m.wf(),
            m.registrar_view().table == registrar@.table,
            m.registrar_view().layers == registrar@.layers.push(middleware_fn),
    {
        OpMiddleware { registrar, middleware_fn }
    }

    /// The same registrar as one value: the table with all its middlewares.
    pub fn into_registrar(self) -> (registrar: Registrar)
        ensures
            registrar@ == self.registrar_view(),
    {
        let OpMiddleware { registrar, middleware_fn } = self;
        let Registrar { table, layers } = registrar;
        let mut layers = layers;
        layers.push(middleware_fn);
        Registrar { table, layers }
    }
}

impl OpRegistrar for OpMiddleware {
    closed spec fn wf(&self) -> bool {
        self.registrar@.table.wf()
    }

    closed spec fn registrar_view(&self) -> RegistrarView {
        RegistrarView {
            table: self.registrar@.table,
            layers: self.registrar@.layers.push(self.middleware_fn),
        }
    }

    fn register_op(&mut self, name: &'static str, op_fn: OpFn) -> (r: Result<OpId, OpError>) {
        if !self.registrar.accepts(name) {
            return Err(collision_error(name));
        }
        let new_op = self.middleware_fn.wrap(name, op_fn);
        let r = self.registrar.register_op(name, new_op);
        proof {
            let before = old(self).registrar_view();
            assert(before.layers.last() == self.middleware_fn);
            assert(before.layers.drop_last() =~= old(self).registrar@.layers);
            if r is Ok {
                let stored = choose|stored: OpFn| #[trigger]
                    stores(old(self).registrar@.layers, name@, new_op, stored) && self.registrar@.table
                        == old(self).registrar@.table.with(name@, stored);
                assert(before.layers.last().f.wraps(name@, op_fn, new_op));
                assert(stores(before.layers, name@, op_fn, stored));
            }
        }
        r
    }
}

/// The table `start` after the first `n` of `ops` were registered under
/// their names, the handler stored for each being the one at its place in
/// `stored`.
pub open spec fn table_after(start: OpTableView, ops: Seq<OpPair>, stored: Seq<OpFn>, n: int) -> OpTableView
    decreases n,
{
    if n <= 0 {
        start
    } else {
        table_after(start, ops, stored, n - 1).with(ops[n - 1].0@, stored[n - 1])
    }
}

/// Whether `table` is what a registrar that started with `start` holds
/// after all of `ops` were registered through `layers`, in order.
pub open spec fn registered(
    layers: Seq<MiddlewareFn>,
    start: OpTableView,
    ops: Seq<OpPair>,
    table: OpTableView,
) -> bool {
    exists|stored: Seq<OpFn>|
        {
            &&& stored.len() == ops.len()
            &&& forall|i: int|
                0 <= i < ops.len() ==> stores(layers, ops[i].0@, ops[i].1, #[trigger] stored[i])
            &&& table == #[trigger] table_after(start, ops, stored, ops.len() as int)
        }
}

proof fn lemma_table_after_prefix(start: OpTableView, ops: Seq<OpPair>, stored: Seq<OpFn>, extra: OpFn, n: int)
    requires
        n <= stored.len(),
    ensures
        table_after(start, ops, stored.push(extra), n) == table_after(start, ops, stored, n),
    decreases n,
{
    if n > 0 {
        lemma_table_after_prefix(start, ops, stored, extra, n - 1);
    }
}

/// Whether `ops` declares, at place `i`, an op named `name` that behaves
/// as `handler`.
pub open spec fn declares<H: OpHandler>(ops: Seq<OpPair>, i: int, name: Seq<char>, handler: H) -> bool {
    ops[i].0@ == name && ops[i].1.behaves_as(handler)
}

/// Whether `table` takes every one of `ops`: always, if a later
/// registration wins; else if no name is taken and no name comes twice.
pub open spec fn accepts_all(table: OpTableView, ops: Seq<OpPair>) -> bool {
    ||| table.policy == CollisionPolicy::LastWins
    ||| {
        &&& forall|i: int| 0 <= i < ops.len() ==> !table.has(#[trigger] ops[i].0@)
        &&& forall|i: int, j: int| 0 <= i < j < ops.len() ==> #[trigger] ops[i].0@ != #[trigger] ops[j].0@
    }
}

/// The first name among `ops` that `table` does not take.
pub open spec fn first_refused(table: OpTableView, ops: Seq<OpPair>, i: int) -> bool {
    &&& 0 <= i < ops.len()
    &&& table.has(ops[i].0@) || exists|k: int| 0 <= k < i && #[trigger] ops[k].0@ == ops[i].0@
    &&& forall|j: int|
        0 <= j < i ==> !table.has(#[trigger] ops[j].0@) && forall|k: int|
            0 <= k < j ==> #[trigger] ops[k].0@ != ops[j].0@
}

fn find_refused(registrar: &Registrar, ops: &Vec<OpPair>) -> (r: Option<usize>)
    requires
        registrar@.table.wf(),
    ensures
        r is None <==> accepts_all(registrar@.table, ops@),
        r matches Some(i) ==> first_refused(registrar@.table, ops@, i as int),
{
    match registrar.table.policy() {
        CollisionPolicy::LastWins => { return None; },
        CollisionPolicy::Reject => {},
    }
    let mut i: usize = 0;
    while i < ops.len()
        invariant
            registrar@.table.wf(),
            registrar@.table.policy == CollisionPolicy::Reject,
            i <= ops@.len(),
            forall|j: int| 0 <= j < i ==> !registrar@.table.has(#[trigger] ops@[j].0@),
            forall|j: int, k: int| 0 <= k < j < i ==> #[trigger] ops@[k].0@ != #[trigger] ops@[j].0@,
        decreases ops@.len() - i,
    {
        if registrar.has_op(ops[i].0) {
            return Some(i);
        }
        let mut k: usize = 0;
        while k < i
            invariant
                registrar@.table.policy == CollisionPolicy::Reject,
                k <= i < ops@.len(),
                !registrar@.table.has(ops@[i as int].0@),
                forall|j: int| 0 <= j < i ==> !registrar@.table.has(#[trigger] ops@[j].0@),
                forall|j: int, k: int|
                    0 <= k < j < i ==> #[trigger] ops@[k].0@ != #[trigger] ops@[j].0@,
                forall|m: int| 0 <= m < k ==> #[trigger] ops@[m].0@ != ops@[i as int].0@,
            decreases i - k,
        {
            if str_eq(ops[k].0, ops[i].0) {
                proof {
                    assert(ops@[k as int].0@ == ops@[i as int].0@);
                    assert(first_refused(registrar@.table, ops@, i as int));
                }
                return Some(i);
            }
            k += 1;
        }
        i += 1;
    }
    None
}

/// What registering a list of ops does: if the table takes every name,
/// the ops are registered through the middlewares in order; if not, the
/// error names the first name that is refused, and nothing is registered.
pub open spec fn register_all_post(
    before: RegistrarView,
    ops: Seq<OpPair>,
    after: RegistrarView,
    r: Result<(), OpError>,
) -> bool {
    &&& after.layers == before.layers
    &&& r is Ok <==> accepts_all(before.table, ops)
    &&& r is Ok ==> registered(before.layers, before.table, ops, after.table)
    &&& r matches Err(e) ==> after == before && exists|i: int|
        first_refused(before.table, ops, i) && e.is(
            ErrorClass::TypeError,
            collision_message(#[trigger] ops[i].0@),
        )
}

/// Registers `ops` into `registrar`, in order, or none of them.
pub fn register_all(registrar: &mut Registrar, ops: Vec<OpPair>) -> (r: Result<(), OpError>)
    requires
        old(registrar)@.table.wf(),
    ensures
        final(registrar)@.table.wf(),
        register_all_post(old(registrar)@, ops@, final(registrar)@, r),
{
    match find_refused(registrar, &ops) {
        Some(i) => {
            let e = collision_error(ops[i].0);
            proof {
                assert(first_refused(registrar@.table, ops@, i as int) && e.is(
                    ErrorClass::TypeError,
                    collision_message(ops@[i as int].0@),
                ));
            }
            return Err(e);
        },
        None => {},
    }
    let ghost start = registrar@.table;
    let ghost layers = registrar@.layers;
    let ghost mut handlers: Seq<OpFn> = Seq::empty();
    for pair in it: ops
        invariant
            it.seq() == ops@,
            registrar@.table.wf(),
            registrar@.layers == layers,
            accepts_all(start, ops@),
            registrar@.table.policy == start.policy,
            handlers.len() == it.index(),
            forall|i: int|
                0 <= i < it.index() ==> stores(layers, ops@[i].0@, ops@[i].1, #[trigger] handlers[i]),
            registrar@.table == table_after(start, ops@, handlers, it.index()),
            forall|j: int|
                it.index() <= j < ops@.len() && start.policy == CollisionPolicy::Reject
                    ==> !registrar@.table.has(#[trigger] ops@[j].0@),
    {
        let ghost k = it.index();
        let ghost prev = registrar@.table;
        let (name, op_fn) = pair;
        let r = registrar.register_op(name, op_fn);
        proof {
            assert(pair == ops@[k]);
            assert(prev.accepts(name@));
            let stored = choose|stored: OpFn| #[trigger]
                stores(layers, name@, op_fn, stored) && registrar@.table == prev.with(name@, stored);
            prev.lemma_with(name@, stored);
            lemma_table_after_prefix(start, ops@, handlers, stored, k);
            handlers = handlers.push(stored);
            assert forall|j: int|
                k + 1 <= j < ops@.len() && start.policy == CollisionPolicy::Reject implies !registrar@.table.has(
                #[trigger] ops@[j].0@,
            ) by {
                assert(ops@[k].0@ != ops@[j].0@);
            }
        }
    }
    proof {
        assert(registrar@.table == table_after(start, ops@, handlers, ops@.len() as int));
    }
    Ok(())
}

/// The message of a second attempt to take what an extension declared.
pub open spec fn consumed_message() -> Seq<char> {
    "Extension was already initialized"@
}

/// A bundle of script modules, op declarations, a state initializer and a
/// middleware. The ops, the initializer and the middleware are each handed
/// out once.
pub struct Extension {
    js_files: Option<Vec<SourcePair>>,
    ops: Option<Vec<OpPair>>,
    opstate_fn: Option<OpStateFn>,
    middleware_fn: Option<MiddlewareFn>,
    ops_consumed: bool,
    state_consumed: bool,
}

impl Extension {
    /// The script modules, in load order.
    pub closed spec fn js_files(&self) -> Seq<SourcePair> {
        match self.js_files {
            Some(files) => files@,
            None => Seq::empty(),
        }
    }

    /// The op declarations, in registration order.
    pub closed spec fn ops(&self) -> Seq<OpPair> {
        match self.ops {
            Some(ops) => ops@,
            None => Seq::empty(),
        }
    }

    pub closed spec fn opstate_fn(&self) -> Option<OpStateFn> {
        self.opstate_fn
    }

    pub closed spec fn middleware_fn(&self) -> Option<MiddlewareFn> {
        self.middleware_fn
    }

    /// Whether the ops were handed out.
    pub closed spec fn ops_consumed(&self) -> bool {
        self.ops_consumed
    }

    /// Whether the state initializer was run.
    pub closed spec fn state_consumed(&self) -> bool {
        self.state_consumed
    }

    pub fn new(
        js_files: Option<Vec<SourcePair>>,
        ops: Option<Vec<OpPair>>,
        opstate_fn: Option<OpStateFn>,
        middleware_fn: Option<MiddlewareFn>,
    ) -> (e: Extension)
        ensures
            e.js_files() == (match js_files {
                Some(files) => files@,
                None => Seq::empty(),
            }),
            e.ops() == (match ops {
                Some(ops) => ops@,
                None => Seq::empty(),
            }),
            e.opstate_fn() == opstate_fn,
            e.middleware_fn() == middleware_fn,
            !e.ops_consumed(),
            !e.state_consumed(),
    {
        Extension {
            js_files,
            ops,
            opstate_fn,
            middleware_fn,
            ops_consumed: false,
            state_consumed: false,
        }
    }

    /// An extension that only brings script modules.
    pub fn pure_js(js_files: Vec<SourcePair>) -> (e: Extension)
        ensures
            e.js_files() == js_files@,
            e.ops() =~= Seq::empty(),
            e.opstate_fn() is None,
            e.middleware_fn() is None,
            !e.ops_consumed(),
            !e.state_consumed(),
    {
        Self::new(Some(js_files), None, None, None)
    }

    /// An extension that brings script modules and ops, and may seed the
    /// state.
    pub fn with_ops(js_files: Vec<SourcePair>, ops: Vec<OpPair>, opstate_fn: Option<OpStateFn>) -> (e:
        Extension)
        ensures
            e.js_files() == js_files@,
            e.ops() == ops@,
            e.opstate_fn() == opstate_fn,
            e.middleware_fn() is None,
            !e.ops_consumed(),
            !e.state_consumed(),
    {
        Self::new(Some(js_files), Some(ops), opstate_fn, None)
    }

    /// The script modules to load into the scripting environment, in
    /// order.
    pub fn init_js(&self) -> (r: Result<Vec<SourcePair>, OpError>)
        ensures
            r matches Ok(files) && files@ == self.js_files(),
    {
        let mut out: Vec<SourcePair> = Vec::new();
        match &self.js_files {
            Some(files) => {
                let mut i: usize = 0;
                while i < files.len()
                    invariant
                        i <= files@.len(),
                        out@ == files@.take(i as int),
                    decreases files@.len() - i,
                {
                    out.push(files[i]);
                    proof {
                        assert(files@.take(i as int + 1) =~= files@.take(i as int).push(files@[i as int]));
                    }
                    i += 1;
                }
                proof {
                    assert(files@.take(files@.len() as int) =~= files@);
                }
            },
            None => {},
        }
        Ok(out)
    }

    /// Registers every declared op into `registrar`, in order, and marks
    /// the ops as handed out. A second call fails. If the table refuses one
    /// of the names, the call fails and nothing is registered.
    pub fn init_ops(&mut self, registrar: &mut Registrar) -> (r: Result<(), OpError>)
        requires
            old(registrar)@.table.wf(),
        ensures
            final(registrar)@.table.wf(),
            final(registrar)@.layers == old(registrar)@.layers,
            final(self).js_files() == old(self).js_files(),
            final(self).opstate_fn() == old(self).opstate_fn(),
            final(self).middleware_fn() == old(self).middleware_fn(),
            final(self).state_consumed() == old(self).state_consumed(),
            r is Ok <==> !old(self).ops_consumed() && accepts_all(
                old(registrar)@.table,
                old(self).ops(),
            ),
            r is Ok ==> final(self).ops_consumed() && final(self).ops() =~= Seq::empty()
                && registered(
                old(registrar)@.layers,
                old(registrar)@.table,
                old(self).ops(),
                final(registrar)@.table,
            ),
            r matches Err(e) ==> final(registrar)@ == old(registrar)@ && final(self).ops() == old(
                self,
            ).ops() && final(self).ops_consumed() == old(self).ops_consumed() && (if old(
                self,
            ).ops_consumed() {
                e.is(ErrorClass::Error, consumed_message())
            } else {
                exists|i: int|
                    first_refused(old(registrar)@.table, old(self).ops(), i) && e.is(
                        ErrorClass::TypeError,
                        collision_message(#[trigger] old(self).ops()[i].0@),
                    )
            }),
    {
        if self.ops_consumed {
            return Err(custom_error(ErrorClass::Error, "Extension was already initialized"));
        }
        match self.ops.take() {
            Some(ops) => {
                match find_refused(registrar, &ops) {
                    Some(i) => {
                        let e = collision_error(ops[i].0);
                        proof {
                            assert(first_refused(registrar@.table, ops@, i as int) && e.is(
                                ErrorClass::TypeError,
                                collision_message(ops@[i as int].0@),
                            ));
                        }
                        self.ops = Some(ops);
                        Err(e)
                    },
                    None => {
                        self.ops_consumed = true;
                        register_all(registrar, ops)
                    },
                }
            },
            None => {
                self.ops_consumed = true;
                proof {
                    let none = Seq::<OpFn>::empty();
                    assert(registrar@.table == table_after(
                        registrar@.table,
                        old(self).ops(),
                        none,
                        0,
                    ));
                }
                Ok(())
            },
        }
    }

    /// Runs the state initializer against `state`, once. A second call
    /// fails and leaves the state alone.
    pub fn init_state(&mut self, state: &mut OpState) -> (r: Result<(), OpError>)
        requires
            old(state).wf(),
        ensures
            final(state).wf(),
            final(self).js_files() == old(self).js_files(),
            final(self).ops() == old(self).ops(),
            final(self).ops_consumed() == old(self).ops_consumed(),
            final(self).middleware_fn() == old(self).middleware_fn(),
            final(self).state_consumed(),
            final(self).opstate_fn() is None,
            old(self).state_consumed() ==> *final(state) == *old(state) && (r matches Err(e) && e.is(
                ErrorClass::Error,
                consumed_message(),
            )),
            !old(self).state_consumed() ==> (match old(self).opstate_fn() {
                Some(ofn) => ofn.f.post(*old(state), *final(state), r),
                None => r is Ok && *final(state) == *old(state),
            }),
    {
        if self.state_consumed {
            self.opstate_fn = None;
            return Err(custom_error(ErrorClass::Error, "Extension was already initialized"));
        }
        self.state_consumed = true;
        match self.opstate_fn.take() {
            Some(ofn) => ofn.f.init(state),
            None => Ok(()),
        }
    }

    /// Runs the state initializer against `state` and keeps it.
    pub fn run_state_fn(&self, state: &mut OpState) -> (r: Result<(), OpError>)
        requires
            old(state).wf(),
        ensures
            final(state).wf(),
            match self.opstate_fn() {
                Some(ofn) => ofn.f.post(*old(state), *final(state), r),
                None => r is Ok && *final(state) == *old(state),
            },
    {
        match &self.opstate_fn {
            Some(ofn) => ofn.f.init(state),
            None => Ok(()),
        }
    }

    /// Puts the middleware of the extension, if it has one, around
    /// `registrar`, and hands back the registrar to register with.
    pub fn init_registrar(&mut self, registrar: Registrar) -> (wrapped: Registrar)
        requires
            registrar@.table.wf(),
        ensures
            final(self).js_files() == old(self).js_files(),
            final(self).ops() == old(self).ops(),
            final(self).ops_consumed() == old(self).ops_consumed(),
            final(self).opstate_fn() == old(self).opstate_fn(),
            final(self).state_consumed() == old(self).state_consumed(),
            final(self).middleware_fn() is None,
            wrapped@.table == registrar@.table,
            wrapped@.layers == (match old(self).middleware_fn() {
                Some(middleware_fn) => registrar@.layers.push(middleware_fn),
                None => registrar@.layers,
            }),
    {
        match self.middleware_fn.take() {
            Some(middleware_fn) => OpMiddleware::new(registrar, middleware_fn).into_registrar(),
            None => registrar,
        }
    }
}

/// What bootstrapping an extension does, step by step: the sources are
/// exposed; the state initializer runs; the middleware goes around the
/// registrar; the ops are registered through it. A step that fails ends
/// the bootstrap: the steps before it have happened, the steps after it
/// have not.
pub open spec fn bootstrap_post(
    extension: Extension,
    state_before: OpState,
    registrar_before: RegistrarView,
    state_after: OpState,
    registrar_after: RegistrarView,
    r: Result<Vec<SourcePair>, OpError>,
) -> bool {
    let layers = match extension.middleware_fn() {
        Some(middleware_fn) => registrar_before.layers.push(middleware_fn),
        None => registrar_before.layers,
    };
    exists|seeded: Result<(), OpError>|
        {
            &&& #[trigger] state_post(extension, state_before, state_after, seeded)
            &&& match seeded {
                Err(e) => registrar_after == registrar_before && r == Err::<
                    Vec<SourcePair>,
                    OpError,
                >(e),
                Ok(_) => {
                    &&& registrar_after.layers == layers
                    &&& r is Ok <==> !extension.ops_consumed() && accepts_all(
                        registrar_before.table,
                        extension.ops(),
                    )
                    &&& r matches Ok(files) ==> files@ == extension.js_files() && registered(
                        layers,
                        registrar_before.table,
                        extension.ops(),
                        registrar_after.table,
                    )
                    &&& r is Err ==> registrar_after.table == registrar_before.table
                },
            }
        }
}

/// What the state initializer of an extension does when it is taken: it
/// runs if it was not taken before, and fails if it was.
pub open spec fn state_post(extension: Extension, before: OpState, after: OpState, r: Result<(), OpError>) -> bool {
    if extension.state_consumed() {
        after == before && fails_with(r, ErrorClass::Error, consumed_message())
    } else {
        match extension.opstate_fn() {
            Some(ofn) => ofn.f.post(before, after, r),
            None => r is Ok && after == before,
        }
    }
}

/// Bootstraps `extension`: exposes its sources, seeds `state`, puts its
/// middleware around `registrar` and registers its ops, in this order.
/// Returns the registrar to go on with, and the sources or the error that
/// ended the bootstrap.
pub fn bootstrap(extension: &mut Extension, state: &mut OpState, registrar: Registrar) -> (r: (
    Registrar,
    Result<Vec<SourcePair>, OpError>,
))
    requires
        old(state).wf(),
        registrar@.table.wf(),
    ensures
        final(state).wf(),
        r.0@.table.wf(),
        bootstrap_post(*old(extension), *old(state), registrar@, *final(state), r.0@, r.1),
{
    let files = match extension.init_js() {
        Ok(files) => files,
        Err(e) => Vec::new(),
    };
    let seeded = extension.init_state(state);
    proof {
        assert(state_post(*old(extension), *old(state), *state, seeded));
    }
    match seeded {
        Ok(_) => {},
        Err(e) => {
            return (registrar, Err(e));
        },
    }
    let mut registrar = extension.init_registrar(registrar);
    match extension.init_ops(&mut registrar) {
        Ok(_) => (registrar, Ok(files)),
        Err(e) => (registrar, Err(e)),
    }
}

/// The groups one after the other, as one list.
pub open spec fn concat_groups(groups: Seq<Vec<OpPair>>, n: int) -> Seq<OpPair>
    decreases n,
{
    if n <= 0 {
        Seq::empty()
    } else {
        concat_groups(groups, n - 1) + groups[n - 1]@
    }
}

/// Joins groups of op declarations into one list, in order.
pub fn declare_ops_group(groups: Vec<Vec<OpPair>>) -> (all: Vec<OpPair>)
    ensures
        all@ == concat_groups(groups@, groups@.len() as int),
{
    let mut all: Vec<OpPair> = Vec::new();
    for group in it: groups
        invariant
            it.seq() == groups@,
            all@ == concat_groups(groups@, it.index()),
    {
        let ghost before = all@;
        for pair in jt: group
            invariant
                jt.seq() == group@,
                all@ == before + group@.take(jt.index()),
        {
            all.push(pair);
            proof {
                assert(group@.take(jt.index() + 1) =~= group@.take(jt.index()).push(pair));
            }
        }
        proof {
            assert(group@.take(group@.len() as int) =~= group@);
        }
    }
    all
}

} // verus!
