//! Modules that a runtime is assembled from: each brings script sources,
//! seeds the state and registers ops; a group of modules is a module.

use vstd::prelude::*;
use crate::error::OpError;
use crate::extensions::{
    accepts_all, concat_groups, registered, Extension, OpPair, OpStateFn, Registrar, RegistrarView, SourcePair,
};
use crate::op_state::OpState;

verus! {

/// What every module of a runtime offers, so that the runtime can set all
/// of them up in the same way.
pub trait JsRuntimeModule {
    /// The script modules it brings, in load order: none, unless the
    /// module says otherwise.
    open spec fn js(&self) -> Seq<SourcePair> {
        Seq::empty()
    }

    /// What seeding the state may do. A module that does not say promises
    /// nothing.
    open spec fn state_post(&self, before: OpState, after: OpState, r: Result<(), OpError>) -> bool {
        true
    }

    /// What registering the ops may do to the registrar. A module that
    /// does not say promises nothing.
    open spec fn ops_post(&self, before: RegistrarView, after: RegistrarView, r: Result<(), OpError>) -> bool {
        true
    }

    /// The script modules to load into the scripting environment.
    fn init_js(&self) -> (r: Result<Vec<SourcePair>, OpError>)
        ensures
            r matches Ok(files) && files@ == self.js(),
    ;

    /// Seeds the state.
    fn init_state(&self, state: &mut OpState) -> (r: Result<(), OpError>)
        requires
            old(state).wf(),
        ensures
            final(state).wf(),
            self.state_post(*old(state), *final(state), r),
    ;

    /// What putting middleware around a registrar may make of it. A module
    /// that does not say promises nothing.
    open spec fn middleware_post(&self, before: RegistrarView, after: RegistrarView) -> bool {
        true
    }

    /// May put middleware around the registrar; the table stays as it is,
    /// and so does every middleware that is already there.
    fn init_op_registrar_middleware(&self, registrar: Registrar) -> (wrapped: Registrar)
        requires
            registrar@.table.wf(),
        ensures
            wrapped@.table == registrar@.table,
            registrar@.layers.is_prefix_of(wrapped@.layers),
            self.middleware_post(registrar@, wrapped@),
    ;

    /// Registers the ops.
    fn init_ops(&mut self, registrar: &mut Registrar) -> (r: Result<(), OpError>)
        requires
            old(registrar)@.table.wf(),
        ensures
            final(registrar)@.table.wf(),
            final(registrar)@.layers == old(registrar)@.layers,
            final(self).js() == old(self).js(),
            old(self).ops_post(old(registrar)@, final(registrar)@, r),
    ;
}

/// A module that is a list of sources, a list of ops and a state
/// initializer.
pub struct BasicModule {
    inner: Extension,
}

impl BasicModule {
    /// The op declarations that are still to be registered.
    pub closed spec fn ops(&self) -> Seq<OpPair> {
        self.inner.ops()
    }

    /// Whether the ops were handed out.
    pub closed spec fn ops_consumed(&self) -> bool {
        self.inner.ops_consumed()
    }

    pub closed spec fn opstate_fn(&self) -> Option<OpStateFn> {
        self.inner.opstate_fn()
    }

    pub fn new(js_files: Option<Vec<SourcePair>>, ops: Option<Vec<OpPair>>, opstate_fn: Option<OpStateFn>) -> (m:
        BasicModule)
        ensures
            m.js() == (match js_files {
                Some(files) => files@,
                None => Seq::empty(),
            }),
            m.ops() == (match ops {
                Some(ops) => ops@,
                None => Seq::empty(),
            }),
            m.opstate_fn() == opstate_fn,
            !m.ops_consumed(),
    {
        BasicModule { inner: Extension::new(js_files, ops, opstate_fn, None) }
    }

    /// A module that only brings script modules.
    pub fn pure_js(js_files: Vec<SourcePair>) -> (m: BasicModule)
        ensures
            m.js() == js_files@,
            m.ops() =~= Seq::empty(),
            m.opstate_fn() is None,
            !m.ops_consumed(),
    {
        Self::new(Some(js_files), None, None)
    }

    /// A module that brings script modules and ops, and may seed the state.
    pub fn with_ops(js_files: Vec<SourcePair>, ops: Vec<OpPair>, opstate_fn: Option<OpStateFn>) -> (m:
        BasicModule)
        ensures
            m.js() == js_files@,
            m.ops() == ops@,
            m.opstate_fn() == opstate_fn,
            !m.ops_consumed(),
    {
        Self::new(Some(js_files), Some(ops), opstate_fn)
    }
}

impl JsRuntimeModule for BasicModule {
    closed spec fn js(&self) -> Seq<SourcePair> {
        self.inner.js_files()
    }

    /// The initializer runs if the module has one; a module without one
    /// succeeds and leaves the state alone.
    open spec fn state_post(&self, before: OpState, after: OpState, r: Result<(), OpError>) -> bool {
        match self.opstate_fn() {
            Some(ofn) => ofn.f.post(before, after, r),
            None => r is Ok && after == before,
        }
    }

    /// The ops are registered in order if they were not handed out before
    /// and the table takes every name; else nothing is registered.
    open spec fn ops_post(&self, before: RegistrarView, after: RegistrarView, r: Result<(), OpError>) -> bool {
        &&& r is Ok <==> !self.ops_consumed() && accepts_all(before.table, self.ops())
        &&& r is Ok ==> registered(before.layers, before.table, self.ops(), after.table)
        &&& r is Err ==> after == before
    }

    fn init_js(&self) -> (r: Result<Vec<SourcePair>, OpError>) {
        self.inner.init_js()
    }

    fn init_state(&self, state: &mut OpState) -> (r: Result<(), OpError>) {
        self.inner.run_state_fn(state)
    }

    /// A basic module has no middleware: the registrar stays as it is.
    open spec fn middleware_post(&self, before: RegistrarView, after: RegistrarView) -> bool {
        after == before
    }

    fn init_op_registrar_middleware(&self, registrar: Registrar) -> (wrapped: Registrar) {
        registrar
    }

    fn init_ops(&mut self, registrar: &mut Registrar) -> (r: Result<(), OpError>)
        ensures
            r is Ok ==> final(self).ops_consumed() && final(self).ops() =~= Seq::empty(),
            r is Err ==> final(self).ops() == old(self).ops() && final(self).ops_consumed() == old(
                self,
            ).ops_consumed(),
    {
        self.inner.init_ops(registrar)
    }
}

/// A module of any type.
pub struct ModuleBox {
    pub m: Box<dyn JsRuntimeModule>,
}

/// Puts a basic module among modules of any type.
pub fn boxed(module: BasicModule) -> (b: ModuleBox)
    ensures
        b.m.js() == module.js(),
        forall|before: OpState, after: OpState, r: Result<(), OpError>|
            #[trigger] b.m.state_post(before, after, r) == module.state_post(before, after, r),
        forall|before: RegistrarView, after: RegistrarView, r: Result<(), OpError>|
            #[trigger] b.m.ops_post(before, after, r) == module.ops_post(before, after, r),
        forall|before: RegistrarView, after: RegistrarView|
            #[trigger] b.m.middleware_post(before, after) == module.middleware_post(before, after),
{
    ModuleBox { m: Box::new(module) }
}

/// The sources of the first `n` modules, one module after the other.
pub open spec fn concat_js(modules: Seq<ModuleBox>, n: int) -> Seq<SourcePair>
    decreases n,
{
    if n <= 0 {
        Seq::empty()
    } else {
        concat_js(modules, n - 1) + modules[n - 1].m.js()
    }
}

/// Whether two results are both a success or the same failure.
pub open spec fn same_result(a: Result<(), OpError>, b: Result<(), OpError>) -> bool {
    (a is Ok && b is Ok) || a == b
}

/// Whether `states` are the states that the session goes through while the
/// first `ran` modules seed it one after the other, all but the last of
/// them with success, the last one with the result `last`.
pub open spec fn seeded(
    modules: Seq<ModuleBox>,
    states: Seq<OpState>,
    results: Seq<Result<(), OpError>>,
    ran: int,
    last: Result<(), OpError>,
) -> bool {
    &&& 0 <= ran <= modules.len()
    &&& states.len() == ran + 1
    &&& results.len() == ran
    &&& forall|i: int|
        0 <= i < ran ==> #[trigger] modules[i].m.state_post(states[i], states[i + 1], results[i])
    &&& forall|i: int| 0 <= i < ran - 1 ==> #[trigger] results[i] is Ok
    &&& ran > 0 ==> same_result(results[ran - 1], last)
}

/// Whether `tables` are the registrars that result while the first `ran`
/// modules register their ops one after the other, all but the last of them
/// with success, the last one with the result `last`.
pub open spec fn filled(
    modules: Seq<ModuleBox>,
    tables: Seq<RegistrarView>,
    results: Seq<Result<(), OpError>>,
    ran: int,
    last: Result<(), OpError>,
) -> bool {
    &&& 0 <= ran <= modules.len()
    &&& tables.len() == ran + 1
    &&& results.len() == ran
    &&& forall|i: int|
        0 <= i < ran ==> #[trigger] modules[i].m.ops_post(tables[i], tables[i + 1], results[i])
    &&& forall|i: int| 0 <= i < ran - 1 ==> #[trigger] results[i] is Ok
    &&& ran > 0 ==> same_result(results[ran - 1], last)
}

/// Whether `registrars` are the registrars that result while the first
/// `ran` modules put their middleware around a registrar one after the
/// other, each around what the one before it left.
pub open spec fn wrapped(modules: Seq<ModuleBox>, registrars: Seq<RegistrarView>, ran: int) -> bool {
    &&& 0 <= ran <= modules.len()
    &&& registrars.len() == ran + 1
    &&& forall|i: int|
        0 <= i < ran ==> #[trigger] modules[i].m.middleware_post(registrars[i], registrars[i + 1])
}

/// Several modules as one. Sources are loaded, the state is seeded and ops
/// are registered module by module, in the order of the list; the first
/// failure ends the run.
pub struct MultiModule {
    pub modules: Vec<ModuleBox>,
}

impl MultiModule {
    pub fn new(modules: Vec<ModuleBox>) -> (m: MultiModule)
        ensures
            m.modules == modules,
    {
        MultiModule { modules }
    }
}

impl JsRuntimeModule for MultiModule {
    open spec fn js(&self) -> Seq<SourcePair> {
        concat_js(self.modules@, self.modules@.len() as int)
    }

    open spec fn state_post(&self, before: OpState, after: OpState, r: Result<(), OpError>) -> bool {
        exists|states: Seq<OpState>, results: Seq<Result<(), OpError>>, ran: int| #[trigger]
            seeded(self.modules@, states, results, ran, r) && states[0] == before && states[ran] == after && (
            r is Ok ==> ran == self.modules@.len()) && (r is Err ==> ran > 0)
    }

    open spec fn ops_post(&self, before: RegistrarView, after: RegistrarView, r: Result<(), OpError>) -> bool {
        exists|tables: Seq<RegistrarView>, results: Seq<Result<(), OpError>>, ran: int| #[trigger]
            filled(self.modules@, tables, results, ran, r) && tables[0] == before && tables[ran] == after && (
            r is Ok ==> ran == self.modules@.len()) && (r is Err ==> ran > 0)
    }

    fn init_js(&self) -> (r: Result<Vec<SourcePair>, OpError>) {
        let mut out: Vec<SourcePair> = Vec::new();
        let mut i: usize = 0;
        while i < self.modules.len()
            invariant
                i <= self.modules@.len(),
                out@ == concat_js(self.modules@, i as int),
            decreases self.modules@.len() - i,
        {
            match self.modules[i].m.init_js() {
                Ok(files) => {
                    let ghost before = out@;
                    let mut k: usize = 0;
                    while k < files.len()
                        invariant
                            k <= files@.len(),
                            out@ == before + files@.take(k as int),
                        decreases files@.len() - k,
                    {
                        out.push(files[k]);
                        proof {
                            assert(files@.take(k as int + 1) =~= files@.take(k as int).push(
                                files@[k as int],
                            ));
                        }
                        k += 1;
                    }
                    proof {
                        assert(files@.take(files@.len() as int) =~= files@);
                    }
                },
                Err(e) => {
                    return Err(e);
                },
            }
            i += 1;
        }
        Ok(out)
    }

    fn init_state(&self, state: &mut OpState) -> (r: Result<(), OpError>) {
        let ghost mut states: Seq<OpState> = seq![*state];
        let ghost mut results: Seq<Result<(), OpError>> = Seq::empty();
        let mut i: usize = 0;
        while i < self.modules.len()
            invariant
                i <= self.modules@.len(),
                state.wf(),
                states.len() == i + 1,
                states[0] == *old(state),
                states[i as int] == *state,
                results.len() == i,
                forall|j: int| 0 <= j < i ==> #[trigger] results[j] is Ok,
                forall|j: int|
                    0 <= j < i ==> #[trigger] self.modules@[j].m.state_post(
                        states[j],
                        states[j + 1],
                        results[j],
                    ),
            decreases self.modules@.len() - i,
        {
            let r = self.modules[i].m.init_state(state);
            proof {
                states = states.push(*state);
                results = results.push(r);
            }
            if r.is_err() {
                proof {
                    assert(seeded(self.modules@, states, results, i as int + 1, r));
                }
                return r;
            }
            i += 1;
        }
        let r: Result<(), OpError> = Ok(());
        proof {
            assert(seeded(self.modules@, states, results, i as int, r));
        }
        r
    }

    /// Every module puts its middleware around the registrar that the
    /// module before it left, in the order of the list.
    open spec fn middleware_post(&self, before: RegistrarView, after: RegistrarView) -> bool {
        exists|registrars: Seq<RegistrarView>| #[trigger]
            wrapped(self.modules@, registrars, self.modules@.len() as int) && registrars[0]
                == before && registrars[self.modules@.len() as int] == after
    }

    fn init_op_registrar_middleware(&self, registrar: Registrar) -> (wrapped: Registrar) {
        let ghost start = registrar@;
        let ghost mut registrars: Seq<RegistrarView> = seq![registrar@];
        let mut current = registrar;
        let mut i: usize = 0;
        while i < self.modules.len()
            invariant
                i <= self.modules@.len(),
                current@.table == start.table,
                current@.table.wf(),
                start.layers.is_prefix_of(current@.layers),
                registrars[0] == start,
                registrars[i as int] == current@,
                wrapped(self.modules@, registrars, i as int),
            decreases self.modules@.len() - i,
        {
            current = self.modules[i].m.init_op_registrar_middleware(current);
            proof {
                registrars = registrars.push(current@);
            }
            i += 1;
        }
        proof {
            assert(wrapped(self.modules@, registrars, self.modules@.len() as int));
        }
        current
    }

    fn init_ops(&mut self, registrar: &mut Registrar) -> (r: Result<(), OpError>) {
        let ghost mut tables: Seq<RegistrarView> = seq![registrar@];
        let ghost mut results: Seq<Result<(), OpError>> = Seq::empty();
        let mut i: usize = 0;
        while i < self.modules.len()
            invariant
                i <= self.modules@.len(),
                self.modules@.len() == old(self).modules@.len(),
                registrar@.table.wf(),
                registrar@.layers == old(registrar)@.layers,
                tables.len() == i + 1,
                tables[0] == old(registrar)@,
                tables[i as int] == registrar@,
                forall|j: int|
                    0 <= j < self.modules@.len() ==> #[trigger] self.modules@[j].m.js() == old(
                        self,
                    ).modules@[j].m.js(),
                forall|j: int|
                    i <= j < self.modules@.len() ==> #[trigger] self.modules@[j] == old(
                        self,
                    ).modules@[j],
                results.len() == i,
                forall|j: int| 0 <= j < i ==> #[trigger] results[j] is Ok,
                forall|j: int|
                    0 <= j < i ==> #[trigger] old(self).modules@[j].m.ops_post(
                        tables[j],
                        tables[j + 1],
                        results[j],
                    ),
            decreases self.modules@.len() - i,
        {
            let r = self.modules[i].m.init_ops(registrar);
            proof {
                tables = tables.push(registrar@);
                results = results.push(r);
            }
            if r.is_err() {
                proof {
                    assert(filled(old(self).modules@, tables, results, i as int + 1, r));
                    lemma_concat_js_same(
                        old(self).modules@,
                        self.modules@,
                        self.modules@.len() as int,
                    );
                }
                return r;
            }
            i += 1;
        }
        let r: Result<(), OpError> = Ok(());
        proof {
            assert(filled(old(self).modules@, tables, results, i as int, r));
            lemma_concat_js_same(old(self).modules@, self.modules@, self.modules@.len() as int);
        }
        r
    }
}

proof fn lemma_concat_js_same(a: Seq<ModuleBox>, b: Seq<ModuleBox>, n: int)
    requires
        n <= a.len(),
        a.len() == b.len(),
        forall|j: int| 0 <= j < a.len() ==> #[trigger] b[j].m.js() == a[j].m.js(),
    ensures
        concat_js(a, n) == concat_js(b, n),
    decreases n,
{
    if n > 0 {
        lemma_concat_js_same(a, b, n - 1);
    }
}

/// Joins groups of op declarations into one list, in order.
pub fn declare_ops_group(groups: Vec<Vec<OpPair>>) -> (all: Vec<OpPair>)
    ensures
        all@ == concat_groups(groups@, groups@.len() as int),
{
    crate::extensions::declare_ops_group(groups)
}

} // verus!
