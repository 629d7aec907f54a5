//! The engine, the linker and the stores that the host runs guests with.

use vstd::prelude::*;
use crate::artifact::{encodable, encoding_of, engine_takes, module_accepted, Artifact};
use crate::capability::{named, Bindings, Capability, CapabilityTable};
use crate::config::{EngineConfig, EngineFlags};
use crate::error::{
    or_error,
    CapabilityError,
    CompileError,
    ConfigError,
    LinkError,
    RunError,
    SetupError,
    StateError,
};
use crate::interface::{Signature, SignatureModel};
use crate::session::{Session, SessionState};
use crate::value::{TypeModel, Value, ValueType};

verus! {

/// The fuel that `execute` gives a run.
pub const DEFAULT_FUEL: u64 = 100000;

/// The switches of the configuration that an engine was built from, as
/// `wasmtime::Engine::config` holds them.
pub uninterp spec fn engine_switches(engine: wasmtime::Engine) -> EngineFlags;

/// The engine that a linker was made for, as `Linker::engine` gives it.
pub uninterp spec fn linker_engine(linker: wasmtime::component::Linker<Session>) -> wasmtime::Engine;

/// The names that are defined at the root of a linker: the instances and
/// functions that a component instantiated with it may import.
pub uninterp spec fn defined_names(linker: wasmtime::component::Linker<Session>) -> Set<Seq<char>>;

/// The names that are defined in the instance `namespace` at the root of a
/// linker; none where the linker has no instance of that name.
pub uninterp spec fn instance_functions(
    linker: wasmtime::component::Linker<Session>,
    namespace: Seq<char>,
) -> Set<Seq<char>>;

/// Whether a linker takes the definition of a name that it has already, as
/// set with `Linker::allow_shadowing`.
pub uninterp spec fn allows_shadowing(linker: wasmtime::component::Linker<Session>) -> bool;

/// The engine that a store belongs to, as `Store::engine` gives it.
pub uninterp spec fn store_engine(store: wasmtime::Store<Session>) -> wasmtime::Engine;

/// The session that a store owns, as `Store::data` gives it.
pub uninterp spec fn store_data(store: wasmtime::Store<Session>) -> Session;

/// The fuel in a store whose engine meters fuel, as `Store::get_fuel` gives it.
pub uninterp spec fn store_fuel(store: wasmtime::Store<Session>) -> u64;

/// The name of the instance that holds the capabilities of this host.
pub open spec fn context_name() -> Seq<char> {
    "contract:built-in/context"@
}

/// The name of the one capability of this host.
pub open spec fn foo_name() -> Seq<char> {
    "foo"@
}

/// Builds an engine: `wasmtime::Config::new`, one setter of `wasmtime::Config`
/// for each flag, then `wasmtime::Engine::new`. Whether the engine accepts the
/// flags depends on the build and on the host; an engine that is built holds
/// the configuration with the flags as they were set.
#[verifier::external_body]
fn engine_with(flags: EngineFlags) -> (r: Result<wasmtime::Engine, anyhow::Error>)
    ensures
        r matches Ok(engine) ==> engine_switches(engine) == flags,
{
    let mut config = wasmtime::Config::new();
    config.async_support(flags.async_support);
    config.wasm_component_model_async(flags.component_model_async);
    config.consume_fuel(flags.consume_fuel);
    config.wasm_threads(flags.threads);
    config.wasm_relaxed_simd(flags.relaxed_simd);
    config.cranelift_nan_canonicalization(flags.nan_canonicalization);
    wasmtime::Engine::new(&config)
}

/// Calls `wasmtime::component::Linker::new`, which gives a linker for the
/// engine with no item defined in it.
#[verifier::external_body]
fn empty_linker(engine: &wasmtime::Engine) -> (linker: wasmtime::component::Linker<Session>)
    ensures
        defined_names(linker) == Set::<Seq<char>>::empty(),
        forall|namespace: Seq<char>|
            #[trigger] instance_functions(linker, namespace) == Set::<Seq<char>>::empty(),
        !allows_shadowing(linker),
        linker_engine(linker) == *engine,
{
    wasmtime::component::Linker::new(engine)
}

/// Defines one capability: `Linker::instance` makes the instance
/// `namespace` at the root, and `LinkerInstance::func_wrap` defines `name` in
/// it. The handler asks the store for its fuel (`StoreContextMut::get_fuel`)
/// and its session (`StoreContextMut::data_mut`) and calls `Runtime::serve`
/// with the two names. The first call fails exactly where the linker has the
/// name already and does not allow shadowing, and then leaves the linker as
/// it was; the second cannot fail in an instance just made.
#[verifier::external_body]
fn define_in(linker: &mut wasmtime::component::Linker<Session>, namespace: &str, name: &str) -> (r:
    Result<(), anyhow::Error>)
    ensures
        r is Ok <==> allows_shadowing(*old(linker)) || !defined_names(*old(linker)).contains(
            namespace@,
        ),
        r is Ok ==> {
            &&& defined_names(*final(linker)) == defined_names(*old(linker)).insert(namespace@)
            &&& instance_functions(*final(linker), namespace@) == set![name@]
            &&& forall|other: Seq<char>|
                other != namespace@ ==> #[trigger] instance_functions(*final(linker), other)
                    == instance_functions(*old(linker), other)
        },
        r is Err ==> {
            &&& defined_names(*final(linker)) == defined_names(*old(linker))
            &&& forall|other: Seq<char>| #[trigger]
                instance_functions(*final(linker), other) == instance_functions(
                    *old(linker),
                    other,
                )
        },
        allows_shadowing(*final(linker)) == allows_shadowing(*old(linker)),
        linker_engine(*final(linker)) == linker_engine(*old(linker)),
{
    let (space, key) = (namespace.to_string(), name.to_string());
    linker.instance(namespace)?.func_wrap(
        name,
        move |mut store: wasmtime::StoreContextMut<'_, Session>, (): ()| {
            let left = store.get_fuel().ok();
            match Runtime::serve(store.data_mut(), left, &space, &key) {
                Ok(answer) => Ok((answer,)),
                Err(e) => Err(anyhow::Error::msg(format!("{:?}", e))),
            }
        },
    )
}

/// Calls `wasmtime::Store::new`: a store of the engine that owns `session`.
#[verifier::external_body]
fn store_with(engine: &wasmtime::Engine, session: Session) -> (store: wasmtime::Store<Session>)
    ensures
        store_engine(store) == *engine,
        store_data(store) == session,
{
    wasmtime::Store::new(engine, session)
}

/// Calls `wasmtime::Store::set_fuel`, which fails exactly where the store's
/// engine does not meter fuel, and else sets the fuel that `Store::get_fuel`
/// gives. The store's engine and session stay what they were.
#[verifier::external_body]
fn pour_fuel(store: &mut wasmtime::Store<Session>, fuel: u64) -> (r: Result<(), anyhow::Error>)
    ensures
        r is Ok <==> engine_switches(store_engine(*old(store))).consume_fuel,
        r is Ok ==> store_fuel(*final(store)) == fuel,
        store_engine(*final(store)) == store_engine(*old(store)),
        store_data(*final(store)) == store_data(*old(store)),
{
    store.set_fuel(fuel)
}

/// What a run starts from: the compiled guest, the store that will hold its
/// instance, and the entry point to call.
pub struct Prepared {
    pub artifact: Artifact,
    pub store: wasmtime::Store<Session>,
    pub export: String,
    pub fuel: u64,
}

/// The name of the export that `execute` runs.
pub fn entry_point() -> (name: String)
    ensures
        name@ == "use-foo"@,
{
    "use-foo".to_owned()
}

/// Whether `r` is what preparing a run gives for a module whose encoding is
/// `component`: `Validation` if the engine does not take the encoding,
/// `FuelDisabled` if it does but meters no fuel, and else the artifact
/// compiled from it with a store that holds `DEFAULT_FUEL` and a session just
/// opened with it.
pub open spec fn prepared(
    engine: wasmtime::Engine,
    component: Seq<u8>,
    r: Result<Prepared, SetupError>,
) -> bool {
    &&& r == Err::<Prepared, SetupError>(SetupError::Compile(CompileError::Validation))
        <==> !engine_takes(engine, component)
    &&& r == Err::<Prepared, SetupError>(SetupError::Config(ConfigError::FuelDisabled))
        <==> engine_takes(engine, component) && !engine_switches(engine).consume_fuel
    &&& r is Ok <==> engine_takes(engine, component) && engine_switches(engine).consume_fuel
    &&& r matches Ok(run) ==> {
        &&& run.artifact.encoding() == component
        &&& run.artifact.engine() == engine
        &&& store_engine(run.store) == engine
        &&& store_fuel(run.store) == DEFAULT_FUEL
        &&& store_data(run.store)@ == SessionState::fresh(DEFAULT_FUEL)
        &&& run.export@ == "use-foo"@
        &&& run.fuel == DEFAULT_FUEL
    }
}

/// Whether `r` is what `execute` gives for these module bytes on this
/// engine.
pub open spec fn executed(engine: wasmtime::Engine, module: Seq<u8>, r: Result<Prepared, SetupError>) -> bool {
    &&& r == Err::<Prepared, SetupError>(SetupError::Compile(CompileError::Malformed))
        <==> !module_accepted(module)
    &&& r == Err::<Prepared, SetupError>(SetupError::Compile(CompileError::Encoding))
        <==> module_accepted(module) && !encodable(module)
    &&& module_accepted(module) && encodable(module) ==> prepared(engine, encoding_of(module), r)
}

/// What the capability `foo` is declared as: no argument, one string.
pub open spec fn foo_signature() -> SignatureModel {
    SignatureModel { params: Seq::empty(), results: seq![TypeModel::Str], is_async: false }
}

/// The code of the failure of a capability that this host has no handler for.
pub const UNKNOWN_CAPABILITY: u32 = 1;

/// Whether the two names are those of the capability `foo`.
pub open spec fn is_foo(namespace: Seq<char>, name: Seq<char>) -> bool {
    namespace == context_name() && name == foo_name()
}

/// The namespaces of the first `n` capabilities.
pub open spec fn namespaces(entries: Seq<Capability>, n: int) -> Set<Seq<char>> {
    Set::new(|ns: Seq<char>| exists|i: int| 0 <= i < n && (#[trigger] entries[i]).namespace@ == ns)
}

/// No two of the first `n` capabilities share a namespace.
pub open spec fn distinct_namespaces(entries: Seq<Capability>, n: int) -> bool {
    forall|i: int, j: int|
        0 <= i < j < n ==> (#[trigger] entries[i]).namespace@ != (#[trigger] entries[j]).namespace@
}

/// Whether a linker holds what a table of capabilities holds: an instance
/// for each namespace, with the capability's name defined in it.
pub open spec fn holds(linker: wasmtime::component::Linker<Session>, entries: Seq<Capability>) -> bool {
    &&& defined_names(linker) == namespaces(entries, entries.len() as int)
    &&& forall|i: int|
        0 <= i < entries.len() ==> instance_functions(linker, (#[trigger] entries[i]).namespace@)
            == set![entries[i].name@]
}

/// The host side of the sandbox: one engine, shared by all runs, and the
/// linker that binds the capabilities.
pub struct Runtime {
    pub engine: wasmtime::Engine,
    pub linker: wasmtime::component::Linker<Session>,
}

impl Runtime {
    /// Builds an engine with the switches that `config` stands for. This is
    /// the one place where they are fixed: no session can change them. It
    /// fails only where the engine refuses the combination.
    pub fn build_engine(config: EngineConfig) -> (r: Result<wasmtime::Engine, ConfigError>)
        ensures
            r matches Ok(engine) ==> engine_switches(engine) == config.flags(),
            r matches Err(e) ==> e == ConfigError::Unsupported,
    {
        or_error(engine_with(config.flags()), ConfigError::Unsupported)
    }

    /// Builds the engine of a sandbox: deterministic, metered, able to
    /// suspend.
    pub fn new_engine() -> (r: Result<wasmtime::Engine, ConfigError>)
        ensures
            r matches Ok(engine) ==> engine_switches(engine) == EngineConfig::sandboxed().flags(),
            r matches Err(e) ==> e == ConfigError::Unsupported,
    {
        Runtime::build_engine(EngineConfig::sandboxed())
    }

    /// What the capability `foo` answers.
    pub fn foo() -> (answer: String)
        ensures
            answer@ == "foo"@,
    {
        "foo".to_owned()
    }

    /// What the handler of a capability answers: `foo` answers the string
    /// `"foo"`; the host has no other handler.
    pub fn answer(namespace: &str, name: &str) -> (r: Result<Value, CapabilityError>)
        ensures
            is_foo(namespace@, name@) ==> (r matches Ok(Value::Str(text)) && text@ == "foo"@),
            !is_foo(namespace@, name@) ==> r == Err::<Value, CapabilityError>(
                CapabilityError { code: UNKNOWN_CAPABILITY },
            ),
    {
        if namespace.to_owned() == "contract:built-in/context".to_owned() && name.to_owned()
            == "foo".to_owned() {
            Ok(Value::Str(Runtime::foo()))
        } else {
            Err(CapabilityError { code: UNKNOWN_CAPABILITY })
        }
    }

    /// The session after the guest's call of a capability without arguments
    /// was served with `outcome`.
    pub open spec fn served(
        s: SessionState,
        fuel_left: Option<u64>,
        namespace: Seq<char>,
        name: Seq<char>,
        outcome: Result<Value, CapabilityError>,
    ) -> (SessionState, Result<Value, RunError>) {
        s.serve(fuel_left, namespace, name, Seq::empty(), outcome)
    }

    /// Serves the guest's call of a capability that takes nothing and gives
    /// a string: the session is told of the call and of what `answer` gave,
    /// and the string is what the guest is handed.
    pub fn serve(session: &mut Session, fuel_left: Option<u64>, namespace: &str, name: &str) -> (r:
        Result<String, RunError>)
        ensures
            r matches Ok(text) ==> {
                &&& is_foo(namespace@, name@)
                &&& text@ == "foo"@
                &&& Self::served(
                    old(session)@,
                    fuel_left,
                    namespace@,
                    name@,
                    Ok(Value::Str(text)),
                ) == (final(session)@, Ok::<Value, RunError>(Value::Str(text)))
            },
            r matches Err(e) ==> {
                &&& is_foo(namespace@, name@) ==> forall|text: String| #[trigger]
                    Self::served(
                        old(session)@,
                        fuel_left,
                        namespace@,
                        name@,
                        Ok(Value::Str(text)),
                    ) == (final(session)@, Err::<Value, RunError>(e))
                &&& !is_foo(namespace@, name@) ==> Self::served(
                    old(session)@,
                    fuel_left,
                    namespace@,
                    name@,
                    Err(CapabilityError { code: UNKNOWN_CAPABILITY }),
                ) == (final(session)@, Err::<Value, RunError>(e))
            },
    {
        let outcome = Runtime::answer(namespace, name);
        let args: Vec<Value> = Vec::new();
        match session.serve(fuel_left, namespace, name, args, outcome) {
            Ok(Value::Str(text)) => Ok(text),
            Ok(_) => Err(RunError::State(StateError::OutOfOrder)),
            Err(e) => Err(e),
        }
    }

    /// The capabilities that `new_linker` defines, as a table for linking a
    /// session: `foo` in its instance, with no argument and one string.
    pub fn capabilities() -> (b: Bindings)
        ensures
            b@.len() == 1,
            named(b@, context_name(), foo_name(), 0),
            b@[0].sig.model() == foo_signature(),
            b.wf(),
    {
        let mut table = CapabilityTable::new();
        let mut results: Vec<ValueType> = Vec::new();
        results.push(ValueType::Str);
        let sig = Signature { params: Vec::new(), results, is_async: false };
        let ghost model = sig.model();
        assert(model.results =~= seq![TypeModel::Str]);
        assert(model.params =~= Seq::<TypeModel>::empty());
        let _ = table.register("contract:built-in/context".to_owned(), "foo".to_owned(), sig);
        table.build()
    }

    /// Defines one more capability in a linker. A namespace that the linker
    /// has already is refused, and the linker stays as it was, unless the
    /// linker allows shadowing.
    pub fn define(linker: &mut wasmtime::component::Linker<Session>, namespace: &str, name: &str) -> (r:
        Result<(), LinkError>)
        ensures
            r is Ok <==> allows_shadowing(*old(linker)) || !defined_names(*old(linker)).contains(
                namespace@,
            ),
            r is Ok ==> {
                &&& defined_names(*final(linker)) == defined_names(*old(linker)).insert(
                    namespace@,
                )
                &&& instance_functions(*final(linker), namespace@) == set![name@]
                &&& forall|other: Seq<char>|
                    other != namespace@ ==> #[trigger] instance_functions(*final(linker), other)
                        == instance_functions(*old(linker), other)
            },
            r matches Err(e) ==> {
                &&& e == LinkError::Duplicate
                &&& defined_names(*final(linker)) == defined_names(*old(linker))
                &&& forall|other: Seq<char>| #[trigger]
                    instance_functions(*final(linker), other) == instance_functions(
                        *old(linker),
                        other,
                    )
            },
            allows_shadowing(*final(linker)) == allows_shadowing(*old(linker)),
            linker_engine(*final(linker)) == linker_engine(*old(linker)),
    {
        or_error(define_in(linker, namespace, name), LinkError::Duplicate)
    }

    /// Freezes a table of capabilities into a linker for `engine`: for each
    /// capability an instance of its namespace with its name defined in it.
    /// It fails exactly where two capabilities share a namespace.
    pub fn linker_from(engine: &wasmtime::Engine, bindings: &Bindings) -> (r: Result<
        wasmtime::component::Linker<Session>,
        LinkError,
    >)
        ensures
            r is Ok <==> distinct_namespaces(bindings@, bindings@.len() as int),
            r matches Ok(linker) ==> {
                &&& holds(linker, bindings@)
                &&& !allows_shadowing(linker)
                &&& linker_engine(linker) == *engine
            },
            r matches Err(e) ==> e == LinkError::Duplicate,
    {
        let mut linker = empty_linker(engine);
        let mut i: usize = 0;
        while i < bindings.len()
            invariant
                i <= bindings@.len(),
                defined_names(linker) == namespaces(bindings@, i as int),
                forall|k: int|
                    0 <= k < i ==> instance_functions(linker, (#[trigger] bindings@[k]).namespace@)
                        == set![bindings@[k].name@],
                distinct_namespaces(bindings@, i as int),
                !allows_shadowing(linker),
                linker_engine(linker) == *engine,
            decreases bindings@.len() - i,
        {
            let entry = match bindings.get(i) {
                Some(entry) => entry,
                None => {
                    return Err(LinkError::Duplicate);
                },
            };
            let ghost before = linker;
            match Runtime::define(&mut linker, entry.namespace.as_str(), entry.name.as_str()) {
                Ok(()) => {
                    proof {
                        let ns = entry.namespace@;
                        assert(!namespaces(bindings@, i as int).contains(ns));
                        assert(namespaces(bindings@, i as int + 1) =~= namespaces(
                            bindings@,
                            i as int,
                        ).insert(ns));
                        assert forall|k: int| 0 <= k < i + 1 implies instance_functions(
                            linker,
                            (#[trigger] bindings@[k]).namespace@,
                        ) == set![bindings@[k].name@] by {
                            if k < i {
                                assert(namespaces(bindings@, i as int).contains(
                                    bindings@[k].namespace@,
                                ));
                            }
                        }
                        assert forall|a: int, b: int| 0 <= a < b < i + 1 implies (
                        #[trigger] bindings@[a]).namespace@ != (#[trigger] bindings@[b]).namespace@ by {
                            if b == i {
                                assert(namespaces(bindings@, i as int).contains(
                                    bindings@[a].namespace@,
                                ));
                            }
                        }
                    }
                },
                Err(e) => {
                    proof {
                        let ns = entry.namespace@;
                        assert(namespaces(bindings@, i as int).contains(ns));
                        let k = choose|k: int|
                            0 <= k < i && (#[trigger] bindings@[k]).namespace@ == ns;
                        assert(bindings@[k].namespace@ == bindings@[i as int].namespace@);
                    }
                    return Err(e);
                },
            }
            i += 1;
        }
        Ok(linker)
    }

    /// The linker of this host for `engine`: the table of `capabilities`,
    /// frozen. The capability `foo` is defined in its instance, and nothing
    /// else is. It never fails.
    pub fn new_linker(engine: &wasmtime::Engine) -> (r: Result<
        wasmtime::component::Linker<Session>,
        ConfigError,
    >)
        ensures
            r matches Ok(linker) && {
                &&& defined_names(linker) == set![context_name()]
                &&& instance_functions(linker, context_name()) == set![foo_name()]
                &&& !allows_shadowing(linker)
                &&& linker_engine(linker) == *engine
            },
    {
        let table = Runtime::capabilities();
        let r = Runtime::linker_from(engine, &table);
        proof {
            assert(namespaces(table@, 1) =~= set![context_name()]);
        }
        match r {
            Ok(linker) => Ok(linker),
            Err(_) => Err(ConfigError::Unsupported),
        }
    }

    /// A store for one run. It holds a session just opened with `fuel` and
    /// that much fuel. It fails exactly where the engine does not meter fuel.
    pub fn make_store(&self, fuel: u64) -> (r: Result<wasmtime::Store<Session>, ConfigError>)
        ensures
            r is Ok <==> engine_switches(self.engine).consume_fuel,
            r matches Ok(store) ==> {
                &&& store_fuel(store) == fuel
                &&& store_data(store)@ == SessionState::fresh(fuel)
                &&& store_engine(store) == self.engine
            },
            r matches Err(e) ==> e == ConfigError::FuelDisabled,
    {
        let mut store = store_with(&self.engine, Session::open(fuel));
        match or_error(pour_fuel(&mut store, fuel), ConfigError::FuelDisabled) {
            Ok(()) => Ok(store),
            Err(e) => Err(e),
        }
    }

    /// The engine of a sandbox and the linker for it, with the capability
    /// `foo` defined. It fails only where the engine cannot be built.
    pub fn new() -> (r: Result<Runtime, ConfigError>)
        ensures
            r matches Ok(runtime) ==> {
                &&& engine_switches(runtime.engine) == EngineConfig::sandboxed().flags()
                &&& defined_names(runtime.linker) == set![context_name()]
                &&& instance_functions(runtime.linker, context_name()) == set![foo_name()]
                &&& !allows_shadowing(runtime.linker)
                &&& linker_engine(runtime.linker) == runtime.engine
            },
            r matches Err(e) ==> e == ConfigError::Unsupported,
    {
        let engine = match Runtime::new_engine() {
            Ok(engine) => engine,
            Err(e) => {
                return Err(e);
            },
        };
        let linker = match Runtime::new_linker(&engine) {
            Ok(linker) => linker,
            Err(e) => {
                return Err(e);
            },
        };
        Ok(Runtime { engine, linker })
    }

    /// Prepares the run of a guest module: compiles it for this engine and
    /// opens a store with `DEFAULT_FUEL`. What is left is outside work, which
    /// the caller does with the session in the store: instantiate the
    /// component, call the entry point, and report how the call came back.
    pub fn execute(&self, module_bytes: &[u8]) -> (r: Result<Prepared, SetupError>)
        ensures
            executed(self.engine, module_bytes@, r),
    {
        let artifact = match Artifact::compile(&self.engine, module_bytes) {
            Ok(artifact) => artifact,
            Err(e) => {
                return Err(SetupError::Compile(e));
            },
        };
        let store = match self.make_store(DEFAULT_FUEL) {
            Ok(store) => store,
            Err(e) => {
                return Err(SetupError::Config(e));
            },
        };
        Ok(Prepared { artifact, store, export: entry_point(), fuel: DEFAULT_FUEL })
    }
}

} // verus!
