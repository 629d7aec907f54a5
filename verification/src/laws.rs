//! What holds of every session and every table of capabilities.

use vstd::prelude::*;
use crate::capability::{
    all_matched,
    first_unmatched,
    link_outcome,
    matched,
    registered,
    Capability,
};
use crate::error::{
    CapabilityError,
    InvocationError,
    LinkError,
    RunError,
    SetupError,
    StateError,
    TrapReason,
};
use crate::interface::{
    export_index,
    exported,
    lemma_export_index_is_first,
    Import,
    Interface,
};
use crate::runtime::{executed, store_data, store_fuel, Prepared};
use crate::session::{Action, Event, PendingCall, Phase, SessionState};
use crate::value::{types_model, values_conform, Value};

verus! {

/// The session after a sequence of events, each taken by `step`.
pub open spec fn replay(s: SessionState, events: Seq<Event>) -> SessionState
    decreases events.len(),
{
    if events.len() == 0 {
        s
    } else {
        replay(s.step(events[0]).0, events.drop_first())
    }
}

/// Linking fails if and only if at least one import has no capability of its
/// namespace, name and signature; it then names the first such import.
pub proof fn lemma_link_complete(entries: Seq<Capability>, imports: Seq<Import>)
    requires
        imports.len() <= usize::MAX,
    ensures
        link_outcome(entries, imports) is Err <==> exists|i: int|
            0 <= i < imports.len() && !matched(entries, #[trigger] imports[i]),
        link_outcome(entries, imports) matches Err(e) ==> match e {
            LinkError::Unresolved { import } => {
                &&& first_unmatched(entries, imports, import as int)
                &&& !registered(
                    entries,
                    imports[import as int].namespace@,
                    imports[import as int].name@,
                )
            },
            LinkError::SignatureMismatch { import } => {
                &&& first_unmatched(entries, imports, import as int)
                &&& registered(
                    entries,
                    imports[import as int].namespace@,
                    imports[import as int].name@,
                )
            },
            LinkError::Duplicate => false,
        },
        link_outcome(entries, imports) matches Ok(slots) ==> slots.len() == imports.len(),
{
    if !all_matched(entries, imports) {
        lemma_some_first_unmatched(entries, imports, imports.len() as int);
        let i = choose|i: int| first_unmatched(entries, imports, i);
        assert(first_unmatched(entries, imports, i));
        assert(0 <= i < imports.len());
        assert(i as usize as int == i) by {
            lemma_fits(imports, i);
        }
    }
}

/// An index into a sequence that a `Vec` can hold fits a `usize`.
proof fn lemma_fits(imports: Seq<Import>, i: int)
    requires
        0 <= i < imports.len(),
        imports.len() <= usize::MAX,
    ensures
        i as usize as int == i,
{
}

/// If some import before `n` is not bound, there is a first one.
proof fn lemma_some_first_unmatched(entries: Seq<Capability>, imports: Seq<Import>, n: int)
    requires
        0 <= n <= imports.len(),
        exists|i: int| 0 <= i < n && !matched(entries, #[trigger] imports[i]),
    ensures
        exists|i: int| first_unmatched(entries, imports, i),
    decreases n,
{
    let last = n - 1;
    if exists|i: int| 0 <= i < last && !matched(entries, #[trigger] imports[i]) {
        lemma_some_first_unmatched(entries, imports, last);
    } else {
        assert(first_unmatched(entries, imports, last));
    }
}

/// A session links if and only if every import is bound; a link error
/// leaves it as it was.
pub proof fn lemma_session_links_when_complete(
    s: SessionState,
    interface: Interface,
    entries: Seq<Capability>,
)
    requires
        s.phase == Phase::Created,
    ensures
        s.link(interface, entries).1 is Ok <==> all_matched(entries, interface.imports@),
        s.link(interface, entries).1 is Err ==> s.link(interface, entries).0 == s,
        s.link(interface, entries).1 matches Err(e) ==> e is Link,
{
}

/// No event gives a session fuel: what is left never grows, and the budget
/// stays what it was.
pub proof fn lemma_step_spends(s: SessionState, event: Event)
    ensures
        s.step(event).0.fuel <= s.fuel,
        s.step(event).0.budget == s.budget,
        s.phase != Phase::Running ==> s.step(event).0.fuel == s.fuel,
{
}

/// Over any sequence of events the fuel that is left never grows: the fuel
/// used is never negative and never shrinks.
pub proof fn lemma_fuel_never_grows(s: SessionState, events: Seq<Event>)
    requires
        s.wf(),
    ensures
        replay(s, events).fuel <= s.fuel,
        replay(s, events).budget == s.budget,
        0 <= s.consumed() <= replay(s, events).consumed(),
        replay(s, events).wf(),
    decreases events.len(),
{
    if events.len() > 0 {
        lemma_step_spends(s, events[0]);
        lemma_step_keeps_wf(s, events[0]);
        lemma_fuel_never_grows(s.step(events[0]).0, events.drop_first());
    }
}

/// It makes no difference to a running session whether the fuel that the
/// guest used is reported at once or in two parts.
pub proof fn lemma_consumption_adds(s: SessionState, first: u64, second: u64)
    requires
        s.phase == Phase::Running,
        first + second <= u64::MAX,
    ensures
        s.step(Event::Consumed(first)).0.step(Event::Consumed(second)).0 == s.step(
            Event::Consumed((first + second) as u64),
        ).0,
{
}

/// While a call is parked no fuel is used.
pub proof fn lemma_parked_uses_no_fuel(s: SessionState, event: Event)
    requires
        s.wf(),
        s.phase == Phase::Suspended,
    ensures
        s.step(event).0.fuel == s.fuel,
{
}

/// A session without fuel never runs the guest: a call that would begin
/// traps with `FuelExhausted` at once, and any other fails as it would with
/// fuel, leaving the session as it was.
pub proof fn lemma_no_fuel_no_run(s: SessionState, name: Seq<char>, args: Seq<Value>)
    requires
        s.phase == Phase::Instantiated,
        s.fuel == 0,
    ensures
        s.invoke(name, args).0.phase != Phase::Running,
        s.invoke(name, args).1 is Err,
        (export_index(s.exports(), name) matches Some(index) && values_conform(
            args,
            types_model(s.exports()[index].sig.params@),
        )) ==> {
            &&& s.invoke(name, args).1 == Err::<(), RunError>(
                RunError::trap(TrapReason::FuelExhausted),
            )
            &&& s.invoke(name, args).0.phase == Phase::Trapped
            &&& s.invoke(name, args).0.trap == Some(TrapReason::FuelExhausted)
        },
{
}

/// A call of an export that does not exist, or with arguments of other types
/// than it declares, is refused before the guest runs: the session and its
/// fuel stay as they were.
pub proof fn lemma_refused_call_changes_nothing(s: SessionState, name: Seq<char>, args: Seq<Value>)
    requires
        s.phase == Phase::Instantiated,
    ensures
        export_index(s.exports(), name) is None ==> s.invoke(name, args) == (
            s,
            Err::<(), RunError>(RunError::Invocation(InvocationError::ExportMissing)),
        ),
        (export_index(s.exports(), name) matches Some(index) && !values_conform(
            args,
            types_model(s.exports()[index].sig.params@),
        )) ==> s.invoke(name, args) == (
            s,
            Err::<(), RunError>(RunError::Invocation(InvocationError::SignatureMismatch)),
        ),
        s.invoke(name, args).1 matches Err(RunError::Invocation(_)) ==> s.invoke(name, args).0
            == s,
{
}

/// A value that a handler resolves with reaches the guest call that asked for
/// it, unchanged, and the session is again as it was before the call; a
/// handler that fails traps the session with its error.
pub proof fn lemma_round_trip(
    s: SessionState,
    import: usize,
    args: Vec<Value>,
    value: Value,
    error: CapabilityError,
)
    requires
        s.wf(),
        s.phase == Phase::Running,
        s.callable(import, args@),
    ensures
        ({
            let (parked, asked) = s.step(Event::HostCall { import, args });
            &&& asked == (Action::Dispatch { capability: s.resolution[import as int], args })
            &&& parked.phase == Phase::Suspended
            &&& parked.pending == Some(
                PendingCall::Host { import, capability: s.resolution[import as int] },
            )
            &&& parked.fuel == s.fuel
            &&& s.returnable(import, value) ==> parked.step(Event::HostReturned(Ok(value))) == (
                s,
                Action::Deliver(value),
            )
            &&& !s.returnable(import, value) ==> parked.step(Event::HostReturned(Ok(value)))
                == parked.fail(TrapReason::TypeMismatch)
            &&& parked.step(Event::HostReturned(Err(error))) == parked.fail(
                TrapReason::Capability(error),
            )
            &&& parked.fail(TrapReason::Capability(error)).0.phase == Phase::Trapped
        }),
{
    let (parked, asked) = s.step(Event::HostCall { import, args });
    assert(parked.imports() == s.imports());
    assert(parked.returnable(import, value) == s.returnable(import, value));
    if s.returnable(import, value) {
        let back = parked.step(Event::HostReturned(Ok(value))).0;
        assert(back == s);
    }
}

/// A running session is over once the engine's call has come back: it has
/// completed with the results, or it has trapped. It never has more fuel
/// than before.
pub proof fn lemma_conclude_ends(
    s: SessionState,
    fuel_left: Option<u64>,
    returned: Option<Vec<Value>>,
)
    requires
        s.wf(),
        s.phase == Phase::Running,
    ensures
        s.conclude(fuel_left, returned).0.terminal(),
        s.conclude(fuel_left, returned).0.wf(),
        s.conclude(fuel_left, returned).0.fuel <= s.fuel,
        s.conclude(fuel_left, returned).1 is Ok <==> s.conclude(fuel_left, returned).0.phase
            == Phase::Completed,
        s.conclude(fuel_left, returned).1 matches Ok(values) ==> returned == Some(values),
        returned is None ==> s.conclude(fuel_left, returned).1 is Err,
{
}

/// Serving a call of a capability leaves a running session running, with
/// the value of the handler as the value for the guest, or traps it.
pub proof fn lemma_serve_delivers(
    s: SessionState,
    fuel_left: Option<u64>,
    namespace: Seq<char>,
    name: Seq<char>,
    args: Seq<Value>,
    outcome: Result<Value, CapabilityError>,
)
    requires
        s.wf(),
        s.phase == Phase::Running,
    ensures
        ({
            let (after, served) = s.serve(fuel_left, namespace, name, args, outcome);
            &&& after.wf()
            &&& after.fuel <= s.fuel
            &&& served matches Ok(value) ==> outcome == Ok::<Value, CapabilityError>(value)
                && after.phase == Phase::Running
            &&& served is Err ==> after.phase == Phase::Trapped
            &&& outcome is Err ==> served is Err
        }),
{
}

/// Two preparations of the same module bytes on the same engine agree: both
/// fail with the same error, or both succeed with the same encoding compiled,
/// the same fuel and a session in the same state.
pub proof fn lemma_preparations_agree(
    engine: wasmtime::Engine,
    module: Seq<u8>,
    a: Result<Prepared, SetupError>,
    b: Result<Prepared, SetupError>,
)
    requires
        executed(engine, module, a),
        executed(engine, module, b),
    ensures
        a is Ok <==> b is Ok,
        a matches Err(e) ==> b == Err::<Prepared, SetupError>(e),
        a matches Ok(x) ==> b matches Ok(y) ==> {
            &&& x.artifact.encoding() == y.artifact.encoding()
            &&& x.artifact.engine() == y.artifact.engine()
            &&& store_fuel(x.store) == store_fuel(y.store)
            &&& store_data(x.store)@ == store_data(y.store)@
            &&& x.export@ == y.export@
            &&& x.fuel == y.fuel
        },
{
}

/// A guest that yields and is woken goes on where it was.
pub proof fn lemma_yield_and_wake(s: SessionState)
    requires
        s.wf(),
        s.phase == Phase::Running,
    ensures
        s.step(Event::Yielded).1 == Action::Park,
        s.step(Event::Yielded).0.step(Event::Woken) == (s, Action::Continue),
{
    let parked = s.step(Event::Yielded).0;
    assert(parked.step(Event::Woken).0 == s);
}

/// A session that has completed or trapped takes nothing more.
pub proof fn lemma_terminal_is_final(
    s: SessionState,
    event: Event,
    interface: Interface,
    entries: Seq<Capability>,
    name: Seq<char>,
    args: Seq<Value>,
)
    requires
        s.terminal(),
    ensures
        s.step(event) == (s, Action::Fail(RunError::State(StateError::Terminal))),
        s.link(interface, entries) == (s, Err::<(), RunError>(RunError::State(StateError::Terminal))),
        s.instantiate() == (s, Err::<(), RunError>(RunError::State(StateError::Terminal))),
        s.invoke(name, args) == (s, Err::<(), RunError>(RunError::State(StateError::Terminal))),
{
}

/// A session that holds an instance refuses a second one.
pub proof fn lemma_single_instantiation(s: SessionState)
    requires
        s.phase == Phase::Linked,
    ensures
        s.instantiate().1 is Ok,
        s.instantiate().0.instantiate() == (
            s.instantiate().0,
            Err::<(), RunError>(RunError::State(StateError::AlreadyInstantiated)),
        ),
{
}

/// A fresh session is well formed.
pub proof fn lemma_fresh_wf(budget: u64)
    ensures
        SessionState::fresh(budget).wf(),
{
}

/// Linking keeps a session well formed.
pub proof fn lemma_link_keeps_wf(s: SessionState, interface: Interface, entries: Seq<Capability>)
    requires
        s.wf(),
    ensures
        s.link(interface, entries).0.wf(),
{
}

/// Instantiating keeps a session well formed.
pub proof fn lemma_instantiate_keeps_wf(s: SessionState)
    requires
        s.wf(),
    ensures
        s.instantiate().0.wf(),
{
}

/// Beginning a call keeps a session well formed.
pub proof fn lemma_invoke_keeps_wf(s: SessionState, name: Seq<char>, args: Seq<Value>)
    requires
        s.wf(),
    ensures
        s.invoke(name, args).0.wf(),
{
    if s.phase == Phase::Instantiated && exported(s.exports(), name) {
        lemma_export_index_is_first(s.exports(), name);
    }
}

/// Every event keeps a session well formed.
pub proof fn lemma_step_keeps_wf(s: SessionState, event: Event)
    requires
        s.wf(),
    ensures
        s.step(event).0.wf(),
{
}

} // verus!
