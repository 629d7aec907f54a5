//! One run of a guest: its fuel, its phase, and the call in flight.
//!
//! A session goes `Created`, `Linked`, `Instantiated`, then `Running` and
//! `Suspended` in turn, and ends `Completed` or `Trapped`. The host program
//! does the outside work (instantiating, running guest code, running
//! capability handlers) and reports each thing that happened as an `Event`;
//! the session answers with the `Action` to take next.

use vstd::prelude::*;
use crate::capability::{link_outcome, Bindings, Capability};
use crate::error::{
    CapabilityError,
    ExecutionError,
    InvocationError,
    RunError,
    StateError,
    TrapReason,
};
use crate::interface::{export_index, import_index, Export, Import, Interface};
use crate::value::{have_types, types_model, values_conform, Value};

verus! {

/// Where a session is in its life.
#[derive(Clone, Copy, Debug, PartialEq, Eq, Structural)]
pub enum Phase {
    Created,
    Linked,
    Instantiated,
    Running,
    Suspended,
    Completed,
    Trapped,
}

/// A call that waits at an asynchronous boundary.
#[derive(Clone, Copy, Debug, PartialEq, Eq, Structural)]
pub enum PendingCall {
    /// The guest's own call has yielded.
    Guest,
    /// The guest called the import at `import`, bound to the capability in
    /// slot `capability`, and waits for its result.
    Host { import: usize, capability: usize },
}

/// What the host program observed.
#[derive(Debug, PartialEq, Eq)]
pub enum Event {
    /// The guest ran and used this much fuel.
    Consumed(u64),
    /// The guest called the import at `import` with these arguments.
    HostCall { import: usize, args: Vec<Value> },
    /// The capability handler came back.
    HostReturned(Result<Value, CapabilityError>),
    /// The guest yielded of its own accord.
    Yielded,
    /// The guest that had yielded is scheduled again.
    Woken,
    /// The guest's call returned these results.
    Returned(Vec<Value>),
    /// The guest gave up.
    Aborted,
}

/// What the host program is to do next.
#[derive(Debug, PartialEq, Eq)]
pub enum Action {
    /// Go on running the guest.
    Continue,
    /// Leave the guest parked until it is woken.
    Park,
    /// Run the handler of the capability in that slot with these arguments,
    /// and report how it came back.
    Dispatch { capability: usize, args: Vec<Value> },
    /// Hand the value to the guest call that waits for it, and go on.
    Deliver(Value),
    /// The run is over: hand the results to the caller.
    Finish(Vec<Value>),
    /// Hand the error to the caller. After a trap the session is over.
    Fail(RunError),
}

impl Action {
    /// The results that the action ends the run with, or the error that it
    /// reports. Any other action does not end a run.
    pub open spec fn results(self) -> Result<Vec<Value>, RunError> {
        match self {
            Action::Finish(values) => Ok(values),
            Action::Fail(e) => Err(e),
            _ => Err(RunError::State(StateError::OutOfOrder)),
        }
    }

    /// The value that the action delivers, or the error that it reports.
    pub open spec fn delivery(self) -> Result<Value, RunError> {
        match self {
            Action::Deliver(value) => Ok(value),
            Action::Fail(e) => Err(e),
            _ => Err(RunError::State(StateError::OutOfOrder)),
        }
    }

    /// The error that the action reports, if it reports one.
    pub open spec fn failure(self) -> Option<RunError> {
        match self {
            Action::Fail(e) => Some(e),
            _ => None,
        }
    }

    pub fn into_results(self) -> (r: Result<Vec<Value>, RunError>)
        ensures
            r == self.results(),
    {
        match self {
            Action::Finish(values) => Ok(values),
            Action::Fail(e) => Err(e),
            _ => Err(RunError::State(StateError::OutOfOrder)),
        }
    }

    pub fn into_delivery(self) -> (r: Result<Value, RunError>)
        ensures
            r == self.delivery(),
    {
        match self {
            Action::Deliver(value) => Ok(value),
            Action::Fail(e) => Err(e),
            _ => Err(RunError::State(StateError::OutOfOrder)),
        }
    }

    pub fn into_failure(self) -> (r: Option<RunError>)
        ensures
            r == self.failure(),
    {
        match self {
            Action::Fail(e) => Some(e),
            _ => None,
        }
    }
}

/// What a session holds, as plain values.
pub struct SessionState {
    pub budget: u64,
    pub fuel: u64,
    pub phase: Phase,
    pub interface: Option<Interface>,
    pub resolution: Seq<usize>,
    pub export: usize,
    pub pending: Option<PendingCall>,
    pub trap: Option<TrapReason>,
}

impl SessionState {
    /// A session that has just been opened with `budget` units of fuel.
    pub open spec fn fresh(budget: u64) -> SessionState {
        SessionState {
            budget,
            fuel: budget,
            phase: Phase::Created,
            interface: None,
            resolution: Seq::empty(),
            export: 0,
            pending: None,
            trap: None,
        }
    }

    /// The imports that the session was linked with; none before that.
    pub open spec fn imports(self) -> Seq<Import> {
        match self.interface {
            Some(interface) => interface.imports@,
            None => Seq::empty(),
        }
    }

    /// The exports of the artifact that the session was linked with.
    pub open spec fn exports(self) -> Seq<Export> {
        match self.interface {
            Some(interface) => interface.exports@,
            None => Seq::empty(),
        }
    }

    /// Whether the run is over.
    pub open spec fn terminal(self) -> bool {
        self.phase == Phase::Completed || self.phase == Phase::Trapped
    }

    /// How much fuel the run has used.
    pub open spec fn consumed(self) -> int {
        self.budget - self.fuel
    }

    /// The error for an operation that does not belong to the phase.
    pub open spec fn misuse(self) -> RunError {
        if self.terminal() {
            RunError::State(StateError::Terminal)
        } else {
            RunError::State(StateError::OutOfOrder)
        }
    }

    /// The session after a trap: nothing is in flight, and a session that ran
    /// out of fuel has none left.
    pub open spec fn trapped(self, reason: TrapReason) -> SessionState {
        SessionState {
            phase: Phase::Trapped,
            trap: Some(reason),
            pending: None,
            fuel: if reason == TrapReason::FuelExhausted {
                0
            } else {
                self.fuel
            },
            ..self
        }
    }

    /// What holds of every session that was opened and then only used
    /// through its operations.
    pub open spec fn wf(self) -> bool {
        &&& self.fuel <= self.budget
        &&& (self.phase == Phase::Suspended <==> self.pending is Some)
        &&& (self.phase == Phase::Trapped <==> self.trap is Some)
        &&& (self.phase == Phase::Created ==> self.interface is None)
        &&& (self.phase != Phase::Created ==> self.interface is Some && self.resolution.len()
            == self.imports().len())
        &&& (self.phase == Phase::Running || self.phase == Phase::Suspended || self.phase
            == Phase::Completed ==> self.export < self.exports().len())
        &&& (self.phase == Phase::Running || self.phase == Phase::Suspended ==> self.fuel > 0)
        &&& (self.trap == Some(TrapReason::FuelExhausted) ==> self.fuel == 0)
        &&& (self.pending matches Some(PendingCall::Host { import, capability }) ==> import
            < self.imports().len() && capability == self.resolution[import as int])
    }

    /// Binding the artifact's imports: a session that was just created takes
    /// the interface if every import is bound, and stays as it was if not.
    pub open spec fn link(self, interface: Interface, entries: Seq<Capability>) -> (
        SessionState,
        Result<(), RunError>,
    ) {
        if self.phase != Phase::Created {
            (self, Err(self.misuse()))
        } else {
            match link_outcome(entries, interface.imports@) {
                Ok(slots) => (
                    SessionState {
                        phase: Phase::Linked,
                        interface: Some(interface),
                        resolution: slots,
                        ..self
                    },
                    Ok(()),
                ),
                Err(e) => (self, Err(RunError::Link(e))),
            }
        }
    }

    /// Instantiating: once, after linking.
    pub open spec fn instantiate(self) -> (SessionState, Result<(), RunError>) {
        match self.phase {
            Phase::Linked => (SessionState { phase: Phase::Instantiated, ..self }, Ok(())),
            Phase::Instantiated | Phase::Running | Phase::Suspended => (
                self,
                Err(RunError::State(StateError::AlreadyInstantiated)),
            ),
            _ => (self, Err(self.misuse())),
        }
    }

    /// Beginning a call: the export must exist and the arguments must have
    /// its parameter types, else nothing changes. A session without fuel
    /// traps at once.
    pub open spec fn invoke(self, name: Seq<char>, args: Seq<Value>) -> (
        SessionState,
        Result<(), RunError>,
    ) {
        if self.phase != Phase::Instantiated {
            (self, Err(self.misuse()))
        } else {
            match export_index(self.exports(), name) {
                None => (self, Err(RunError::Invocation(InvocationError::ExportMissing))),
                Some(index) => {
                    if !values_conform(args, types_model(self.exports()[index].sig.params@)) {
                        (self, Err(RunError::Invocation(InvocationError::SignatureMismatch)))
                    } else if self.fuel == 0 {
                        (
                            self.trapped(TrapReason::FuelExhausted),
                            Err(RunError::trap(TrapReason::FuelExhausted)),
                        )
                    } else {
                        (
                            SessionState { phase: Phase::Running, export: index as usize, ..self },
                            Ok(()),
                        )
                    }
                },
            }
        }
    }

    /// The session after a trap, with the action that reports it.
    pub open spec fn fail(self, reason: TrapReason) -> (SessionState, Action) {
        (self.trapped(reason), Action::Fail(RunError::trap(reason)))
    }

    /// Whether the running guest may call the import at `import` with `args`:
    /// there is such an import, and the arguments have its parameter types.
    pub open spec fn callable(self, import: usize, args: Seq<Value>) -> bool {
        &&& import < self.imports().len()
        &&& import < self.resolution.len()
        &&& values_conform(args, types_model(self.imports()[import as int].sig.params@))
    }

    /// Whether `value` is what the import at `import` declares as its result.
    pub open spec fn returnable(self, import: usize, value: Value) -> bool {
        &&& import < self.imports().len()
        &&& self.imports()[import as int].sig.results@.len() == 1
        &&& value.conforms(self.imports()[import as int].sig.results@[0].model())
    }

    /// Whether `values` are what the export in progress declares as results.
    pub open spec fn completable(self, values: Seq<Value>) -> bool {
        &&& self.export < self.exports().len()
        &&& values_conform(values, types_model(self.exports()[self.export as int].sig.results@))
    }

    /// The session after `event`, and what to do next.
    pub open spec fn step(self, event: Event) -> (SessionState, Action) {
        if self.phase == Phase::Running {
            match event {
                Event::Consumed(units) => {
                    if units >= self.fuel {
                        self.fail(TrapReason::FuelExhausted)
                    } else {
                        (SessionState { fuel: (self.fuel - units) as u64, ..self }, Action::Continue)
                    }
                },
                Event::HostCall { import, args } => {
                    if self.callable(import, args@) {
                        let capability = self.resolution[import as int];
                        (
                            SessionState {
                                phase: Phase::Suspended,
                                pending: Some(PendingCall::Host { import, capability }),
                                ..self
                            },
                            Action::Dispatch { capability, args },
                        )
                    } else {
                        self.fail(TrapReason::TypeMismatch)
                    }
                },
                Event::Yielded => (
                    SessionState {
                        phase: Phase::Suspended,
                        pending: Some(PendingCall::Guest),
                        ..self
                    },
                    Action::Park,
                ),
                Event::Returned(values) => {
                    if self.completable(values@) {
                        (SessionState { phase: Phase::Completed, ..self }, Action::Finish(values))
                    } else {
                        self.fail(TrapReason::TypeMismatch)
                    }
                },
                Event::Aborted => self.fail(TrapReason::GuestAbort),
                _ => (self, Action::Fail(self.misuse())),
            }
        } else if self.phase == Phase::Suspended {
            match (self.pending, event) {
                (Some(PendingCall::Host { import, .. }), Event::HostReturned(Ok(value))) => {
                    if self.returnable(import, value) {
                        (
                            SessionState { phase: Phase::Running, pending: None, ..self },
                            Action::Deliver(value),
                        )
                    } else {
                        self.fail(TrapReason::TypeMismatch)
                    }
                },
                (Some(PendingCall::Host { .. }), Event::HostReturned(Err(e))) => self.fail(
                    TrapReason::Capability(e),
                ),
                (Some(PendingCall::Guest), Event::Woken) => (
                    SessionState { phase: Phase::Running, pending: None, ..self },
                    Action::Continue,
                ),
                _ => (self, Action::Fail(self.misuse())),
            }
        } else {
            (self, Action::Fail(self.misuse()))
        }
    }

    /// The fuel that the guest has used since the last event, when the engine
    /// says that `fuel_left` is left.
    pub open spec fn used(self, fuel_left: u64) -> u64 {
        if fuel_left <= self.fuel {
            (self.fuel - fuel_left) as u64
        } else {
            0
        }
    }

    /// The session after the fuel that the guest has used is charged.
    pub open spec fn charge(self, fuel_left: u64) -> (SessionState, Action) {
        self.step(Event::Consumed(self.used(fuel_left)))
    }

    /// The session after the guest called the import of that namespace and
    /// name. A call of what the artifact does not import is a trap.
    pub open spec fn host_call(self, namespace: Seq<char>, name: Seq<char>, args: Vec<Value>) -> (
        SessionState,
        Action,
    ) {
        self.step(Event::HostCall { import: self.place_of(namespace, name), args })
    }

    /// The place of the import of that namespace and name, or a place that
    /// no import has.
    pub open spec fn place_of(self, namespace: Seq<char>, name: Seq<char>) -> usize {
        match import_index(self.imports(), namespace, name) {
            Some(i) => i as usize,
            None => usize::MAX,
        }
    }

    /// The session after the guest called the import at `import` with
    /// arguments `args`, and the error if the call was refused.
    pub open spec fn asked(self, import: usize, args: Seq<Value>) -> (
        SessionState,
        Option<RunError>,
    ) {
        if self.phase != Phase::Running {
            (self, Some(self.misuse()))
        } else if self.callable(import, args) {
            (
                SessionState {
                    phase: Phase::Suspended,
                    pending: Some(
                        PendingCall::Host { import, capability: self.resolution[import as int] },
                    ),
                    ..self
                },
                None,
            )
        } else {
            (
                self.trapped(TrapReason::TypeMismatch),
                Some(RunError::trap(TrapReason::TypeMismatch)),
            )
        }
    }

    /// The session after one whole call of a capability whose handler came
    /// back with `outcome`: the fuel used so far is charged, the call is
    /// parked, and the outcome is delivered. Where the engine does not meter
    /// fuel, `fuel_left` is `None` and nothing is charged.
    pub open spec fn serve(
        self,
        fuel_left: Option<u64>,
        namespace: Seq<char>,
        name: Seq<char>,
        args: Seq<Value>,
        outcome: Result<Value, CapabilityError>,
    ) -> (SessionState, Result<Value, RunError>) {
        let (charged, first) = match fuel_left {
            Some(left) => self.charge(left),
            None => (self, Action::Continue),
        };
        match first.failure() {
            Some(e) => (charged, Err(e)),
            None => {
                let (parked, refused) = charged.asked(charged.place_of(namespace, name), args);
                match refused {
                    Some(e) => (parked, Err(e)),
                    None => {
                        let (resumed, answered) = parked.step(Event::HostReturned(outcome));
                        (resumed, answered.delivery())
                    },
                }
            },
        }
    }

    /// The session with the fuel that the engine says is left, where that is
    /// less than the session has.
    pub open spec fn settled(self, fuel_left: Option<u64>) -> SessionState {
        match fuel_left {
            Some(left) => if left <= self.fuel {
                SessionState { fuel: left, ..self }
            } else {
                self
            },
            None => self,
        }
    }

    /// The session after the engine's call came back, with `returned` the
    /// results, or `None` where the engine reported a failure. A session that
    /// trapped during the call reports that trap. A call that completed gives
    /// its results, whatever fuel is left. A call that failed has run out of
    /// fuel if none is left, and else the guest is held to have given up.
    pub open spec fn conclude(self, fuel_left: Option<u64>, returned: Option<Vec<Value>>) -> (
        SessionState,
        Result<Vec<Value>, RunError>,
    ) {
        match self.trap {
            Some(reason) => (self, Err(RunError::trap(reason))),
            None => match returned {
                Some(values) => {
                    if self.phase == Phase::Running {
                        let (ended, last) = self.settled(fuel_left).step(Event::Returned(values));
                        (ended, last.results())
                    } else {
                        (self, Err(self.misuse()))
                    }
                },
                None => {
                    let (charged, first) = match fuel_left {
                        Some(left) => self.charge(left),
                        None => (self, Action::Continue),
                    };
                    match first.failure() {
                        Some(e) => (charged, Err(e)),
                        None => {
                            let (ended, last) = charged.step(Event::Aborted);
                            (ended, last.results())
                        },
                    }
                },
            },
        }
    }
}

/// One isolated, single-use execution context.
#[derive(Debug)]
pub struct Session {
    budget: u64,
    fuel: u64,
    phase: Phase,
    interface: Option<Interface>,
    resolution: Vec<usize>,
    export: usize,
    pending: Option<PendingCall>,
    trap: Option<TrapReason>,
}

impl View for Session {
    type V = SessionState;

    closed spec fn view(&self) -> SessionState {
        SessionState {
            budget: self.budget,
            fuel: self.fuel,
            phase: self.phase,
            interface: self.interface,
            resolution: self.resolution@,
            export: self.export,
            pending: self.pending,
            trap: self.trap,
        }
    }
}

impl Session {
    /// Opens a session with `fuel_budget` units of fuel.
    pub fn open(fuel_budget: u64) -> (s: Session)
        ensures
            s@ == SessionState::fresh(fuel_budget),
    {
        Session {
            budget: fuel_budget,
            fuel: fuel_budget,
            phase: Phase::Created,
            interface: None,
            resolution: Vec::new(),
            export: 0,
            pending: None,
            trap: None,
        }
    }

    /// The fuel that is left.
    pub fn fuel(&self) -> (f: u64)
        ensures
            f == self@.fuel,
    {
        self.fuel
    }

    /// The fuel the session was opened with.
    pub fn budget(&self) -> (b: u64)
        ensures
            b == self@.budget,
    {
        self.budget
    }

    /// Where the session is in its life.
    pub fn phase(&self) -> (p: Phase)
        ensures
            p == self@.phase,
    {
        self.phase
    }

    /// Why the session trapped, if it did.
    pub fn trap(&self) -> (t: Option<TrapReason>)
        ensures
            t == self@.trap,
    {
        self.trap
    }

    /// The call in flight, if the session is suspended.
    pub fn pending(&self) -> (p: Option<PendingCall>)
        ensures
            p == self@.pending,
    {
        self.pending
    }

    /// Whether the run is over.
    pub fn is_terminal(&self) -> (t: bool)
        ensures
            t == self@.terminal(),
    {
        match self.phase {
            Phase::Completed | Phase::Trapped => true,
            _ => false,
        }
    }

    /// The place, among the imports that the session was linked with, of the
    /// import of that namespace and name.
    pub fn find_import(&self, namespace: &str, name: &str) -> (r: Option<usize>)
        ensures
            r == match import_index(self@.imports(), namespace@, name@) {
                Some(i) => Some(i as usize),
                None => None,
            },
    {
        match &self.interface {
            Some(interface) => interface.find_import(namespace, name),
            None => {
                proof {
                    assert forall|k: int|
                        !crate::interface::first_imported(
                            self@.imports(),
                            namespace@,
                            name@,
                            k,
                        ) by {}
                }
                None
            },
        }
    }

    fn misuse(&self) -> (e: RunError)
        ensures
            e == self@.misuse(),
    {
        if self.is_terminal() {
            RunError::State(StateError::Terminal)
        } else {
            RunError::State(StateError::OutOfOrder)
        }
    }

    /// Ends the session with a trap and gives the error that reports it.
    fn trap_with(&mut self, reason: TrapReason) -> (e: RunError)
        ensures
            final(self)@ == old(self)@.trapped(reason),
            e == RunError::trap(reason),
    {
        self.phase = Phase::Trapped;
        self.trap = Some(reason);
        self.pending = None;
        match reason {
            TrapReason::FuelExhausted => {
                self.fuel = 0;
            },
            _ => {},
        }
        RunError::Execution(ExecutionError { reason })
    }

    fn fail(&mut self, reason: TrapReason) -> (a: Action)
        ensures
            (final(self)@, a) == old(self)@.fail(reason),
    {
        Action::Fail(self.trap_with(reason))
    }

    /// Binds the imports of `interface` to the capabilities in `bindings`.
    /// Fails with a `LinkError` if and only if some import has no capability
    /// of its namespace, name and signature; the session is then unchanged.
    pub fn link(&mut self, interface: Interface, bindings: &Bindings) -> (r: Result<(), RunError>)
        ensures
            (final(self)@, r) == old(self)@.link(interface, bindings@),
    {
        match self.phase {
            Phase::Created => {},
            _ => {
                return Err(self.misuse());
            },
        }
        match bindings.link(&interface.imports) {
            Ok(slots) => {
                self.phase = Phase::Linked;
                self.interface = Some(interface);
                self.resolution = slots;
                Ok(())
            },
            Err(e) => Err(RunError::Link(e)),
        }
    }

    /// Records that the artifact was instantiated. A second instantiation is
    /// a `StateError`.
    pub fn instantiate(&mut self) -> (r: Result<(), RunError>)
        ensures
            (final(self)@, r) == old(self)@.instantiate(),
    {
        match self.phase {
            Phase::Linked => {
                self.phase = Phase::Instantiated;
                Ok(())
            },
            Phase::Instantiated | Phase::Running | Phase::Suspended => Err(
                RunError::State(StateError::AlreadyInstantiated),
            ),
            _ => Err(self.misuse()),
        }
    }

    /// Begins the call of the export `export_name` with `args`. A missing
    /// export, or arguments of other types than it declares, are an
    /// `InvocationError`: the guest does not run and no fuel is used.
    pub fn invoke(&mut self, export_name: &str, args: &Vec<Value>) -> (r: Result<(), RunError>)
        ensures
            (final(self)@, r) == old(self)@.invoke(export_name@, args@),
    {
        match self.phase {
            Phase::Instantiated => {},
            _ => {
                return Err(self.misuse());
            },
        }
        let found = match &self.interface {
            Some(interface) => {
                match interface.find_export(export_name) {
                    Some(index) => {
                        if have_types(args, &interface.exports[index].sig.params) {
                            Ok(index)
                        } else {
                            Err(InvocationError::SignatureMismatch)
                        }
                    },
                    None => Err(InvocationError::ExportMissing),
                }
            },
            None => {
                proof {
                    assert(export_index(self@.exports(), export_name@) is None);
                }
                Err(InvocationError::ExportMissing)
            },
        };
        match found {
            Err(e) => Err(RunError::Invocation(e)),
            Ok(index) => {
                if self.fuel == 0 {
                    Err(self.trap_with(TrapReason::FuelExhausted))
                } else {
                    self.phase = Phase::Running;
                    self.export = index;
                    Ok(())
                }
            },
        }
    }

    fn callable(&self, import: usize, args: &Vec<Value>) -> (r: bool)
        ensures
            r == self@.callable(import, args@),
    {
        match &self.interface {
            Some(interface) => {
                import < interface.imports.len() && import < self.resolution.len() && have_types(
                    args,
                    &interface.imports[import].sig.params,
                )
            },
            None => false,
        }
    }

    fn returnable(&self, import: usize, value: &Value) -> (r: bool)
        ensures
            r == self@.returnable(import, *value),
    {
        match &self.interface {
            Some(interface) => {
                import < interface.imports.len() && interface.imports[import].sig.results.len()
                    == 1 && value.has_type(&interface.imports[import].sig.results[0])
            },
            None => false,
        }
    }

    fn completable(&self, values: &Vec<Value>) -> (r: bool)
        ensures
            r == self@.completable(values@),
    {
        match &self.interface {
            Some(interface) => {
                self.export < interface.exports.len() && have_types(
                    values,
                    &interface.exports[self.export].sig.results,
                )
            },
            None => false,
        }
    }

    /// Takes one event and says what to do next. Fuel is used only by a
    /// running guest; a value that a handler resolves with is delivered as it
    /// is; a session that is over takes no more events.
    pub fn step(&mut self, event: Event) -> (action: Action)
        ensures
            (final(self)@, action) == old(self)@.step(event),
    {
        match self.phase {
            Phase::Running => {
                match event {
                    Event::Consumed(units) => {
                        if units >= self.fuel {
                            self.fail(TrapReason::FuelExhausted)
                        } else {
                            self.fuel = self.fuel - units;
                            Action::Continue
                        }
                    },
                    Event::HostCall { import, args } => {
                        if self.callable(import, &args) {
                            let capability = self.resolution[import];
                            self.phase = Phase::Suspended;
                            self.pending = Some(PendingCall::Host { import, capability });
                            Action::Dispatch { capability, args }
                        } else {
                            self.fail(TrapReason::TypeMismatch)
                        }
                    },
                    Event::Yielded => {
                        self.phase = Phase::Suspended;
                        self.pending = Some(PendingCall::Guest);
                        Action::Park
                    },
                    Event::Returned(values) => {
                        if self.completable(&values) {
                            self.phase = Phase::Completed;
                            Action::Finish(values)
                        } else {
                            self.fail(TrapReason::TypeMismatch)
                        }
                    },
                    Event::Aborted => self.fail(TrapReason::GuestAbort),
                    _ => Action::Fail(self.misuse()),
                }
            },
            Phase::Suspended => {
                match (self.pending, event) {
                    (Some(PendingCall::Host { import, .. }), Event::HostReturned(Ok(value))) => {
                        if self.returnable(import, &value) {
                            self.phase = Phase::Running;
                            self.pending = None;
                            Action::Deliver(value)
                        } else {
                            self.fail(TrapReason::TypeMismatch)
                        }
                    },
                    (Some(PendingCall::Host { .. }), Event::HostReturned(Err(e))) => self.fail(
                        TrapReason::Capability(e),
                    ),
                    (Some(PendingCall::Guest), Event::Woken) => {
                        self.phase = Phase::Running;
                        self.pending = None;
                        Action::Continue
                    },
                    _ => Action::Fail(self.misuse()),
                }
            },
            _ => Action::Fail(self.misuse()),
        }
    }

    /// Charges the fuel that the guest has used since the last event, given
    /// what the engine says is left.
    pub fn charge(&mut self, fuel_left: u64) -> (action: Action)
        ensures
            (final(self)@, action) == old(self)@.charge(fuel_left),
    {
        let used = if fuel_left <= self.fuel {
            self.fuel - fuel_left
        } else {
            0
        };
        self.step(Event::Consumed(used))
    }

    /// Takes the guest's call of the import of that namespace and name.
    pub fn host_call(&mut self, namespace: &str, name: &str, args: Vec<Value>) -> (action: Action)
        ensures
            (final(self)@, action) == old(self)@.host_call(namespace@, name@, args),
            (final(self)@, action.failure()) == old(self)@.asked(
                old(self)@.place_of(namespace@, name@),
                args@,
            ),
    {
        let import = match self.find_import(namespace, name) {
            Some(i) => i,
            None => usize::MAX,
        };
        self.step(Event::HostCall { import, args })
    }

    fn charge_if_metered(&mut self, fuel_left: Option<u64>) -> (e: Option<RunError>)
        ensures
            ({
                let (charged, first) = match fuel_left {
                    Some(left) => old(self)@.charge(left),
                    None => (old(self)@, Action::Continue),
                };
                final(self)@ == charged && e == first.failure()
            }),
    {
        match fuel_left {
            Some(left) => self.charge(left).into_failure(),
            None => None,
        }
    }

    /// Serves one call of a capability whose handler came back with
    /// `outcome`, and gives the value to hand to the guest.
    pub fn serve(
        &mut self,
        fuel_left: Option<u64>,
        namespace: &str,
        name: &str,
        args: Vec<Value>,
        outcome: Result<Value, CapabilityError>,
    ) -> (r: Result<Value, RunError>)
        ensures
            (final(self)@, r) == old(self)@.serve(fuel_left, namespace@, name@, args@, outcome),
    {
        if let Some(e) = self.charge_if_metered(fuel_left) {
            return Err(e);
        }
        if let Some(e) = self.host_call(namespace, name, args).into_failure() {
            return Err(e);
        }
        self.step(Event::HostReturned(outcome)).into_delivery()
    }

    /// Ends the run when the engine's call has come back: with the results,
    /// or with the trap that ended it.
    pub fn conclude(&mut self, fuel_left: Option<u64>, returned: Option<Vec<Value>>) -> (r: Result<
        Vec<Value>,
        RunError,
    >)
        ensures
            (final(self)@, r) == old(self)@.conclude(fuel_left, returned),
    {
        if let Some(reason) = self.trap {
            return Err(RunError::Execution(ExecutionError { reason }));
        }
        match returned {
            Some(values) => {
                match self.phase {
                    Phase::Running => {},
                    _ => {
                        return Err(self.misuse());
                    },
                }
                if let Some(left) = fuel_left {
                    if left <= self.fuel {
                        self.fuel = left;
                    }
                }
                self.step(Event::Returned(values)).into_results()
            },
            None => {
                if let Some(e) = self.charge_if_metered(fuel_left) {
                    return Err(e);
                }
                self.step(Event::Aborted).into_results()
            },
        }
    }
}

} // verus!
