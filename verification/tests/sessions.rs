use sandbox_host::capability::{Bindings, CapabilityTable};
use sandbox_host::error::{
    CapabilityError, ExecutionError, InvocationError, LinkError, RunError, StateError, TrapReason,
};
use sandbox_host::interface::{Export, Import, Interface, Signature};
use sandbox_host::runtime::{Runtime, UNKNOWN_CAPABILITY};
use sandbox_host::session::{Action, Event, PendingCall, Phase, Session};
use sandbox_host::value::{Value, ValueType};

fn returns_string() -> Signature {
    Signature { params: vec![], results: vec![ValueType::Str], is_async: false }
}

fn guest() -> Interface {
    Interface {
        imports: vec![Import {
            namespace: "context".to_string(),
            name: "foo".to_string(),
            sig: returns_string(),
        }],
        exports: vec![
            Export { name: "use-foo".to_string(), sig: returns_string() },
            Export {
                name: "add".to_string(),
                sig: Signature {
                    params: vec![ValueType::U32, ValueType::U32],
                    results: vec![ValueType::U32],
                    is_async: false,
                },
            },
        ],
    }
}

fn host() -> Bindings {
    let mut table = CapabilityTable::new();
    table.register("context".to_string(), "foo".to_string(), returns_string()).unwrap();
    table.build()
}

fn trap(reason: TrapReason) -> RunError {
    RunError::Execution(ExecutionError { reason })
}

fn running(fuel: u64, export: &str, args: Vec<Value>) -> Session {
    let mut session = Session::open(fuel);
    session.link(guest(), &host()).unwrap();
    session.instantiate().unwrap();
    session.invoke(export, &args).unwrap();
    session
}

fn failed(action: Action) -> RunError {
    match action {
        Action::Fail(e) => e,
        other => panic!("expected a failure, got {:?}", other),
    }
}

#[test]
fn open_sets_the_budget() {
    let session = Session::open(7);
    assert_eq!(session.fuel(), 7);
    assert_eq!(session.budget(), 7);
    assert_eq!(session.phase(), Phase::Created);
    assert_eq!(session.trap(), None);
    assert_eq!(session.pending(), None);
    assert!(!session.is_terminal());
}

#[test]
fn phases_follow_in_order() {
    let mut session = Session::open(10);
    assert_eq!(session.link(guest(), &host()), Ok(()));
    assert_eq!(session.phase(), Phase::Linked);
    assert_eq!(session.instantiate(), Ok(()));
    assert_eq!(session.phase(), Phase::Instantiated);
    assert_eq!(session.invoke("use-foo", &vec![]), Ok(()));
    assert_eq!(session.phase(), Phase::Running);
    assert_eq!(session.fuel(), 10);
}

#[test]
fn operations_out_of_order_are_refused() {
    let mut session = Session::open(10);
    assert_eq!(session.instantiate(), Err(RunError::State(StateError::OutOfOrder)));
    assert_eq!(session.invoke("use-foo", &vec![]), Err(RunError::State(StateError::OutOfOrder)));
    assert_eq!(failed(session.step(Event::Consumed(1))), RunError::State(StateError::OutOfOrder));
    assert_eq!(session.phase(), Phase::Created);
    assert_eq!(session.fuel(), 10);
    session.link(guest(), &host()).unwrap();
    assert_eq!(session.link(guest(), &host()), Err(RunError::State(StateError::OutOfOrder)));
    assert_eq!(session.invoke("use-foo", &vec![]), Err(RunError::State(StateError::OutOfOrder)));
    assert_eq!(session.phase(), Phase::Linked);
}

#[test]
fn second_instantiation_is_a_state_error() {
    let mut session = Session::open(10);
    session.link(guest(), &host()).unwrap();
    assert_eq!(session.instantiate(), Ok(()));
    assert_eq!(session.instantiate(), Err(RunError::State(StateError::AlreadyInstantiated)));
    session.invoke("use-foo", &vec![]).unwrap();
    assert_eq!(session.instantiate(), Err(RunError::State(StateError::AlreadyInstantiated)));
    assert_eq!(session.phase(), Phase::Running);
}

#[test]
fn link_error_leaves_the_session_created() {
    let mut session = Session::open(10);
    let nothing = CapabilityTable::new().build();
    assert_eq!(
        session.link(guest(), &nothing),
        Err(RunError::Link(LinkError::Unresolved { import: 0 }))
    );
    assert_eq!(session.phase(), Phase::Created);
    assert_eq!(session.fuel(), 10);
    assert_eq!(session.link(guest(), &host()), Ok(()));
}

#[test]
fn wrong_arguments_are_refused_before_the_guest_runs() {
    let mut session = Session::open(10);
    session.link(guest(), &host()).unwrap();
    session.instantiate().unwrap();
    let mismatch = Err(RunError::Invocation(InvocationError::SignatureMismatch));
    assert_eq!(session.invoke("add", &vec![Value::U32(1)]), mismatch);
    assert_eq!(session.invoke("add", &vec![Value::U32(1), Value::S32(2)]), mismatch);
    assert_eq!(session.invoke("use-foo", &vec![Value::Bool(true)]), mismatch);
    assert_eq!(session.phase(), Phase::Instantiated);
    assert_eq!(session.fuel(), 10);
    assert_eq!(session.invoke("add", &vec![Value::U32(1), Value::U32(2)]), Ok(()));
    assert_eq!(session.phase(), Phase::Running);
}

#[test]
fn fuel_is_charged_while_running() {
    let mut session = running(10, "use-foo", vec![]);
    assert!(matches!(session.step(Event::Consumed(3)), Action::Continue));
    assert_eq!(session.fuel(), 7);
    assert!(matches!(session.step(Event::Consumed(0)), Action::Continue));
    assert_eq!(session.fuel(), 7);
    assert!(matches!(session.step(Event::Consumed(6)), Action::Continue));
    assert_eq!(session.fuel(), 1);
    assert_eq!(session.budget(), 10);
}

#[test]
fn reaching_zero_traps() {
    let mut session = running(10, "use-foo", vec![]);
    assert_eq!(failed(session.step(Event::Consumed(10))), trap(TrapReason::FuelExhausted));
    assert_eq!(session.phase(), Phase::Trapped);
    assert_eq!(session.trap(), Some(TrapReason::FuelExhausted));
    assert_eq!(session.fuel(), 0);
    assert!(session.is_terminal());

    let mut other = running(10, "use-foo", vec![]);
    assert_eq!(failed(other.step(Event::Consumed(u64::MAX))), trap(TrapReason::FuelExhausted));
    assert_eq!(other.fuel(), 0);
}

#[test]
fn zero_budget_traps_at_once() {
    let mut session = Session::open(0);
    session.link(guest(), &host()).unwrap();
    session.instantiate().unwrap();
    assert_eq!(session.invoke("use-foo", &vec![]), Err(trap(TrapReason::FuelExhausted)));
    assert_eq!(session.phase(), Phase::Trapped);
    assert_eq!(session.trap(), Some(TrapReason::FuelExhausted));
    assert_eq!(session.fuel(), 0);
}

#[test]
fn host_call_parks_and_delivers_the_value() {
    let mut session = running(10, "use-foo", vec![]);
    session.step(Event::Consumed(2));
    match session.step(Event::HostCall { import: 0, args: vec![] }) {
        Action::Dispatch { capability, args } => {
            assert_eq!(capability, 0);
            assert!(args.is_empty());
        }
        other => panic!("{:?}", other),
    }
    assert_eq!(session.phase(), Phase::Suspended);
    assert_eq!(session.pending(), Some(PendingCall::Host { import: 0, capability: 0 }));
    assert_eq!(session.fuel(), 8);
    match session.step(Event::HostReturned(Ok(Value::Str("V".to_string())))) {
        Action::Deliver(Value::Str(s)) => assert_eq!(s, "V"),
        other => panic!("{:?}", other),
    }
    assert_eq!(session.phase(), Phase::Running);
    assert_eq!(session.pending(), None);
    assert_eq!(session.fuel(), 8);
}

#[test]
fn parked_session_takes_no_fuel_events() {
    let mut session = running(10, "use-foo", vec![]);
    session.step(Event::HostCall { import: 0, args: vec![] });
    assert_eq!(failed(session.step(Event::Consumed(1))), RunError::State(StateError::OutOfOrder));
    assert_eq!(failed(session.step(Event::Returned(vec![]))), RunError::State(StateError::OutOfOrder));
    assert_eq!(failed(session.step(Event::Woken)), RunError::State(StateError::OutOfOrder));
    assert_eq!(session.phase(), Phase::Suspended);
    assert_eq!(session.fuel(), 10);
}

#[test]
fn failing_handler_traps_the_session() {
    let mut session = running(10, "use-foo", vec![]);
    session.step(Event::HostCall { import: 0, args: vec![] });
    let error = CapabilityError { code: 42 };
    assert_eq!(
        failed(session.step(Event::HostReturned(Err(error)))),
        trap(TrapReason::Capability(error))
    );
    assert_eq!(session.trap(), Some(TrapReason::Capability(CapabilityError { code: 42 })));
    assert_eq!(session.pending(), None);
    assert_eq!(session.fuel(), 10);
    assert!(session.is_terminal());
}

#[test]
fn values_of_the_wrong_type_trap_at_the_boundary() {
    let mut calls = running(10, "use-foo", vec![]);
    assert_eq!(
        failed(calls.step(Event::HostCall { import: 0, args: vec![Value::U8(1)] })),
        trap(TrapReason::TypeMismatch)
    );
    let mut unknown = running(10, "use-foo", vec![]);
    assert_eq!(
        failed(unknown.step(Event::HostCall { import: 1, args: vec![] })),
        trap(TrapReason::TypeMismatch)
    );
    let mut answers = running(10, "use-foo", vec![]);
    answers.step(Event::HostCall { import: 0, args: vec![] });
    assert_eq!(
        failed(answers.step(Event::HostReturned(Ok(Value::U32(1))))),
        trap(TrapReason::TypeMismatch)
    );
    let mut returns = running(10, "use-foo", vec![]);
    assert_eq!(
        failed(returns.step(Event::Returned(vec![Value::U32(1)]))),
        trap(TrapReason::TypeMismatch)
    );
    assert_eq!(returns.fuel(), 10);
    let mut empty = running(10, "use-foo", vec![]);
    assert_eq!(failed(empty.step(Event::Returned(vec![]))), trap(TrapReason::TypeMismatch));
}

#[test]
fn guest_may_yield_and_be_woken() {
    let mut session = running(10, "use-foo", vec![]);
    assert!(matches!(session.step(Event::Yielded), Action::Park));
    assert_eq!(session.phase(), Phase::Suspended);
    assert_eq!(session.pending(), Some(PendingCall::Guest));
    assert_eq!(
        failed(session.step(Event::HostReturned(Ok(Value::Str("x".to_string()))))),
        RunError::State(StateError::OutOfOrder)
    );
    assert!(matches!(session.step(Event::Woken), Action::Continue));
    assert_eq!(session.phase(), Phase::Running);
    assert_eq!(session.pending(), None);
    assert_eq!(session.fuel(), 10);
}

#[test]
fn guest_abort_is_a_trap() {
    let mut session = running(10, "use-foo", vec![]);
    session.step(Event::Consumed(4));
    assert_eq!(failed(session.step(Event::Aborted)), trap(TrapReason::GuestAbort));
    assert_eq!(session.phase(), Phase::Trapped);
    assert_eq!(session.fuel(), 6);
}

#[test]
fn completed_session_takes_nothing_more() {
    let mut session = running(10, "add", vec![Value::U32(1), Value::U32(2)]);
    match session.step(Event::Returned(vec![Value::U32(3)])) {
        Action::Finish(values) => assert!(matches!(values[..], [Value::U32(3)])),
        other => panic!("{:?}", other),
    }
    assert_eq!(session.phase(), Phase::Completed);
    assert!(session.is_terminal());
    let over = RunError::State(StateError::Terminal);
    assert_eq!(failed(session.step(Event::Consumed(1))), over);
    assert_eq!(failed(session.step(Event::Returned(vec![Value::U32(3)]))), over);
    assert_eq!(session.instantiate(), Err(over));
    assert_eq!(session.invoke("add", &vec![Value::U32(1), Value::U32(2)]), Err(over));
    assert_eq!(session.link(guest(), &host()), Err(over));
    assert_eq!(session.phase(), Phase::Completed);
    assert_eq!(session.fuel(), 10);
}

#[test]
fn trapped_session_takes_nothing_more() {
    let mut session = running(1, "use-foo", vec![]);
    session.step(Event::Consumed(5));
    let over = RunError::State(StateError::Terminal);
    assert_eq!(failed(session.step(Event::Woken)), over);
    assert_eq!(failed(session.step(Event::Aborted)), over);
    assert_eq!(session.instantiate(), Err(over));
    assert_eq!(session.trap(), Some(TrapReason::FuelExhausted));
}

#[test]
fn trap_reason_is_read_off_the_error() {
    assert_eq!(trap(TrapReason::GuestAbort).trap_reason(), Some(TrapReason::GuestAbort));
    assert_eq!(RunError::State(StateError::Terminal).trap_reason(), None);
    assert_eq!(RunError::Link(LinkError::Duplicate).trap_reason(), None);
    assert_eq!(RunError::Invocation(InvocationError::ExportMissing).trap_reason(), None);
}

#[test]
fn same_events_give_the_same_outcome() {
    let play = || {
        let mut session = running(50, "use-foo", vec![]);
        session.step(Event::Consumed(5));
        session.step(Event::HostCall { import: 0, args: vec![] });
        session.step(Event::HostReturned(Ok(Value::Str("foo".to_string()))));
        session.step(Event::Consumed(7));
        let last = session.step(Event::Returned(vec![Value::Str("foo".to_string())]));
        (format!("{:?}", last), session.fuel(), session.phase())
    };
    assert_eq!(play(), play());
    assert_eq!(play().1, 38);
}

#[test]
fn fuel_reported_in_parts_adds_up() {
    let mut whole = running(10, "use-foo", vec![]);
    let mut parts = running(10, "use-foo", vec![]);
    whole.step(Event::Consumed(7));
    parts.step(Event::Consumed(3));
    parts.step(Event::Consumed(4));
    assert_eq!(whole.fuel(), 3);
    assert_eq!(parts.fuel(), 3);
    assert_eq!(parts.phase(), whole.phase());

    let mut whole = running(10, "use-foo", vec![]);
    let mut parts = running(10, "use-foo", vec![]);
    whole.step(Event::Consumed(12));
    parts.step(Event::Consumed(6));
    parts.step(Event::Consumed(6));
    assert_eq!(whole.fuel(), 0);
    assert_eq!(parts.fuel(), 0);
    assert_eq!(whole.trap(), Some(TrapReason::FuelExhausted));
    assert_eq!(parts.trap(), Some(TrapReason::FuelExhausted));
}

#[test]
fn charge_takes_what_the_engine_says_is_left() {
    let mut session = running(10, "use-foo", vec![]);
    assert!(matches!(session.charge(7), Action::Continue));
    assert_eq!(session.fuel(), 7);
    assert!(matches!(session.charge(7), Action::Continue));
    assert_eq!(session.fuel(), 7);
    assert!(matches!(session.charge(9), Action::Continue));
    assert_eq!(session.fuel(), 7);
    assert_eq!(failed(session.charge(0)), trap(TrapReason::FuelExhausted));
    assert_eq!(session.fuel(), 0);
}

#[test]
fn host_call_by_name_finds_the_import() {
    let mut session = running(10, "use-foo", vec![]);
    match session.host_call("context", "foo", vec![]) {
        Action::Dispatch { capability, args } => {
            assert_eq!(capability, 0);
            assert!(args.is_empty());
        }
        other => panic!("{:?}", other),
    }
    assert_eq!(session.pending(), Some(PendingCall::Host { import: 0, capability: 0 }));
    let mut unknown = running(10, "use-foo", vec![]);
    assert_eq!(failed(unknown.host_call("context", "bar", vec![])), trap(TrapReason::TypeMismatch));
    let mut early = Session::open(10);
    assert_eq!(
        failed(early.host_call("context", "foo", vec![])),
        RunError::State(StateError::OutOfOrder)
    );
}

#[test]
fn serve_charges_parks_and_delivers() {
    let mut session = running(10, "use-foo", vec![]);
    let answer = Ok(Value::Str("foo".to_string()));
    assert_eq!(
        session.serve(Some(6), "context", "foo", vec![], answer),
        Ok(Value::Str("foo".to_string()))
    );
    assert_eq!(session.phase(), Phase::Running);
    assert_eq!(session.fuel(), 6);
    assert_eq!(session.pending(), None);

    let mut unmetered = running(10, "use-foo", vec![]);
    assert_eq!(
        unmetered.serve(None, "context", "foo", vec![], Ok(Value::Str("x".to_string()))),
        Ok(Value::Str("x".to_string()))
    );
    assert_eq!(unmetered.fuel(), 10);

    let mut spent = running(10, "use-foo", vec![]);
    assert_eq!(
        spent.serve(Some(0), "context", "foo", vec![], Ok(Value::Str("x".to_string()))),
        Err(trap(TrapReason::FuelExhausted))
    );
    let mut wrong = running(10, "use-foo", vec![]);
    assert_eq!(
        wrong.serve(Some(9), "context", "foo", vec![], Ok(Value::U8(1))),
        Err(trap(TrapReason::TypeMismatch))
    );
    let mut failing = running(10, "use-foo", vec![]);
    assert_eq!(
        failing.serve(Some(9), "context", "foo", vec![], Err(CapabilityError { code: 3 })),
        Err(trap(TrapReason::Capability(CapabilityError { code: 3 })))
    );
    let mut unknown = running(10, "use-foo", vec![]);
    assert_eq!(
        unknown.serve(Some(9), "context", "bar", vec![], Ok(Value::Str("x".to_string()))),
        Err(trap(TrapReason::TypeMismatch))
    );
}

#[test]
fn conclude_ends_the_run() {
    let mut done = running(10, "use-foo", vec![]);
    assert_eq!(
        done.conclude(Some(4), Some(vec![Value::Str("foo".to_string())])),
        Ok(vec![Value::Str("foo".to_string())])
    );
    assert_eq!(done.phase(), Phase::Completed);
    assert_eq!(done.fuel(), 4);

    let mut aborted = running(10, "use-foo", vec![]);
    assert_eq!(aborted.conclude(Some(4), None), Err(trap(TrapReason::GuestAbort)));
    assert_eq!(aborted.fuel(), 4);

    let mut exhausted = running(10, "use-foo", vec![]);
    assert_eq!(exhausted.conclude(Some(0), None), Err(trap(TrapReason::FuelExhausted)));
    assert_eq!(exhausted.fuel(), 0);

    let mut spent = running(10, "use-foo", vec![]);
    assert_eq!(
        spent.conclude(Some(0), Some(vec![Value::Str("foo".to_string())])),
        Ok(vec![Value::Str("foo".to_string())])
    );
    assert_eq!(spent.phase(), Phase::Completed);
    assert_eq!(spent.fuel(), 0);

    let mut more = running(10, "use-foo", vec![]);
    assert_eq!(
        more.conclude(Some(12), Some(vec![Value::Str("foo".to_string())])),
        Ok(vec![Value::Str("foo".to_string())])
    );
    assert_eq!(more.fuel(), 10);

    let mut linked = Session::open(10);
    linked.link(guest(), &host()).unwrap();
    assert_eq!(
        linked.conclude(Some(5), Some(vec![Value::Str("foo".to_string())])),
        Err(RunError::State(StateError::OutOfOrder))
    );
    assert_eq!(linked.fuel(), 10);

    let mut mistyped = running(10, "use-foo", vec![]);
    assert_eq!(
        mistyped.conclude(Some(4), Some(vec![Value::U8(1)])),
        Err(trap(TrapReason::TypeMismatch))
    );

    let mut trapped = running(10, "use-foo", vec![]);
    let _ = trapped.serve(Some(9), "context", "foo", vec![], Err(CapabilityError { code: 3 }));
    assert_eq!(
        trapped.conclude(Some(2), None),
        Err(trap(TrapReason::Capability(CapabilityError { code: 3 })))
    );
    assert_eq!(trapped.fuel(), 9);

    let mut unmetered = running(10, "use-foo", vec![]);
    assert_eq!(
        unmetered.conclude(None, Some(vec![Value::Str("a".to_string())])),
        Ok(vec![Value::Str("a".to_string())])
    );
    assert_eq!(unmetered.fuel(), 10);

    let mut early = Session::open(10);
    assert_eq!(early.conclude(Some(10), None), Err(RunError::State(StateError::OutOfOrder)));
}

#[test]
fn actions_turn_into_results() {
    let over = RunError::State(StateError::Terminal);
    assert_eq!(Action::Finish(vec![Value::U8(1)]).into_results(), Ok(vec![Value::U8(1)]));
    assert_eq!(Action::Fail(over).into_results(), Err(over));
    assert_eq!(Action::Continue.into_results(), Err(RunError::State(StateError::OutOfOrder)));
    assert_eq!(Action::Deliver(Value::U8(1)).into_delivery(), Ok(Value::U8(1)));
    assert_eq!(Action::Fail(over).into_delivery(), Err(over));
    assert_eq!(Action::Park.into_delivery(), Err(RunError::State(StateError::OutOfOrder)));
    assert_eq!(Action::Fail(over).into_failure(), Some(over));
    assert_eq!(Action::Continue.into_failure(), None);
}

#[test]
fn serving_foo_answers_foo() {
    let mut session = Session::open(10);
    let interface = Interface {
        imports: vec![Import {
            namespace: "contract:built-in/context".to_string(),
            name: "foo".to_string(),
            sig: returns_string(),
        }],
        exports: vec![Export { name: "use-foo".to_string(), sig: returns_string() }],
    };
    session.link(interface, &Runtime::capabilities()).unwrap();
    session.instantiate().unwrap();
    session.invoke("use-foo", &vec![]).unwrap();
    let context = "contract:built-in/context";
    assert_eq!(Runtime::serve(&mut session, Some(8), context, "foo"), Ok("foo".to_string()));
    assert_eq!(session.fuel(), 8);
    assert_eq!(session.phase(), Phase::Running);
    assert_eq!(
        Runtime::serve(&mut session, Some(0), context, "foo"),
        Err(trap(TrapReason::FuelExhausted))
    );
    let mut early = Session::open(10);
    assert_eq!(
        Runtime::serve(&mut early, None, context, "foo"),
        Err(RunError::State(StateError::OutOfOrder))
    );
}

#[test]
fn capability_without_a_handler_fails() {
    let unknown = CapabilityError { code: UNKNOWN_CAPABILITY };
    assert_eq!(UNKNOWN_CAPABILITY, 1);
    assert_eq!(Runtime::answer("contract:built-in/context", "foo"), Ok(Value::Str("foo".to_string())));
    assert_eq!(Runtime::answer("contract:built-in/context", "bar"), Err(unknown));
    assert_eq!(Runtime::answer("context", "foo"), Err(unknown));
    let mut session = running(10, "use-foo", vec![]);
    assert_eq!(
        Runtime::serve(&mut session, Some(9), "context", "foo"),
        Err(trap(TrapReason::Capability(unknown)))
    );
    assert_eq!(session.phase(), Phase::Trapped);
    assert_eq!(session.fuel(), 9);
}
