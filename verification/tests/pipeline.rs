use simple_api_rs::config::FaultInjectConfig;
use simple_api_rs::fault_inject::FaultInject;
use simple_api_rs::logging::LogType;
use simple_api_rs::pipeline::{
    FaultInjectEndpoint, Reply, RequestAction, RequestEvent, RequestState, Transition,
};

fn settings() -> FaultInject {
    FaultInject::new().with_error_rate(100_000).with_delay(50, 100).with_timeout(2).with_status(503)
}

fn step(e: &FaultInjectEndpoint, state: RequestState, event: RequestEvent) -> Transition {
    e.step(state, event).expect("the event belongs to the state")
}

fn log_of(action: &RequestAction) -> (LogType, String) {
    match action {
        RequestAction::Log(m) => (m.0, m.1.clone()),
        other => panic!("expected a message, got {:?}", other),
    }
}

/// Drives a request to its end and gives the states it went through, the
/// messages it logged, the delay it waited, whether the inner handler was
/// called, and the reply.
fn drive(
    e: &FaultInjectEndpoint,
    arrival: RequestEvent,
    inner: fn() -> RequestEvent,
) -> (Vec<RequestState>, Vec<(LogType, String)>, u64, u32, Reply) {
    let mut states = vec![RequestState::Received];
    let mut logs = Vec::new();
    let mut waited = 0;
    let mut inner_calls = 0;
    let mut event = arrival;
    loop {
        let t = step(e, *states.last().expect("never empty"), event);
        states.push(t.state);
        event = match t.action {
            RequestAction::Nothing => RequestEvent::Done,
            RequestAction::Delay { announce, micros } => {
                logs.push((announce.0, announce.1));
                waited += micros;
                RequestEvent::Done
            }
            RequestAction::Forward { .. } => {
                inner_calls += 1;
                inner()
            }
            RequestAction::Log(m) => {
                logs.push((m.0, m.1));
                RequestEvent::Done
            }
            RequestAction::Return(reply) => return (states, logs, waited, inner_calls, reply),
        };
    }
}

#[test]
fn new_endpoint_injects_no_failures() {
    let e = FaultInjectEndpoint::new(settings());
    assert_eq!(e.cfg, settings());
    assert!(!e.inject_errors);
    assert!(e.with_error_injection(true).inject_errors);
    assert!(!e.with_error_injection(true).with_error_injection(false).inject_errors);
}

#[test]
fn arrival_draws_within_bounds() {
    let e = FaultInjectEndpoint::new(settings());
    for _ in 0..1000 {
        match e.arrival() {
            RequestEvent::Arrived { delay_offset, fail_draw } => {
                assert!(delay_offset <= 50);
                assert!(fail_draw < 1_000_000);
            }
            other => panic!("expected an arrival, got {:?}", other),
        }
    }
}

#[test]
fn arrival_of_a_reversed_range_has_no_offset() {
    let e = FaultInjectEndpoint::new(FaultInject::new().with_delay(9, 3));
    for _ in 0..100 {
        assert!(matches!(e.arrival(), RequestEvent::Arrived { delay_offset: 0, .. }));
    }
}

#[test]
fn arrival_schedules_and_announces_the_delay() {
    let e = FaultInjectEndpoint::new(settings());
    let t = step(
        &e,
        RequestState::Received,
        RequestEvent::Arrived { delay_offset: 25, fail_draw: 7 },
    );
    assert_eq!(t.state, RequestState::DelayScheduled { fail_draw: 7 });
    match t.action {
        RequestAction::Delay { announce, micros } => {
            assert_eq!(micros, 75);
            assert_eq!(announce.0, LogType::Info);
            assert_eq!(announce.1, "Injecting delay of 75us");
        }
        other => panic!("expected a delay, got {:?}", other),
    }
}

#[test]
fn request_that_succeeds() {
    let e = FaultInjectEndpoint::new(settings());
    let arrival = RequestEvent::Arrived { delay_offset: 0, fail_draw: 0 };
    let (states, logs, waited, inner_calls, reply) = drive(&e, arrival, || RequestEvent::InnerOk);
    assert_eq!(
        states,
        vec![
            RequestState::Received,
            RequestState::DelayScheduled { fail_draw: 0 },
            RequestState::DelaySatisfied { fail_draw: 0 },
            RequestState::Forwarded,
            RequestState::Succeeded,
            RequestState::Logged { reply: Reply::Inner },
            RequestState::Returned,
        ]
    );
    assert_eq!(
        logs,
        vec![
            (LogType::Info, "Injecting delay of 50us".to_string()),
            (LogType::Info, "Response from endpoints has been ok".to_string()),
        ]
    );
    assert_eq!(waited, 50);
    assert_eq!(inner_calls, 1);
    assert_eq!(reply, Reply::Inner);
}

#[test]
fn request_whose_handler_fails() {
    let e = FaultInjectEndpoint::new(settings());
    let arrival = RequestEvent::Arrived { delay_offset: 50, fail_draw: 999_999 };
    let (states, logs, waited, inner_calls, reply) =
        drive(&e, arrival, || RequestEvent::InnerErr("NotFoundError".to_string()));
    assert_eq!(states[3], RequestState::Forwarded);
    assert_eq!(states[4], RequestState::Failed { reply: Reply::Failure });
    assert_eq!(states[5], RequestState::Logged { reply: Reply::Failure });
    assert_eq!(states[6], RequestState::Returned);
    assert_eq!(states.len(), 7);
    assert_eq!(
        logs,
        vec![
            (LogType::Info, "Injecting delay of 100us".to_string()),
            (LogType::Error, "FaultInject middleware: NotFoundError".to_string()),
        ]
    );
    assert_eq!(waited, 100);
    assert_eq!(inner_calls, 1);
    assert_eq!(reply, Reply::Failure);
}

#[test]
fn request_that_times_out_gets_the_error_status() {
    let e = FaultInjectEndpoint::new(settings());
    let arrival = RequestEvent::Arrived { delay_offset: 1, fail_draw: 5 };
    let (states, logs, _, inner_calls, reply) = drive(&e, arrival, || RequestEvent::InnerTimedOut);
    assert_eq!(states[4], RequestState::TimedOut);
    assert_eq!(states[5], RequestState::Logged { reply: Reply::Status(503) });
    assert_eq!(states.len(), 7);
    assert_eq!(
        logs[1],
        (LogType::Error, "FaultInject middleware: request timed out".to_string())
    );
    assert_eq!(inner_calls, 1);
    assert_eq!(reply, Reply::Status(503));
}

#[test]
fn forward_carries_the_timeout() {
    let e = FaultInjectEndpoint::new(settings());
    let t = step(&e, RequestState::DelaySatisfied { fail_draw: 0 }, RequestEvent::Done);
    assert_eq!(t.state, RequestState::Forwarded);
    assert!(matches!(t.action, RequestAction::Forward { timeout: Some(2) }));

    let none = FaultInjectEndpoint::new(FaultInject::new());
    let t = step(&none, RequestState::DelaySatisfied { fail_draw: 0 }, RequestEvent::Done);
    assert!(matches!(t.action, RequestAction::Forward { timeout: None }));
}

#[test]
fn timeout_without_a_configured_timeout_is_refused() {
    let e = FaultInjectEndpoint::new(FaultInject::new());
    assert!(e.step(RequestState::Forwarded, RequestEvent::InnerTimedOut).is_none());
}

#[test]
fn zero_delays_and_no_timeout_add_nothing() {
    let e = FaultInjectEndpoint::new(FaultInject::new());
    for _ in 0..100 {
        let (_, logs, waited, inner_calls, reply) =
            drive(&e, e.arrival(), || RequestEvent::InnerOk);
        assert_eq!(waited, 0);
        assert_eq!(logs[0], (LogType::Info, "Injecting delay of 0us".to_string()));
        assert_eq!(inner_calls, 1);
        assert_eq!(reply, Reply::Inner);
    }
}

#[test]
fn settings_without_a_timeout_leave_the_inner_handler_unbounded() {
    let config = FaultInjectConfig {
        error_rate: 0,
        min_delay: 0,
        max_delay: 0,
        timeout: None,
        status_on_error: 500,
    };
    let settings = FaultInject::try_from(&config).expect("the settings pass");
    let e = FaultInjectEndpoint::new(settings);
    let t = step(&e, RequestState::DelaySatisfied { fail_draw: 0 }, RequestEvent::Done);
    assert!(matches!(t.action, RequestAction::Forward { timeout: None }));
    let (_, logs, waited, inner_calls, reply) = drive(&e, e.arrival(), || RequestEvent::InnerOk);
    assert_eq!(waited, 0);
    assert_eq!(logs.len(), 2);
    assert_eq!(inner_calls, 1);
    assert_eq!(reply, Reply::Inner);
}

#[test]
fn injection_is_off_until_switched_on() {
    let always = FaultInject::new().with_error_rate(1_000_000).with_status(500);
    let e = FaultInjectEndpoint::new(always);
    for _ in 0..100 {
        let (_, _, _, inner_calls, reply) = drive(&e, e.arrival(), || RequestEvent::InnerOk);
        assert_eq!(inner_calls, 1);
        assert_eq!(reply, Reply::Inner);
    }
}

#[test]
fn injected_failure_skips_the_inner_handler() {
    let e = FaultInjectEndpoint::new(settings()).with_error_injection(true);
    let arrival = RequestEvent::Arrived { delay_offset: 10, fail_draw: 99_999 };
    let (states, logs, waited, inner_calls, reply) =
        drive(&e, arrival, || panic!("the inner handler must not be called"));
    assert_eq!(
        states,
        vec![
            RequestState::Received,
            RequestState::DelayScheduled { fail_draw: 99_999 },
            RequestState::DelaySatisfied { fail_draw: 99_999 },
            RequestState::ShortCircuitedError,
            RequestState::Failed { reply: Reply::Status(503) },
            RequestState::Logged { reply: Reply::Status(503) },
            RequestState::Returned,
        ]
    );
    assert_eq!(
        logs,
        vec![
            (LogType::Info, "Injecting delay of 60us".to_string()),
            (LogType::Error, "FaultInject middleware: injected failure".to_string()),
        ]
    );
    assert_eq!(waited, 60);
    assert_eq!(inner_calls, 0);
    assert_eq!(reply, Reply::Status(503));
}

#[test]
fn draw_at_the_rate_is_forwarded() {
    let e = FaultInjectEndpoint::new(settings()).with_error_injection(true);
    let t = step(&e, RequestState::DelaySatisfied { fail_draw: 100_000 }, RequestEvent::Done);
    assert_eq!(t.state, RequestState::Forwarded);
    let t = step(&e, RequestState::DelaySatisfied { fail_draw: 99_999 }, RequestEvent::Done);
    assert_eq!(t.state, RequestState::ShortCircuitedError);
    assert!(matches!(t.action, RequestAction::Nothing));
}

#[test]
fn injection_with_rate_one_fails_every_request() {
    let always = FaultInject::new().with_error_rate(1_000_000).with_status(418);
    let e = FaultInjectEndpoint::new(always).with_error_injection(true);
    for _ in 0..200 {
        let (_, _, _, inner_calls, reply) =
            drive(&e, e.arrival(), || panic!("the inner handler must not be called"));
        assert_eq!(inner_calls, 0);
        assert_eq!(reply, Reply::Status(418));
    }
}

#[test]
fn injection_with_rate_zero_fails_no_request() {
    let e = FaultInjectEndpoint::new(FaultInject::new()).with_error_injection(true);
    for _ in 0..200 {
        let (_, _, _, inner_calls, reply) = drive(&e, e.arrival(), || RequestEvent::InnerOk);
        assert_eq!(inner_calls, 1);
        assert_eq!(reply, Reply::Inner);
    }
}

#[test]
fn failure_log_is_built_from_the_detail() {
    let e = FaultInjectEndpoint::new(settings());
    let t = step(&e, RequestState::Forwarded, RequestEvent::InnerErr(String::new()));
    assert_eq!(log_of(&t.action), (LogType::Error, "FaultInject middleware: ".to_string()));
}

#[test]
fn finished_request_takes_no_event() {
    let e = FaultInjectEndpoint::new(settings());
    assert!(e.step(RequestState::Returned, RequestEvent::Done).is_none());
    assert!(e.step(RequestState::Returned, RequestEvent::InnerOk).is_none());
    assert!(e.step(RequestState::Returned, RequestEvent::InnerTimedOut).is_none());
    assert!(e.step(RequestState::Returned, RequestEvent::InnerErr("x".to_string())).is_none());
    assert!(e
        .step(RequestState::Returned, RequestEvent::Arrived { delay_offset: 0, fail_draw: 0 })
        .is_none());
}

#[test]
fn events_out_of_place_are_refused() {
    let e = FaultInjectEndpoint::new(settings());
    assert!(e.step(RequestState::Received, RequestEvent::Done).is_none());
    assert!(e.step(RequestState::Received, RequestEvent::InnerOk).is_none());
    assert!(e.step(RequestState::Forwarded, RequestEvent::Done).is_none());
    assert!(e
        .step(RequestState::Forwarded, RequestEvent::Arrived { delay_offset: 0, fail_draw: 0 })
        .is_none());
    assert!(e.step(RequestState::DelayScheduled { fail_draw: 0 }, RequestEvent::InnerOk).is_none());
    assert!(e.step(RequestState::DelaySatisfied { fail_draw: 0 }, RequestEvent::InnerOk).is_none());
    assert!(e.step(RequestState::ShortCircuitedError, RequestEvent::InnerOk).is_none());
    assert!(e.step(RequestState::Succeeded, RequestEvent::InnerOk).is_none());
    assert!(e.step(RequestState::TimedOut, RequestEvent::InnerTimedOut).is_none());
    assert!(e
        .step(RequestState::Failed { reply: Reply::Failure }, RequestEvent::InnerOk)
        .is_none());
    assert!(e.step(RequestState::Logged { reply: Reply::Inner }, RequestEvent::InnerOk).is_none());
}

#[test]
fn reply_is_kept_from_failure_to_return() {
    let e = FaultInjectEndpoint::new(settings());
    for reply in [Reply::Failure, Reply::Status(503), Reply::Inner] {
        let t = step(&e, RequestState::Failed { reply }, RequestEvent::Done);
        assert_eq!(t.state, RequestState::Logged { reply });
        let t = step(&e, t.state, RequestEvent::Done);
        assert_eq!(t.state, RequestState::Returned);
        assert!(matches!(t.action, RequestAction::Return(r) if r == reply));
    }
}
