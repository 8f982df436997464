//! The steps of one request through the fault-injection middleware.
//!
//! A request passes through these states, each at most once:
//! received; delay scheduled; delay satisfied; short-circuited or
//! forwarded; succeeded, failed or timed out; logged; returned. The
//! middleware decides each step; whoever drives it does the waiting, calls
//! the inner handler, sends the log message, and reports back.

use crate::config::RATE_SCALE;
use crate::fault_inject::FaultInject;
use crate::logging::{LogMessage, LogMessageView, LogType};
use crate::text::{decimal, to_decimal};
use vstd::prelude::*;

verus! {

/// What the caller of the middleware gets.
#[derive(Clone, Copy, Debug, PartialEq, Eq, Structural)]
pub enum Reply {
    /// The response of the inner handler, unchanged.
    Inner,
    /// The failure of the inner handler, unchanged.
    Failure,
    /// A response of the middleware's own, with this status code.
    Status(u16),
}

/// Where a request stands.
#[derive(Clone, Copy, Debug, PartialEq, Eq, Structural)]
pub enum RequestState {
    /// The request has come in.
    Received,
    /// The delay is chosen and announced; the request waits it out.
    DelayScheduled { fail_draw: u64 },
    /// The delay is over.
    DelaySatisfied { fail_draw: u64 },
    /// The request fails by injection; the inner handler is not called.
    ShortCircuitedError,
    /// The inner handler is at work.
    Forwarded,
    /// The inner handler gave a response.
    Succeeded,
    /// The request failed, and `reply` is what its caller gets.
    Failed { reply: Reply },
    /// The inner handler took longer than the timeout.
    TimedOut,
    /// The outcome is logged.
    Logged { reply: Reply },
    /// The reply is given; the request is over.
    Returned,
}

/// What happened since the last step.
#[derive(Debug)]
pub enum RequestEvent {
    /// A request came in, with the two random draws made for it: an offset
    /// into the delay range, and a draw out of a million for the failure.
    Arrived { delay_offset: u64, fail_draw: u64 },
    /// What the last step asked for is done.
    Done,
    /// The inner handler gave a response.
    InnerOk,
    /// The inner handler failed, with this description.
    InnerErr(String),
    /// The inner handler was cut off at the timeout.
    InnerTimedOut,
}

/// An event with its text as a sequence of characters.
pub enum RequestEventView {
    Arrived { delay_offset: u64, fail_draw: u64 },
    Done,
    InnerOk,
    InnerErr(Seq<char>),
    InnerTimedOut,
}

impl View for RequestEvent {
    type V = RequestEventView;

    open spec fn view(&self) -> RequestEventView {
        match self {
            RequestEvent::Arrived { delay_offset, fail_draw } => RequestEventView::Arrived {
                delay_offset: *delay_offset,
                fail_draw: *fail_draw,
            },
            RequestEvent::Done => RequestEventView::Done,
            RequestEvent::InnerOk => RequestEventView::InnerOk,
            RequestEvent::InnerErr(detail) => RequestEventView::InnerErr(detail@),
            RequestEvent::InnerTimedOut => RequestEventView::InnerTimedOut,
        }
    }
}

/// What the driver has to do before the next step.
#[derive(Debug)]
pub enum RequestAction {
    /// Nothing: go on with `Done`.
    Nothing,
    /// Send the message, then wait for `micros` microseconds, without
    /// holding up other requests; then `Done`.
    Delay { announce: LogMessage, micros: u64 },
    /// Call the inner handler, for no longer than `timeout` seconds where
    /// there is one, dropping the call at the timeout; then `InnerOk`,
    /// `InnerErr` or `InnerTimedOut`.
    Forward { timeout: Option<u64> },
    /// Send the message; then `Done`.
    Log(LogMessage),
    /// Give the reply to the caller; the request is over.
    Return(Reply),
}

/// An action with its texts as sequences of characters.
pub enum RequestActionView {
    Nothing,
    Delay { announce: LogMessageView, micros: u64 },
    Forward { timeout: Option<u64> },
    Log(LogMessageView),
    Return(Reply),
}

impl View for RequestAction {
    type V = RequestActionView;

    open spec fn view(&self) -> RequestActionView {
        match self {
            RequestAction::Nothing => RequestActionView::Nothing,
            RequestAction::Delay { announce, micros } => RequestActionView::Delay {
                announce: announce@,
                micros: *micros,
            },
            RequestAction::Forward { timeout } => RequestActionView::Forward { timeout: *timeout },
            RequestAction::Log(message) => RequestActionView::Log(message@),
            RequestAction::Return(reply) => RequestActionView::Return(*reply),
        }
    }
}

/// One step: the state that the request is in now, and what to do next.
#[derive(Debug)]
pub struct Transition {
    pub state: RequestState,
    pub action: RequestAction,
}

/// A step with its texts as sequences of characters.
pub struct TransitionView {
    pub state: RequestState,
    pub action: RequestActionView,
}

impl View for Transition {
    type V = TransitionView;

    open spec fn view(&self) -> TransitionView {
        TransitionView { state: self.state, action: self.action@ }
    }
}

/// The view of a step that may be refused.
pub open spec fn step_view(step: Option<Transition>) -> Option<TransitionView> {
    match step {
        Some(t) => Some(t@),
        None => None,
    }
}

/// The message that announces a delay of `micros` microseconds.
pub open spec fn delay_notice(micros: u64) -> LogMessageView {
    LogMessageView {
        severity: LogType::Info,
        text: "Injecting delay of "@ + decimal(micros as nat) + "us"@,
    }
}

/// The message that records a response of the inner handler.
pub open spec fn success_notice() -> LogMessageView {
    LogMessageView { severity: LogType::Info, text: "Response from endpoints has been ok"@ }
}

/// The message that records a failure of the inner handler, with its
/// description.
pub open spec fn failure_notice(detail: Seq<char>) -> LogMessageView {
    LogMessageView { severity: LogType::Error, text: "FaultInject middleware: "@ + detail }
}

/// The message that records a failure by injection.
pub open spec fn injection_notice() -> LogMessageView {
    LogMessageView { severity: LogType::Error, text: "FaultInject middleware: injected failure"@ }
}

/// The message that records a timeout.
pub open spec fn timeout_notice() -> LogMessageView {
    LogMessageView { severity: LogType::Error, text: "FaultInject middleware: request timed out"@ }
}

/// The middleware around an inner handler: its settings, and whether
/// failures are injected at all.
#[derive(Clone, Copy, Debug, PartialEq, Eq, Structural)]
pub struct FaultInjectEndpoint {
    pub cfg: FaultInject,
    /// While this is off, no request fails by injection, whatever the
    /// error rate.
    pub inject_errors: bool,
}

impl FaultInjectEndpoint {
    /// How far along a request is: every step takes it one further.
    pub open spec fn progress(state: RequestState) -> nat {
        match state {
            RequestState::Received => 0,
            RequestState::DelayScheduled { .. } => 1,
            RequestState::DelaySatisfied { .. } => 2,
            RequestState::ShortCircuitedError => 3,
            RequestState::Forwarded => 3,
            RequestState::Succeeded => 4,
            RequestState::Failed { .. } => 4,
            RequestState::TimedOut => 4,
            RequestState::Logged { .. } => 5,
            RequestState::Returned => 6,
        }
    }

    /// Whether a request at its decision point fails by injection.
    pub open spec fn short_circuits(self, fail_draw: u64) -> bool {
        self.inject_errors && self.cfg.fails_on(fail_draw)
    }

    /// The step that an event brings about in a state, or nothing where the
    /// event does not belong to the state.
    pub open spec fn next(self, state: RequestState, event: RequestEventView) -> Option<
        TransitionView,
    > {
        match (state, event) {
            (RequestState::Received, RequestEventView::Arrived { delay_offset, fail_draw }) => Some(
                TransitionView {
                    state: RequestState::DelayScheduled { fail_draw },
                    action: RequestActionView::Delay {
                        announce: delay_notice(self.cfg.delay_at(delay_offset)),
                        micros: self.cfg.delay_at(delay_offset),
                    },
                },
            ),
            (RequestState::DelayScheduled { fail_draw }, RequestEventView::Done) => Some(
                TransitionView {
                    state: RequestState::DelaySatisfied { fail_draw },
                    action: RequestActionView::Nothing,
                },
            ),
            (RequestState::DelaySatisfied { fail_draw }, RequestEventView::Done) => {
                if self.short_circuits(fail_draw) {
                    Some(
                        TransitionView {
                            state: RequestState::ShortCircuitedError,
                            action: RequestActionView::Nothing,
                        },
                    )
                } else {
                    Some(
                        TransitionView {
                            state: RequestState::Forwarded,
                            action: RequestActionView::Forward { timeout: self.cfg.timeout },
                        },
                    )
                }
            },
            (RequestState::ShortCircuitedError, RequestEventView::Done) => Some(
                TransitionView {
                    state: RequestState::Failed { reply: Reply::Status(self.cfg.status_on_error) },
                    action: RequestActionView::Log(injection_notice()),
                },
            ),
            (RequestState::Forwarded, RequestEventView::InnerOk) => Some(
                TransitionView {
                    state: RequestState::Succeeded,
                    action: RequestActionView::Log(success_notice()),
                },
            ),
            (RequestState::Forwarded, RequestEventView::InnerErr(detail)) => Some(
                TransitionView {
                    state: RequestState::Failed { reply: Reply::Failure },
                    action: RequestActionView::Log(failure_notice(detail)),
                },
            ),
            (RequestState::Forwarded, RequestEventView::InnerTimedOut) => {
                if self.cfg.timeout is Some {
                    Some(
                        TransitionView {
                            state: RequestState::TimedOut,
                            action: RequestActionView::Log(timeout_notice()),
                        },
                    )
                } else {
                    None
                }
            },
            (RequestState::Succeeded, RequestEventView::Done) => Some(
                TransitionView {
                    state: RequestState::Logged { reply: Reply::Inner },
                    action: RequestActionView::Nothing,
                },
            ),
            (RequestState::Failed { reply }, RequestEventView::Done) => Some(
                TransitionView {
                    state: RequestState::Logged { reply },
                    action: RequestActionView::Nothing,
                },
            ),
            (RequestState::TimedOut, RequestEventView::Done) => Some(
                TransitionView {
                    state: RequestState::Logged { reply: Reply::Status(self.cfg.status_on_error) },
                    action: RequestActionView::Nothing,
                },
            ),
            (RequestState::Logged { reply }, RequestEventView::Done) => Some(
                TransitionView {
                    state: RequestState::Returned,
                    action: RequestActionView::Return(reply),
                },
            ),
            _ => None,
        }
    }

    /// Wraps the middleware with the given settings around a handler.
    /// Injection of failures is off until it is switched on.
    pub fn new(cfg: FaultInject) -> (endpoint: Self)
        ensures
            endpoint == (FaultInjectEndpoint { cfg, inject_errors: false }),
    {
        FaultInjectEndpoint { cfg, inject_errors: false }
    }

    /// Switches the injection of failures on or off.
    pub fn with_error_injection(self, on: bool) -> (endpoint: Self)
        ensures
            endpoint == (FaultInjectEndpoint { inject_errors: on, ..self }),
    {
        FaultInjectEndpoint { cfg: self.cfg, inject_errors: on }
    }

    /// Makes the two random draws for a request that comes in: an offset
    /// into the delay range, and a draw out of a million for the failure.
    pub fn arrival(&self) -> (event: RequestEvent)
        ensures
            event matches RequestEvent::Arrived { delay_offset, fail_draw } && delay_offset
                <= self.cfg.spread() && fail_draw < RATE_SCALE,
    {
        let spread = if self.cfg.min_delay <= self.cfg.max_delay {
            self.cfg.max_delay - self.cfg.min_delay
        } else {
            0
        };
        let delay_offset = crate::fault_inject::draw_up_to(spread);
        let fail_draw = crate::fault_inject::draw_up_to(RATE_SCALE as u64 - 1);
        RequestEvent::Arrived { delay_offset, fail_draw }
    }

    /// Takes a request one step further: given where it stands and what
    /// happened, says where it stands now and what to do next. An event
    /// that does not belong to the state is refused, and a request that
    /// is over takes no event.
    pub fn step(&self, state: RequestState, event: RequestEvent) -> (r: Option<Transition>)
        ensures
            step_view(r) == self.next(state, event@),
    {
        match (state, event) {
            (RequestState::Received, RequestEvent::Arrived { delay_offset, fail_draw }) => {
                let micros = self.cfg.delay_with(delay_offset);
                let text = "Injecting delay of ".to_owned().concat(
                    to_decimal(micros).as_str(),
                ).concat("us");
                Some(
                    Transition {
                        state: RequestState::DelayScheduled { fail_draw },
                        action: RequestAction::Delay { announce: LogMessage::info(text), micros },
                    },
                )
            },
            (RequestState::DelayScheduled { fail_draw }, RequestEvent::Done) => Some(
                Transition {
                    state: RequestState::DelaySatisfied { fail_draw },
                    action: RequestAction::Nothing,
                },
            ),
            (RequestState::DelaySatisfied { fail_draw }, RequestEvent::Done) => {
                if self.inject_errors && self.cfg.should_fail(fail_draw) {
                    Some(
                        Transition {
                            state: RequestState::ShortCircuitedError,
                            action: RequestAction::Nothing,
                        },
                    )
                } else {
                    Some(
                        Transition {
                            state: RequestState::Forwarded,
                            action: RequestAction::Forward { timeout: self.cfg.timeout },
                        },
                    )
                }
            },
            (RequestState::ShortCircuitedError, RequestEvent::Done) => Some(
                Transition {
                    state: RequestState::Failed { reply: Reply::Status(self.cfg.status_on_error) },
                    action: RequestAction::Log(
                        LogMessage::error("FaultInject middleware: injected failure".to_owned()),
                    ),
                },
            ),
            (RequestState::Forwarded, RequestEvent::InnerOk) => Some(
                Transition {
                    state: RequestState::Succeeded,
                    action: RequestAction::Log(
                        LogMessage::info("Response from endpoints has been ok".to_owned()),
                    ),
                },
            ),
            (RequestState::Forwarded, RequestEvent::InnerErr(detail)) => {
                let text = "FaultInject middleware: ".to_owned().concat(detail.as_str());
                Some(
                    Transition {
                        state: RequestState::Failed { reply: Reply::Failure },
                        action: RequestAction::Log(LogMessage::error(text)),
                    },
                )
            },
            (RequestState::Forwarded, RequestEvent::InnerTimedOut) => {
                if self.cfg.timeout.is_some() {
                    Some(
                        Transition {
                            state: RequestState::TimedOut,
                            action: RequestAction::Log(
                                LogMessage::error(
                                    "FaultInject middleware: request timed out".to_owned(),
                                ),
                            ),
                        },
                    )
                } else {
                    None
                }
            },
            (RequestState::Succeeded, RequestEvent::Done) => Some(
                Transition {
                    state: RequestState::Logged { reply: Reply::Inner },
                    action: RequestAction::Nothing,
                },
            ),
            (RequestState::Failed { reply }, RequestEvent::Done) => Some(
                Transition { state: RequestState::Logged { reply }, action: RequestAction::Nothing },
            ),
            (RequestState::TimedOut, RequestEvent::Done) => Some(
                Transition {
                    state: RequestState::Logged { reply: Reply::Status(self.cfg.status_on_error) },
                    action: RequestAction::Nothing,
                },
            ),
            (RequestState::Logged { reply }, RequestEvent::Done) => Some(
                Transition { state: RequestState::Returned, action: RequestAction::Return(reply) },
            ),
            _ => None,
        }
    }
}

/// Where a request stands and what its driver was asked to do, in order.
pub struct Course {
    pub state: RequestState,
    pub actions: Seq<RequestActionView>,
}

impl FaultInjectEndpoint {
    /// The course of a request that starts in `state` and meets `events` in
    /// order, or nothing where one of the events is refused.
    pub open spec fn course(self, state: RequestState, events: Seq<RequestEventView>) -> Option<
        Course,
    >
        decreases events.len(),
    {
        if events.len() == 0 {
            Some(Course { state, actions: Seq::empty() })
        } else {
            match self.course(state, events.drop_last()) {
                Some(before) => match self.next(before.state, events.last()) {
                    Some(t) => Some(
                        Course { state: t.state, actions: before.actions.push(t.action) },
                    ),
                    None => None,
                },
                None => None,
            }
        }
    }

    /// Every step takes a request exactly one state further: no state is
    /// entered twice, and nothing is tried again.
    pub proof fn lemma_step_advances(self, state: RequestState, event: RequestEventView)
        requires
            self.next(state, event) is Some,
        ensures
            Self::progress(self.next(state, event)->Some_0.state) == Self::progress(state) + 1,
    {
    }

    /// A request that is over takes no further event.
    pub proof fn lemma_returned_is_final(self, event: RequestEventView)
        ensures
            self.next(RequestState::Returned, event) is None,
    {
    }

    /// The inner handler is called only at the decision point after the
    /// delay, and only for a request that does not fail by injection; it
    /// is given the configured timeout.
    pub proof fn lemma_forward_only_after_decision(
        self,
        state: RequestState,
        event: RequestEventView,
    )
        requires
            self.next(state, event) matches Some(t) && t.action is Forward,
        ensures
            state matches RequestState::DelaySatisfied { fail_draw } && !self.short_circuits(
                fail_draw,
            ),
            self.next(state, event)->Some_0.state == RequestState::Forwarded,
            self.next(state, event)->Some_0.action == (RequestActionView::Forward {
                timeout: self.cfg.timeout,
            }),
    {
    }

    /// A request reaches the end in six steps and takes no seventh: the
    /// middleware has no loop. Its progress is the number of events it
    /// took, and it was given one action for each.
    pub proof fn lemma_course_is_bounded(self, events: Seq<RequestEventView>)
        requires
            self.course(RequestState::Received, events) is Some,
        ensures
            events.len() <= 6,
            Self::progress(self.course(RequestState::Received, events)->Some_0.state)
                == events.len(),
            self.course(RequestState::Received, events)->Some_0.actions.len() == events.len(),
        decreases events.len(),
    {
        if events.len() > 0 {
            self.lemma_course_is_bounded(events.drop_last());
            let before = self.course(RequestState::Received, events.drop_last())->Some_0;
            self.lemma_step_advances(before.state, events.last());
        }
    }

    /// In the course of a request the inner handler is called at most
    /// once.
    pub proof fn lemma_forwards_at_most_once(
        self,
        events: Seq<RequestEventView>,
        i: int,
        j: int,
    )
        requires
            self.course(RequestState::Received, events) matches Some(c) && 0 <= i < c.actions.len()
                && 0 <= j < c.actions.len() && c.actions[i] is Forward && c.actions[j] is Forward,
        ensures
            i == j,
    {
        self.lemma_forward_is_third(events, i);
        self.lemma_forward_is_third(events, j);
    }

    /// The call of the inner handler, where there is one, is the third
    /// action of a request.
    pub proof fn lemma_forward_is_third(self, events: Seq<RequestEventView>, i: int)
        requires
            self.course(RequestState::Received, events) matches Some(c) && 0 <= i < c.actions.len()
                && c.actions[i] is Forward,
        ensures
            i == 2,
        decreases events.len(),
    {
        let c = self.course(RequestState::Received, events)->Some_0;
        self.lemma_course_is_bounded(events);
        let before = self.course(RequestState::Received, events.drop_last())->Some_0;
        self.lemma_course_is_bounded(events.drop_last());
        if i == events.len() - 1 {
            self.lemma_forward_only_after_decision(before.state, events.last());
        } else {
            assert(c.actions[i] == before.actions[i]);
            self.lemma_forward_is_third(events.drop_last(), i);
        }
    }

    /// The whole course of a request that the inner handler answers:
    /// the delay is announced and waited out, the inner handler is called
    /// with the configured timeout, its response is logged as a success and
    /// handed on unchanged.
    pub proof fn lemma_course_of_success(self, delay_offset: u64, fail_draw: u64)
        requires
            !self.short_circuits(fail_draw),
        ensures
            self.course(
                RequestState::Received,
                seq![
                    RequestEventView::Arrived { delay_offset, fail_draw },
                    RequestEventView::Done,
                    RequestEventView::Done,
                    RequestEventView::InnerOk,
                    RequestEventView::Done,
                    RequestEventView::Done,
                ],
            ) == Some(
                Course {
                    state: RequestState::Returned,
                    actions: seq![
                        RequestActionView::Delay {
                            announce: delay_notice(self.cfg.delay_at(delay_offset)),
                            micros: self.cfg.delay_at(delay_offset),
                        },
                        RequestActionView::Nothing,
                        RequestActionView::Forward { timeout: self.cfg.timeout },
                        RequestActionView::Log(success_notice()),
                        RequestActionView::Nothing,
                        RequestActionView::Return(Reply::Inner),
                    ],
                },
            ),
    {
        let events = seq![
            RequestEventView::Arrived { delay_offset, fail_draw },
            RequestEventView::Done,
            RequestEventView::Done,
            RequestEventView::InnerOk,
            RequestEventView::Done,
            RequestEventView::Done,
        ];
        self.lemma_course_unfolds(events, RequestEventView::InnerOk);
    }

    /// The whole course of a request whose inner handler fails: the
    /// failure is logged as an error with its description, and handed on
    /// unchanged.
    pub proof fn lemma_course_of_failure(self, delay_offset: u64, fail_draw: u64, detail: Seq<char>)
        requires
            !self.short_circuits(fail_draw),
        ensures
            self.course(
                RequestState::Received,
                seq![
                    RequestEventView::Arrived { delay_offset, fail_draw },
                    RequestEventView::Done,
                    RequestEventView::Done,
                    RequestEventView::InnerErr(detail),
                    RequestEventView::Done,
                    RequestEventView::Done,
                ],
            ) == Some(
                Course {
                    state: RequestState::Returned,
                    actions: seq![
                        RequestActionView::Delay {
                            announce: delay_notice(self.cfg.delay_at(delay_offset)),
                            micros: self.cfg.delay_at(delay_offset),
                        },
                        RequestActionView::Nothing,
                        RequestActionView::Forward { timeout: self.cfg.timeout },
                        RequestActionView::Log(failure_notice(detail)),
                        RequestActionView::Nothing,
                        RequestActionView::Return(Reply::Failure),
                    ],
                },
            ),
    {
        let events = seq![
            RequestEventView::Arrived { delay_offset, fail_draw },
            RequestEventView::Done,
            RequestEventView::Done,
            RequestEventView::InnerErr(detail),
            RequestEventView::Done,
            RequestEventView::Done,
        ];
        self.lemma_course_unfolds(events, RequestEventView::InnerErr(detail));
    }

    /// The whole course of a request whose inner handler runs into the
    /// timeout: the timeout is logged as such, and the caller gets the
    /// configured error status.
    pub proof fn lemma_course_of_timeout(self, delay_offset: u64, fail_draw: u64)
        requires
            !self.short_circuits(fail_draw),
            self.cfg.timeout is Some,
        ensures
            self.course(
                RequestState::Received,
                seq![
                    RequestEventView::Arrived { delay_offset, fail_draw },
                    RequestEventView::Done,
                    RequestEventView::Done,
                    RequestEventView::InnerTimedOut,
                    RequestEventView::Done,
                    RequestEventView::Done,
                ],
            ) == Some(
                Course {
                    state: RequestState::Returned,
                    actions: seq![
                        RequestActionView::Delay {
                            announce: delay_notice(self.cfg.delay_at(delay_offset)),
                            micros: self.cfg.delay_at(delay_offset),
                        },
                        RequestActionView::Nothing,
                        RequestActionView::Forward { timeout: self.cfg.timeout },
                        RequestActionView::Log(timeout_notice()),
                        RequestActionView::Nothing,
                        RequestActionView::Return(Reply::Status(self.cfg.status_on_error)),
                    ],
                },
            ),
    {
        let events = seq![
            RequestEventView::Arrived { delay_offset, fail_draw },
            RequestEventView::Done,
            RequestEventView::Done,
            RequestEventView::InnerTimedOut,
            RequestEventView::Done,
            RequestEventView::Done,
        ];
        self.lemma_course_unfolds(events, RequestEventView::InnerTimedOut);
    }

    /// The whole course of a request that fails by injection: the inner
    /// handler is never called, the failure is logged, and the caller gets
    /// the configured error status.
    pub proof fn lemma_course_of_injected_failure(self, delay_offset: u64, fail_draw: u64)
        requires
            self.short_circuits(fail_draw),
        ensures
            self.course(
                RequestState::Received,
                seq![
                    RequestEventView::Arrived { delay_offset, fail_draw },
                    RequestEventView::Done,
                    RequestEventView::Done,
                    RequestEventView::Done,
                    RequestEventView::Done,
                    RequestEventView::Done,
                ],
            ) == Some(
                Course {
                    state: RequestState::Returned,
                    actions: seq![
                        RequestActionView::Delay {
                            announce: delay_notice(self.cfg.delay_at(delay_offset)),
                            micros: self.cfg.delay_at(delay_offset),
                        },
                        RequestActionView::Nothing,
                        RequestActionView::Nothing,
                        RequestActionView::Log(injection_notice()),
                        RequestActionView::Nothing,
                        RequestActionView::Return(Reply::Status(self.cfg.status_on_error)),
                    ],
                },
            ),
    {
        let events = seq![
            RequestEventView::Arrived { delay_offset, fail_draw },
            RequestEventView::Done,
            RequestEventView::Done,
            RequestEventView::Done,
            RequestEventView::Done,
            RequestEventView::Done,
        ];
        self.lemma_course_unfolds(events, RequestEventView::Done);
    }

    /// Unfolds the course of six events, step by step.
    proof fn lemma_course_unfolds(self, events: Seq<RequestEventView>, fourth: RequestEventView)
        requires
            events.len() == 6,
            events[0] is Arrived,
            events[1] is Done,
            events[2] is Done,
            events[3] == fourth,
            events[4] is Done,
            events[5] is Done,
        ensures
            ({
                let start = RequestState::Received;
                let s1 = self.next(start, events[0]);
                let s2 = self.next(s1->Some_0.state, events[1]);
                let s3 = self.next(s2->Some_0.state, events[2]);
                let s4 = self.next(s3->Some_0.state, events[3]);
                let s5 = if s4 is Some {
                    self.next(s4->Some_0.state, events[4])
                } else {
                    None
                };
                let s6 = if s5 is Some {
                    self.next(s5->Some_0.state, events[5])
                } else {
                    None
                };
                self.course(start, events) == if s6 is Some {
                    Some(
                        Course {
                            state: s6->Some_0.state,
                            actions: seq![
                                s1->Some_0.action,
                                s2->Some_0.action,
                                s3->Some_0.action,
                                s4->Some_0.action,
                                s5->Some_0.action,
                                s6->Some_0.action,
                            ],
                        },
                    )
                } else {
                    None
                }
            }),
    {
        let start = RequestState::Received;
        let e0 = events.take(0);
        let e1 = events.take(1);
        let e2 = events.take(2);
        let e3 = events.take(3);
        let e4 = events.take(4);
        let e5 = events.take(5);
        assert(e1.drop_last() == e0);
        assert(e2.drop_last() == e1);
        assert(e3.drop_last() == e2);
        assert(e4.drop_last() == e3);
        assert(e5.drop_last() == e4);
        assert(events.drop_last() == e5);
        assert(self.course(start, e0) == Some(Course { state: start, actions: Seq::empty() }));
        let c1 = self.course(start, e1);
        assert(c1 is Some && c1->Some_0.actions =~= seq![self.next(start, events[0])->Some_0.action]);
        let c2 = self.course(start, e2);
        assert(c2 is Some);
        assert(c2->Some_0.actions.len() == 2);
        let c3 = self.course(start, e3);
        assert(c3 is Some);
        assert(c3->Some_0.actions.len() == 3);
        let c4 = self.course(start, e4);
        let c5 = self.course(start, e5);
        let c6 = self.course(start, events);
        if c4 is Some {
            assert(c4->Some_0.actions.len() == 4);
            if c5 is Some {
                assert(c5->Some_0.actions.len() == 5);
                if c6 is Some {
                    let s1 = self.next(start, events[0]);
                    let s2 = self.next(s1->Some_0.state, events[1]);
                    let s3 = self.next(s2->Some_0.state, events[2]);
                    let s4 = self.next(s3->Some_0.state, events[3]);
                    let s5 = self.next(s4->Some_0.state, events[4]);
                    let s6 = self.next(s5->Some_0.state, events[5]);
                    assert(c6->Some_0.actions =~= seq![
                        s1->Some_0.action,
                        s2->Some_0.action,
                        s3->Some_0.action,
                        s4->Some_0.action,
                        s5->Some_0.action,
                        s6->Some_0.action,
                    ]);
                }
            }
        }
    }
}

} // verus!
