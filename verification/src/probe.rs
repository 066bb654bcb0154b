//! Probes: whether an endpoint can be bound or connected to right now.
//!
//! A probe is a short, fixed series of calls to the operating system on one
//! new socket. This module makes no such call. It decides which call comes
//! next and what the probe reports; the caller makes each call and hands its
//! outcome back. The first call that fails ends the probe, and its error is
//! reported as it came.

use crate::error::{ErrorView, NetSemError};
use crate::ip::Family;
use crate::socket::SocketEndpoint;
use std::time::Duration;
use vstd::prelude::*;

verus! {

/// Transport of the socket that a probe opens.
#[derive(Debug, Clone, Copy, PartialEq, Eq, Hash, Structural)]
pub enum Transport {
    /// A stream socket (TCP).
    Stream,
    /// A datagram socket (UDP).
    Datagram,
}

/// What a probe tries with its endpoint.
#[derive(Debug, Clone, Copy, PartialEq, Eq, Hash, Structural)]
pub enum ProbeKind {
    /// Bind a socket to the endpoint.
    Bind,
    /// Connect a socket to the endpoint.
    Connect,
}

/// One call to the operating system, on the socket of the probe.
#[derive(Debug, Clone, Copy, PartialEq, Eq)]
pub enum SocketCall {
    /// Open the socket.
    Open {
        /// The family of the socket.
        family: Family,
        /// The transport of the socket.
        transport: Transport,
    },
    /// Allow the socket to bind to an address that is still in use.
    SetReuseAddress,
    /// Bind the socket.
    Bind {
        /// The endpoint to bind to.
        endpoint: SocketEndpoint,
    },
    /// Connect the socket. For a stream socket this is a handshake with the
    /// peer. For a datagram socket it only sets the default peer, and its
    /// success says nothing about whether the peer can be reached.
    Connect {
        /// The endpoint to connect to.
        endpoint: SocketEndpoint,
        /// How long to wait at most; without it, as long as the operating
        /// system does.
        timeout: Option<Duration>,
    },
}

/// A probe under way: its calls so far have all succeeded, and one more is
/// awaited.
#[derive(Debug)]
pub struct Probe {
    kind: ProbeKind,
    transport: Transport,
    endpoint: SocketEndpoint,
    timeout: Option<Duration>,
    label: String,
    position: usize,
}

/// What a probe is, to its contracts.
pub struct ProbeView {
    /// What the probe tries.
    pub kind: ProbeKind,
    /// The transport of its socket.
    pub transport: Transport,
    /// The endpoint that it probes.
    pub endpoint: SocketEndpoint,
    /// How long a connect may wait at most.
    pub timeout: Option<Duration>,
    /// The endpoint as text, for the error report.
    pub label: Seq<char>,
    /// The place in the plan of the call that is awaited.
    pub position: nat,
}

/// What comes after a call of a probe, to its contracts.
pub enum StepView {
    /// The probe goes on, and awaits its next call.
    Next(ProbeView),
    /// The probe is over, with this report.
    Done(Result<(), ErrorView>),
}

impl ProbeView {
    /// The calls that the probe makes, in order, as long as none fails.
    pub open spec fn plan(self) -> Seq<SocketCall> {
        let open = SocketCall::Open {
            family: self.endpoint.address.spec_family(),
            transport: self.transport,
        };
        match self.kind {
            ProbeKind::Bind => seq![
                open,
                SocketCall::SetReuseAddress,
                SocketCall::Bind { endpoint: self.endpoint },
            ],
            ProbeKind::Connect => seq![
                open,
                SocketCall::Connect { endpoint: self.endpoint, timeout: self.timeout },
            ],
        }
    }

    /// Whether the probe is under way: it awaits a call of its plan.
    pub open spec fn under_way(self) -> bool {
        self.position < self.plan().len()
    }

    /// The call that is awaited.
    pub open spec fn awaited(self) -> SocketCall {
        self.plan()[self.position as int]
    }

    /// The number of calls that are still to be made, the awaited one
    /// included.
    pub open spec fn calls_left(self) -> nat {
        (self.plan().len() - self.position) as nat
    }

    /// The report of the probe when a call fails for the reason `cause`: the
    /// error of its kind, with the label and the cause as they are.
    pub open spec fn failure(self, cause: std::io::Error) -> ErrorView {
        match self.kind {
            ProbeKind::Bind => ErrorView::BindFailed { addr: self.label, source: cause },
            ProbeKind::Connect => ErrorView::ConnectFailed { addr: self.label, source: cause },
        }
    }

    /// What comes after the awaited call, given its outcome. A failed call
    /// ends the probe with its failure. A call that succeeded is followed by
    /// the next call of the plan, or, where it was the last one, by success.
    pub open spec fn after(self, outcome: Result<(), std::io::Error>) -> StepView {
        match outcome {
            Err(cause) => StepView::Done(Err(self.failure(cause))),
            Ok(_) => if self.calls_left() == 1 {
                StepView::Done(Ok(()))
            } else {
                StepView::Next(ProbeView { position: self.position + 1, ..self })
            },
        }
    }

    /// The report of the probe when, from here on, its calls have the given
    /// outcomes in order. There is none where the outcomes run out before the
    /// probe is over; outcomes beyond its end play no part.
    pub open spec fn run(self, outcomes: Seq<Result<(), std::io::Error>>) -> Option<
        Result<(), ErrorView>,
    >
        decreases outcomes.len(),
    {
        if outcomes.len() == 0 {
            None
        } else {
            match self.after(outcomes[0]) {
                StepView::Done(report) => Some(report),
                StepView::Next(next) => next.run(outcomes.skip(1)),
            }
        }
    }
}

/// Whether the first `n` of the outcomes are all successes.
pub open spec fn all_succeed(outcomes: Seq<Result<(), std::io::Error>>, n: int) -> bool {
    forall|i: int| 0 <= i < n ==> (#[trigger] outcomes[i]) is Ok
}

/// A probe whose calls all succeed reports success, after the last call of
/// its plan and not before.
pub proof fn lemma_run_succeeds(probe: ProbeView, outcomes: Seq<Result<(), std::io::Error>>)
    requires
        probe.under_way(),
        all_succeed(outcomes, outcomes.len() as int),
    ensures
        outcomes.len() >= probe.calls_left() ==> probe.run(outcomes) == Some(
            Ok::<(), ErrorView>(()),
        ),
        outcomes.len() < probe.calls_left() ==> probe.run(outcomes) is None,
    decreases outcomes.len(),
{
    if outcomes.len() > 0 {
        assert(outcomes[0] is Ok);
        if probe.calls_left() > 1 {
            let next = ProbeView { position: probe.position + 1, ..probe };
            let rest = outcomes.skip(1);
            assert forall|i: int| 0 <= i < rest.len() implies (#[trigger] rest[i]) is Ok by {
                assert(outcomes[i + 1] is Ok);
            }
            lemma_run_succeeds(next, rest);
        }
    }
}

/// A probe ends at its first call that fails, whatever comes after, and
/// reports the failure of its kind with the cause of that call.
pub proof fn lemma_run_fails(
    probe: ProbeView,
    outcomes: Seq<Result<(), std::io::Error>>,
    failed: int,
)
    requires
        probe.under_way(),
        0 <= failed < outcomes.len(),
        failed < probe.calls_left(),
        all_succeed(outcomes, failed),
        outcomes[failed] is Err,
    ensures
        probe.run(outcomes) == Some(
            Err::<(), ErrorView>(probe.failure(outcomes[failed]->Err_0)),
        ),
    decreases failed,
{
    if failed > 0 {
        assert(outcomes[0] is Ok);
        let next = ProbeView { position: probe.position + 1, ..probe };
        let rest = outcomes.skip(1);
        assert forall|i: int| 0 <= i < failed - 1 implies (#[trigger] rest[i]) is Ok by {
            assert(outcomes[i + 1] is Ok);
        }
        lemma_run_fails(next, rest, failed - 1);
    }
}

/// What comes after a call of a probe.
#[derive(Debug)]
pub enum ProbeStep {
    /// The probe goes on: make the call that it now awaits, on the same
    /// socket, and hand its outcome to the probe.
    Next(Probe),
    /// The probe is over: release the socket and report this.
    Done(Result<(), NetSemError>),
}

impl View for Probe {
    type V = ProbeView;

    closed spec fn view(&self) -> ProbeView {
        ProbeView {
            kind: self.kind,
            transport: self.transport,
            endpoint: self.endpoint,
            timeout: self.timeout,
            label: self.label@,
            position: self.position as nat,
        }
    }
}

impl View for ProbeStep {
    type V = StepView;

    open spec fn view(&self) -> StepView {
        match *self {
            ProbeStep::Next(probe) => StepView::Next(probe@),
            ProbeStep::Done(Ok(_)) => StepView::Done(Ok(())),
            ProbeStep::Done(Err(error)) => StepView::Done(Err(error@)),
        }
    }
}

impl Probe {
    #[verifier::type_invariant]
    spec fn in_plan(self) -> bool {
        self@.under_way()
    }

    /// Starts a probe that binds a new socket of the given transport to
    /// `endpoint`. `label` is the endpoint as text, for the error report.
    pub fn bind(endpoint: SocketEndpoint, transport: Transport, label: String) -> (probe: Probe)
        ensures
            probe@ == (ProbeView {
                kind: ProbeKind::Bind,
                transport,
                endpoint,
                timeout: None,
                label: label@,
                position: 0,
            }),
    {
        Probe { kind: ProbeKind::Bind, transport, endpoint, timeout: None, label, position: 0 }
    }

    /// Starts a probe that connects a new socket of the given transport to
    /// `endpoint`. A stream socket waits for the handshake at most `timeout`,
    /// where one is given; a datagram socket has nothing to wait for, and the
    /// timeout is dropped. `label` is the endpoint as text, for the error
    /// report.
    pub fn connect(
        endpoint: SocketEndpoint,
        transport: Transport,
        timeout: Option<Duration>,
        label: String,
    ) -> (probe: Probe)
        ensures
            probe@ == (ProbeView {
                kind: ProbeKind::Connect,
                transport,
                endpoint,
                timeout: if transport == Transport::Stream {
                    timeout
                } else {
                    None
                },
                label: label@,
                position: 0,
            }),
    {
        let timeout = match transport {
            Transport::Stream => timeout,
            Transport::Datagram => None,
        };
        Probe { kind: ProbeKind::Connect, transport, endpoint, timeout, label, position: 0 }
    }

    /// The call that the probe awaits the outcome of. There always is one:
    /// a probe under way has not come to the end of its plan.
    pub fn awaited(&self) -> (call: SocketCall)
        ensures
            self@.under_way(),
            call == self@.awaited(),
    {
        proof {
            use_type_invariant(self);
        }
        if self.position == 0 {
            SocketCall::Open { family: self.endpoint.address.family(), transport: self.transport }
        } else {
            match self.kind {
                ProbeKind::Bind => {
                    if self.position == 1 {
                        SocketCall::SetReuseAddress
                    } else {
                        SocketCall::Bind { endpoint: self.endpoint }
                    }
                },
                ProbeKind::Connect => SocketCall::Connect {
                    endpoint: self.endpoint,
                    timeout: self.timeout,
                },
            }
        }
    }

    /// Takes the outcome of the awaited call and says what comes next.
    ///
    /// A failed call ends the probe with the error of its kind, which holds
    /// the label and the cause unchanged. A call that succeeded is followed
    /// by the next call of the plan, or, after the last one, by success.
    pub fn advance(self, outcome: Result<(), std::io::Error>) -> (step: ProbeStep)
        ensures
            self@.under_way(),
            step@ == self@.after(outcome),
    {
        proof {
            use_type_invariant(&self);
        }
        let Probe { kind, transport, endpoint, timeout, label, position } = self;
        match outcome {
            Err(cause) => {
                let error = match kind {
                    ProbeKind::Bind => NetSemError::BindFailed { addr: label, source: cause },
                    ProbeKind::Connect => NetSemError::ConnectFailed { addr: label, source: cause },
                };
                ProbeStep::Done(Err(error))
            },
            Ok(_) => {
                let last: usize = match kind {
                    ProbeKind::Bind => 2,
                    ProbeKind::Connect => 1,
                };
                if position == last {
                    ProbeStep::Done(Ok(()))
                } else {
                    ProbeStep::Next(
                        Probe { kind, transport, endpoint, timeout, label, position: position + 1 },
                    )
                }
            },
        }
    }
}

} // verus!
