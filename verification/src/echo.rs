//! The decision logic of the echo loop, as a state machine.
//!
//! The loop alternates between waiting on a readiness poller, draining the
//! socket with non-blocking receives, and echoing each datagram back to its
//! sender. All I/O stays with the caller: the machine is handed the outcome
//! of the last operation as an [`Event`] and answers with the next
//! [`Action`]. A datagram whose echo would block is dropped and the loop
//! goes on; any other socket error stops the machine for good.

use vstd::prelude::*;

use crate::Ipv4;

verus! {

/// The most bytes a UDP datagram can carry, and so the capacity of the
/// scratch buffer the caller receives into.
pub const MAX_DATAGRAM_LEN: usize = 65535;

/// The address a datagram came from, and the address its echo goes to.
#[derive(Clone, Copy, Debug, PartialEq, Eq, Structural)]
pub enum PeerAddr {
    V4 { ip: Ipv4, port: u16 },
    V6 { hi: u64, lo: u64, port: u16 },
}

/// The outcome of the operation the machine last asked for.
#[derive(Debug, PartialEq, Eq)]
pub enum Event {
    /// The poller returned; `any_events` says whether the batch was empty.
    PollReturned { any_events: bool },
    /// A non-blocking receive yielded a datagram.
    RecvOk { payload: Vec<u8>, src: PeerAddr },
    /// A non-blocking receive found nothing pending.
    RecvWouldBlock,
    /// A receive failed with a real error.
    RecvFatal,
    /// A non-blocking send went through.
    SendOk,
    /// A non-blocking send found no capacity.
    SendWouldBlock,
    /// A send failed with a real error.
    SendFatal,
}

/// What the caller is to do next.
#[derive(Debug, PartialEq, Eq)]
pub enum Action {
    /// Block on the poller, with no timeout.
    Poll,
    /// Attempt a non-blocking receive.
    Recv,
    /// Attempt a non-blocking send of exactly `payload` to `dest`.
    Send { dest: PeerAddr, payload: Vec<u8> },
    /// Return the fatal error to the caller; the loop is over.
    Stop,
}

/// Where the machine stands between two events.
#[derive(Clone, Copy, Debug, PartialEq, Eq, Structural)]
pub enum Phase {
    /// Blocked on the poller.
    Waiting,
    /// Draining the socket with receives.
    Draining,
    /// Echoing the datagram just received.
    Replying,
    /// Stopped by a fatal error; nothing more happens.
    Done,
}

/// Which events can answer which phase: the outcome of a poll while
/// waiting, of a receive while draining, of a send while replying. A
/// finished machine accepts nothing.
pub open spec fn accepts(phase: Phase, event: Event) -> bool {
    match phase {
        Phase::Waiting => event is PollReturned,
        Phase::Draining => event is RecvOk || event is RecvWouldBlock || event is RecvFatal,
        Phase::Replying => event is SendOk || event is SendWouldBlock || event is SendFatal,
        Phase::Done => false,
    }
}

/// The phase an accepted event leads to. An empty poll batch or a
/// would-block returns the machine to waiting; a datagram calls for its
/// echo; a completed echo resumes draining; a fatal error finishes it.
pub open spec fn next_phase(event: Event) -> Phase {
    match event {
        Event::PollReturned { any_events } => if any_events {
            Phase::Draining
        } else {
            Phase::Waiting
        },
        Event::RecvOk { .. } => Phase::Replying,
        Event::RecvWouldBlock => Phase::Waiting,
        Event::RecvFatal => Phase::Done,
        Event::SendOk => Phase::Draining,
        Event::SendWouldBlock => Phase::Waiting,
        Event::SendFatal => Phase::Done,
    }
}

/// The action an accepted event is answered with. A received datagram is
/// answered by a send of exactly its payload back to its source.
pub open spec fn action_for(event: Event) -> Action {
    match event {
        Event::PollReturned { any_events } => if any_events {
            Action::Recv
        } else {
            Action::Poll
        },
        Event::RecvOk { payload, src } => Action::Send { dest: src, payload },
        Event::RecvWouldBlock => Action::Poll,
        Event::RecvFatal => Action::Stop,
        Event::SendOk => Action::Recv,
        Event::SendWouldBlock => Action::Poll,
        Event::SendFatal => Action::Stop,
    }
}

/// Every event of the script is accepted by the phase reached when it
/// arrives.
pub open spec fn script_ok(init: Phase, events: Seq<Event>) -> bool
    decreases events.len(),
{
    events.len() == 0 || (accepts(init, events[0]) && script_ok(next_phase(events[0]), events.skip(1)))
}

/// The phase reached after a whole script of events.
pub open spec fn phase_after(init: Phase, events: Seq<Event>) -> Phase
    decreases events.len(),
{
    if events.len() == 0 {
        init
    } else {
        phase_after(next_phase(events[0]), events.skip(1))
    }
}

/// The actions a script of events is answered with, in order.
pub open spec fn actions_for(events: Seq<Event>) -> Seq<Action>
    decreases events.len(),
{
    if events.len() == 0 {
        Seq::empty()
    } else {
        seq![action_for(events[0])] + actions_for(events.skip(1))
    }
}

/// The echo loop's state between events. A fresh machine waits on the
/// poller.
#[derive(Clone, Copy, Debug, PartialEq, Eq, Structural)]
pub struct EchoMachine {
    pub phase: Phase,
}

impl EchoMachine {
    /// A machine at the start of the loop, about to poll.
    pub fn new() -> (m: EchoMachine)
        ensures
            m.phase == Phase::Waiting,
    {
        EchoMachine { phase: Phase::Waiting }
    }

    /// Whether `event` may be handed to `step` now.
    pub fn accepts_event(&self, event: &Event) -> (r: bool)
        ensures
            r == accepts(self.phase, *event),
    {
        match self.phase {
            Phase::Waiting => matches!(event, Event::PollReturned { .. }),
            Phase::Draining => matches!(
                event,
                Event::RecvOk { .. } | Event::RecvWouldBlock | Event::RecvFatal
            ),
            Phase::Replying => matches!(event, Event::SendOk | Event::SendWouldBlock | Event::SendFatal),
            Phase::Done => false,
        }
    }

    /// Consume the outcome of the last operation and say what to do next.
    pub fn step(&mut self, event: Event) -> (action: Action)
        requires
            accepts(old(self).phase, event),
        ensures
            final(self).phase == next_phase(event),
            action == action_for(event),
    {
        match event {
            Event::PollReturned { any_events } => {
                if any_events {
                    self.phase = Phase::Draining;
                    Action::Recv
                } else {
                    self.phase = Phase::Waiting;
                    Action::Poll
                }
            },
            Event::RecvOk { payload, src } => {
                self.phase = Phase::Replying;
                Action::Send { dest: src, payload }
            },
            Event::RecvWouldBlock => {
                self.phase = Phase::Waiting;
                Action::Poll
            },
            Event::RecvFatal => {
                self.phase = Phase::Done;
                Action::Stop
            },
            Event::SendOk => {
                self.phase = Phase::Draining;
                Action::Recv
            },
            Event::SendWouldBlock => {
                self.phase = Phase::Waiting;
                Action::Poll
            },
            Event::SendFatal => {
                self.phase = Phase::Done;
                Action::Stop
            },
        }
    }

    /// Drive the machine through a whole script of events, collecting the
    /// actions it asks for.
    pub fn run_session(&mut self, events: Vec<Event>) -> (actions: Vec<Action>)
        requires
            script_ok(old(self).phase, events@),
        ensures
            actions@ == actions_for(events@),
            final(self).phase == phase_after(old(self).phase, events@),
    {
        let ghost init = self.phase;
        let ghost orig = events@;
        let mut pending = events;
        let mut actions: Vec<Action> = Vec::new();
        proof {
            assert(actions@ + actions_for(pending@) =~= actions_for(orig));
        }
        while pending.len() > 0
            invariant
                script_ok(self.phase, pending@),
                actions@ + actions_for(pending@) == actions_for(orig),
                phase_after(self.phase, pending@) == phase_after(init, orig),
            decreases pending.len(),
        {
            let ghost before = pending@;
            let event = pending.remove(0);
            proof {
                assert(pending@ =~= before.skip(1));
            }
            let action = self.step(event);
            actions.push(action);
            proof {
                assert(actions@ + actions_for(pending@) =~= actions_for(orig));
            }
        }
        proof {
            assert(actions_for(pending@) =~= Seq::<Action>::empty());
            assert(actions@ + actions_for(pending@) =~= actions@);
        }
        actions
    }
}

/// Echo fidelity: a machine draining the socket accepts any datagram, of
/// any payload and source, and answers it with a send of exactly those
/// bytes to exactly that source.
pub proof fn lemma_echo_fidelity(payload: Vec<u8>, src: PeerAddr)
    ensures
        accepts(Phase::Draining, Event::RecvOk { payload, src }),
        action_for(Event::RecvOk { payload, src }) matches Action::Send { dest, payload: out }
            && dest == src && out@ == payload@,
{
}

/// Idempotence under repetition: the same payload arriving twice from the
/// same source is echoed twice, each time in full — nothing is
/// deduplicated or cached between the two.
pub proof fn lemma_idempotent_repetition(first: Vec<u8>, second: Vec<u8>, src: PeerAddr)
    requires
        first@ == second@,
    ensures
        ({
            let e1 = Event::RecvOk { payload: first, src };
            let e2 = Event::RecvOk { payload: second, src };
            &&& accepts(Phase::Draining, e1)
            &&& next_phase(e1) == Phase::Replying
            &&& accepts(Phase::Replying, Event::SendOk)
            &&& next_phase(Event::SendOk) == Phase::Draining
            &&& accepts(Phase::Draining, e2)
            &&& action_for(e1) matches Action::Send { dest, payload } && dest == src && payload@
                == first@
            &&& action_for(e2) matches Action::Send { dest, payload } && dest == src && payload@
                == first@
        }),
{
}

/// Backpressure drop: when the echo of a datagram would block, the
/// datagram is dropped but the loop survives — the machine returns to
/// waiting, and a later datagram is echoed as usual.
pub proof fn lemma_backpressure_drop(later: Vec<u8>, src: PeerAddr)
    ensures
        accepts(Phase::Replying, Event::SendWouldBlock),
        next_phase(Event::SendWouldBlock) == Phase::Waiting,
        next_phase(Event::SendWouldBlock) != Phase::Done,
        action_for(Event::SendWouldBlock) == Action::Poll,
        accepts(Phase::Waiting, Event::PollReturned { any_events: true }),
        next_phase(Event::PollReturned { any_events: true }) == Phase::Draining,
        accepts(Phase::Draining, Event::RecvOk { payload: later, src }),
        action_for(Event::RecvOk { payload: later, src }) == (Action::Send {
            dest: src,
            payload: later,
        }),
{
}

/// No natural termination: every phase short of `Done` accepts some event,
/// and only a fatal receive or send error leads to `Done` — the loop runs
/// until one occurs.
pub proof fn lemma_runs_until_fatal(phase: Phase)
    requires
        phase != Phase::Done,
    ensures
        exists|event: Event| accepts(phase, event),
        forall|event: Event|
            next_phase(event) == Phase::Done <==> (event is RecvFatal || event is SendFatal),
{
    match phase {
        Phase::Waiting => {
            assert(accepts(phase, Event::PollReturned { any_events: true }));
        },
        Phase::Draining => {
            assert(accepts(phase, Event::RecvWouldBlock));
        },
        Phase::Replying => {
            assert(accepts(phase, Event::SendOk));
        },
        Phase::Done => {
        },
    }
}

/// Fatal termination: a real socket error on receive or send is answered
/// by the stop action, once, and the finished machine accepts no further
/// event — no receive or send activity can follow.
pub proof fn lemma_fatal_termination()
    ensures
        accepts(Phase::Draining, Event::RecvFatal),
        next_phase(Event::RecvFatal) == Phase::Done,
        action_for(Event::RecvFatal) == Action::Stop,
        accepts(Phase::Replying, Event::SendFatal),
        next_phase(Event::SendFatal) == Phase::Done,
        action_for(Event::SendFatal) == Action::Stop,
        forall|event: Event| !accepts(Phase::Done, event),
{
}

} // verus!
