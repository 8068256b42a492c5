//! The loop itself: a state machine that is driven one outside operation at a
//! time.

use crate::addr::RecvInfo;
use crate::failure::{Fault, IoFailure, Note};
use crate::recvfrom::{recv_from, recv_result, Datagram};
use crate::registry::{Event, Registry};
use crate::segment::{next_segment, segment_after};
use crate::socket::Socket;
use crate::sockets::MioSockets;
use crate::step::{
    classify_packet, classify_poll, classify_segment, is_finished, is_idle, packet_verdict, plain,
    poll_verdict, segment_verdict, sent_note, should_stop, Action, Drain, Input, Outcome,
    PacketVerdict, Payload, PollVerdict, SegmentVerdict, Stage,
};
use crate::timeout::{next_timeout, timeout_rule, Timeout};
use vstd::prelude::*;

verus! {

/// What follows from a receive on a socket that is being drained.
#[derive(Clone, Copy, Debug, PartialEq, Eq, Structural)]
pub enum ReceiveVerdict {
    /// A payload was read: deliver its segments.
    Deliver(Payload),
    /// The socket has no more datagrams: go on with the next event.
    Exhausted,
    /// The loop cannot go on.
    Abort(Fault),
}

/// What follows from a receive on a socket: would-block ends the draining,
/// any other I/O error is fatal, and so is a result that cannot be
/// interpreted.
pub open spec fn receive_verdict(gro: bool, received: Result<Datagram, IoFailure>)
    -> ReceiveVerdict {
    match received {
        Err(IoFailure::WouldBlock) => ReceiveVerdict::Exhausted,
        Err(_) => ReceiveVerdict::Abort(Fault::Receive),
        Ok(datagram) => match recv_result(datagram, gro) {
            Ok(r) => ReceiveVerdict::Deliver(
                Payload { from: r.from, len: r.len, segment_size: r.segment_size },
            ),
            Err(fault) => ReceiveVerdict::Abort(Fault::Malformed(fault)),
        },
    }
}

/// The step for one ready event, given its descriptor. The shutdown signal
/// ends the loop. A readable socket is drained; it is a fault if the socket
/// is not registered. For an outside source the external-event hook runs.
/// `next` is the index in the ready list at which the loop goes on.
pub open spec fn event_step<T>(
    event: Event<T>,
    token: usize,
    next: usize,
    sockets: Map<usize, Socket>,
) -> (Stage, Outcome) {
    match event {
        Event::Close => (Stage::Terminated, plain(Action::Stop)),
        Event::Socket(key) => if sockets.contains_key(key) {
            (
                Stage::Draining(
                    Drain {
                        next,
                        key,
                        local: sockets[key].spec_local_addr(),
                        gro: sockets[key].spec_offloads().gro,
                    },
                ),
                plain(Action::Receive { key }),
            )
        } else {
            (Stage::Terminated, plain(Action::Abort(Fault::UnknownSocket)))
        },
        Event::External(_) => (Stage::External { next }, plain(Action::External { token })),
    }
}

/// The step that takes up the ready list at `index`: past its end the
/// post-receive hook runs; a token without a descriptor is a fault; else the
/// event under the token is handled.
pub open spec fn dispatch_step<T>(
    events: Seq<Event<T>>,
    sockets: Map<usize, Socket>,
    ready: Seq<usize>,
    index: usize,
) -> (Stage, Outcome) {
    if index >= ready.len() {
        (Stage::PostHook, plain(Action::PostHook))
    } else if ready[index as int] >= events.len() {
        (Stage::Terminated, plain(Action::Abort(Fault::UnknownToken)))
    } else {
        event_step(
            events[ready[index as int] as int],
            ready[index as int],
            (index + 1) as usize,
            sockets,
        )
    }
}

/// The step that takes up a payload at `offset`: the segment that starts
/// there is delivered; when the payload is used up, the socket is read
/// again.
pub open spec fn deliver_step(drain: Drain, payload: Payload, offset: usize) -> (Stage, Outcome) {
    match segment_after(payload.len as nat, payload.segment_size as nat, offset as nat) {
        Some((start, end)) => (
            Stage::Delivering { drain, payload, start: start as usize, end: end as usize },
            plain(
                Action::Deliver {
                    start: start as usize,
                    end: end as usize,
                    info: RecvInfo { from: payload.from, to: drain.local },
                },
            ),
        ),
        None => (Stage::Draining(drain), plain(Action::Receive { key: drain.key })),
    }
}

/// The same outcome with another note.
pub open spec fn noted(step: (Stage, Outcome), note: Option<Note>) -> (Stage, Outcome) {
    (step.0, Outcome { action: step.1.action, note })
}

/// The end of the loop on a fault.
pub open spec fn abort(fault: Fault) -> (Stage, Outcome) {
    (Stage::Terminated, plain(Action::Abort(fault)))
}

/// The loop of one endpoint: its sockets, its event descriptors, the
/// application's timeout, and where the loop stands.
pub struct Runner<T> {
    sockets: MioSockets,
    registry: Registry<T>,
    app_timeout: Option<Timeout>,
    stage: Stage,
    ready: Vec<usize>,
}

impl<T> Runner<T> {
    /// The socket registry.
    pub closed spec fn sockets(&self) -> MioSockets {
        self.sockets
    }

    /// The event descriptors, by token.
    pub closed spec fn events(&self) -> Seq<Event<T>> {
        self.registry@
    }

    /// The timeout that the application has set for the next poll.
    pub closed spec fn spec_app_timeout(&self) -> Option<Timeout> {
        self.app_timeout
    }

    /// Where the loop stands.
    pub closed spec fn spec_stage(&self) -> Stage {
        self.stage
    }

    /// The tokens that the last poll found ready.
    pub closed spec fn ready(&self) -> Seq<usize> {
        self.ready@
    }

    /// The socket registry is well-formed, and every socket descriptor names
    /// a registered socket.
    pub open spec fn well_formed(&self) -> bool {
        &&& self.sockets().well_formed()
        &&& forall|token: int|
            0 <= token < self.events().len() ==> (#[trigger] self.events()[token] matches Event::Socket(
                key,
            ) ==> self.sockets().sockets().contains_key(key))
    }

    /// Neither the sockets nor the event descriptors differ between the two
    /// runners.
    pub open spec fn same_registrations(&self, other: &Runner<T>) -> bool {
        &&& self.sockets() == other.sockets()
        &&& self.events() == other.events()
    }

    /// The step that the loop takes on an input: the stage it moves to and
    /// what it asks for. An input that does not answer the operation that
    /// the loop waits for is a fault. Once the loop has ended, every input
    /// is answered with `Stop`.
    pub open spec fn step(&self, input: Input) -> (Stage, Outcome) {
        let events = self.events();
        let sockets = self.sockets().sockets();
        match (self.spec_stage(), input) {
            (Stage::Terminated, _) => (Stage::Terminated, plain(Action::Stop)),
            (Stage::Idle, Input::Status { pending_sends, engine_timeout }) => {
                let timeout = timeout_rule(pending_sends, engine_timeout, self.spec_app_timeout());
                (Stage::Polling { timeout }, plain(Action::Poll(timeout)))
            },
            (Stage::Polling { timeout }, Input::Polled(result)) => match poll_verdict(result) {
                PollVerdict::Proceed => (Stage::PreHook, plain(Action::PreHook)),
                PollVerdict::Retry => (
                    Stage::Polling { timeout },
                    Outcome { action: Action::Poll(timeout), note: Some(Note::PollInterrupted) },
                ),
                PollVerdict::Fatal => abort(Fault::Poll),
            },
            (Stage::PreHook, Input::Ready { tokens, pending_sends }) => if is_idle(
                tokens@.len(),
                pending_sends,
            ) {
                (Stage::TimingOut, plain(Action::EngineTimeout))
            } else {
                dispatch_step(events, sockets, tokens@, 0)
            },
            (Stage::TimingOut, Input::Done) => (Stage::PostHook, plain(Action::PostHook)),
            (Stage::Draining(drain), Input::Received(received)) => match receive_verdict(
                drain.gro,
                received,
            ) {
                ReceiveVerdict::Deliver(payload) => deliver_step(drain, payload, 0),
                ReceiveVerdict::Exhausted => noted(
                    dispatch_step(events, sockets, self.ready(), drain.next),
                    Some(Note::RecvWouldBlock),
                ),
                ReceiveVerdict::Abort(fault) => abort(fault),
            },
            (Stage::Delivering { drain, payload, start, end }, Input::Processed(result)) => {
                match segment_verdict(result) {
                    SegmentVerdict::Next(note) => noted(deliver_step(drain, payload, end), note),
                    SegmentVerdict::Leave(note) => (
                        Stage::Draining(drain),
                        Outcome { action: Action::Receive { key: drain.key }, note: Some(note) },
                    ),
                    SegmentVerdict::Abort(fault) => abort(fault),
                }
            },
            (Stage::External { next }, Input::Done) => dispatch_step(
                events,
                sockets,
                self.ready(),
                next,
            ),
            (Stage::PostHook, Input::Done) => (Stage::Sending, plain(Action::NextPacket)),
            (Stage::Sending, Input::Packet(result)) => match packet_verdict(result) {
                PacketVerdict::Exhausted => (Stage::Housekeeping, plain(Action::CollectGarbage)),
                PacketVerdict::Fatal => abort(Fault::EngineSend),
                PacketVerdict::Send(packet) => match self.sockets().key_of(packet.send_info.from) {
                    Some(key) => (
                        Stage::Transmitting,
                        plain(
                            Action::Transmit {
                                key,
                                len: packet.total,
                                to: packet.send_info.to,
                                plan: sockets[key].send_plan(packet.send_info, packet.segment_size),
                            },
                        ),
                    ),
                    None => abort(Fault::UnknownSource),
                },
            },
            (Stage::Transmitting, Input::Sent(result)) => (
                Stage::Sending,
                Outcome { action: Action::NextPacket, note: sent_note(result) },
            ),
            (Stage::Housekeeping, Input::Collected { is_server, num_conns }) => if is_finished(
                is_server,
                num_conns,
            ) {
                (Stage::Terminated, plain(Action::Stop))
            } else {
                (Stage::Idle, plain(Action::QueryEngine))
            },
            _ => abort(Fault::OutOfTurn),
        }
    }

    /// The runner as the step on `input` leaves it: in the stage that the
    /// step moves to, without the application's timeout if the step computed
    /// the poll timeout, and with the ready tokens if the input brought them.
    pub closed spec fn after(self, input: Input) -> Runner<T> {
        Runner {
            sockets: self.sockets,
            registry: self.registry,
            app_timeout: if self.stage is Idle && input is Status {
                None
            } else {
                self.app_timeout
            },
            stage: self.step(input).0,
            ready: if self.stage is PreHook && input is Ready {
                input->tokens
            } else {
                self.ready
            },
        }
    }

    /// What a step changes: the stage; the application's timeout, which the
    /// step that computes the poll timeout clears, and no other step touches;
    /// and the ready tokens, which the step that receives them stores.
    /// Sockets and event descriptors stay as they are.
    pub proof fn lemma_after(self, input: Input)
        ensures
            self.after(input).spec_stage() == self.step(input).0,
            self.after(input).same_registrations(&self),
            self.after(input).spec_app_timeout() == (if self.spec_stage() is Idle
                && input is Status {
                None
            } else {
                self.spec_app_timeout()
            }),
            self.after(input).ready() == (if self.spec_stage() is PreHook && input is Ready {
                input->tokens@
            } else {
                self.ready()
            }),
            self.well_formed() ==> self.after(input).well_formed(),
    {
    }

    /// A runner without sockets, at the start of its first iteration. With
    /// `close` set, a descriptor for the shutdown signal is registered, and
    /// its token is returned.
    pub fn new(close: bool) -> (r: (Runner<T>, Option<usize>))
        ensures
            r.0.well_formed(),
            r.0.spec_stage() == Stage::Idle,
            r.0.spec_app_timeout() is None,
            r.0.ready().len() == 0,
            r.0.sockets().sockets() == (Map::<usize, Socket>::empty()),
            r.0.sockets().index().len() == 0,
            r.0.events() == (if close {
                seq![Event::<T>::Close]
            } else {
                Seq::<Event<T>>::empty()
            }),
            r.1 == (if close {
                Some(0usize)
            } else {
                None
            }),
    {
        let mut registry: Registry<T> = Registry::new();
        let token = if close {
            Some(registry.register(Event::Close))
        } else {
            None
        };
        let runner = Runner {
            sockets: MioSockets::new(),
            registry,
            app_timeout: None,
            stage: Stage::Idle,
            ready: Vec::new(),
        };
        proof {
            assert(runner.events() =~= (if close {
                seq![Event::<T>::Close]
            } else {
                Seq::<Event<T>>::empty()
            }));
        }
        (runner, token)
    }

    /// Registers a socket for receiving and sending. Returns the socket's
    /// slot id and the token under which its readiness is to be polled.
    pub fn register_socket(&mut self, socket: Socket) -> (ids: (usize, usize))
        requires
            old(self).well_formed(),
        ensures
            final(self).well_formed(),
            !old(self).sockets().sockets().contains_key(ids.0),
            final(self).sockets().sockets() == old(self).sockets().sockets().insert(ids.0, socket),
            forall|addr: crate::addr::Addr|
                #[trigger] final(self).sockets().key_of(addr) == if addr
                    == socket.spec_local_addr() {
                    Some(ids.0)
                } else {
                    old(self).sockets().key_of(addr)
                },
            ids.1 == old(self).events().len(),
            final(self).events() == old(self).events().push(Event::Socket(ids.0)),
            final(self).spec_app_timeout() == old(self).spec_app_timeout(),
            final(self).spec_stage() == old(self).spec_stage(),
            final(self).ready() == old(self).ready(),
    {
        let key = self.sockets.insert(socket);
        let token = self.registry.register(Event::Socket(key));
        proof {
            assert forall|t: int| 0 <= t < self.events().len() implies (
            #[trigger] self.events()[t] matches Event::Socket(k)
                ==> self.sockets().sockets().contains_key(k)) by {
                if t < old(self).events().len() {
                    assert(self.events()[t] == old(self).events()[t]);
                }
            }
        }
        (key, token)
    }

    /// The event registry, to add descriptors for outside sources.
    pub fn registry(&mut self) -> (registry: &mut Registry<T>)
        ensures
            registry@ == old(self).events(),
            final(self).events() == final(registry)@,
            final(self).sockets() == old(self).sockets(),
            final(self).spec_app_timeout() == old(self).spec_app_timeout(),
            final(self).spec_stage() == old(self).spec_stage(),
            final(self).ready() == old(self).ready(),
    {
        &mut self.registry
    }

    /// Sets the application's timeout for the next poll. It is used once:
    /// the next iteration clears it.
    pub fn set_app_timeout(&mut self, timeout: Timeout)
        ensures
            final(self).spec_app_timeout() == Some(timeout),
            final(self).same_registrations(old(self)),
            final(self).spec_stage() == old(self).spec_stage(),
            final(self).ready() == old(self).ready(),
    {
        self.app_timeout = Some(timeout);
    }

    /// The timeout that the application has set for the next poll.
    #[verifier::when_used_as_spec(spec_app_timeout)]
    pub fn app_timeout(&self) -> (timeout: Option<Timeout>)
        ensures
            timeout == self.spec_app_timeout(),
    {
        self.app_timeout
    }

    /// Where the loop stands.
    #[verifier::when_used_as_spec(spec_stage)]
    pub fn stage(&self) -> (stage: Stage)
        ensures
            stage == self.spec_stage(),
    {
        self.stage
    }

    /// The event registry, to look descriptors up.
    pub fn event_registry(&self) -> (registry: &Registry<T>)
        ensures
            registry@ == self.events(),
    {
        &self.registry
    }

    /// The socket registry.
    pub fn socket_registry(&self) -> (sockets: &MioSockets)
        ensures
            *sockets == self.sockets(),
    {
        &self.sockets
    }

    /// Decides the step for one ready event from its descriptor.
    pub fn handle_event(event: &Event<T>, token: usize, next: usize, sockets: &MioSockets) -> (r: (
        Stage,
        Outcome,
    ))
        ensures
            r == event_step(*event, token, next, sockets.sockets()),
    {
        match event {
            Event::Close => (Stage::Terminated, Outcome { action: Action::Stop, note: None }),
            Event::Socket(key) => match sockets.get(*key) {
                Some(socket) => (
                    Stage::Draining(
                        Drain {
                            next,
                            key: *key,
                            local: socket.local_addr(),
                            gro: socket.offloads().gro,
                        },
                    ),
                    Outcome { action: Action::Receive { key: *key }, note: None },
                ),
                None => (
                    Stage::Terminated,
                    Outcome { action: Action::Abort(Fault::UnknownSocket), note: None },
                ),
            },
            Event::External(_) => (
                Stage::External { next },
                Outcome { action: Action::External { token }, note: None },
            ),
        }
    }

    /// Decides what follows from a receive on the socket that is being
    /// drained.
    pub fn handle_readable_event(drain: &Drain, received: Result<Datagram, IoFailure>) -> (v:
        ReceiveVerdict)
        ensures
            v == receive_verdict(drain.gro, received),
    {
        match received {
            Err(IoFailure::WouldBlock) => ReceiveVerdict::Exhausted,
            Err(_) => ReceiveVerdict::Abort(Fault::Receive),
            Ok(datagram) => match recv_from(&datagram, drain.gro) {
                Ok(r) => ReceiveVerdict::Deliver(
                    Payload { from: r.from, len: r.len, segment_size: r.segment_size },
                ),
                Err(fault) => ReceiveVerdict::Abort(Fault::Malformed(fault)),
            },
        }
    }

    /// Takes up the ready list at `index`.
    fn dispatch(&mut self, index: usize, note: Option<Note>) -> (outcome: Outcome)
        ensures
            (final(self).spec_stage(), outcome) == noted(
                dispatch_step(
                    old(self).events(),
                    old(self).sockets().sockets(),
                    old(self).ready(),
                    index,
                ),
                note,
            ),
            *final(self) == (Runner { stage: final(self).stage, ..*old(self) }),
    {
        let (stage, outcome) = if index >= self.ready.len() {
            (Stage::PostHook, Outcome { action: Action::PostHook, note: None })
        } else {
            let token = self.ready[index];
            match self.registry.get(token) {
                None => (
                    Stage::Terminated,
                    Outcome { action: Action::Abort(Fault::UnknownToken), note: None },
                ),
                Some(event) => Self::handle_event(event, token, index + 1, &self.sockets),
            }
        };
        self.stage = stage;
        Outcome { action: outcome.action, note }
    }

    /// Takes up a payload at `offset`.
    fn deliver(&mut self, drain: Drain, payload: Payload, offset: usize, note: Option<Note>) -> (outcome:
        Outcome)
        ensures
            (final(self).spec_stage(), outcome) == noted(deliver_step(drain, payload, offset), note),
            *final(self) == (Runner { stage: final(self).stage, ..*old(self) }),
    {
        match next_segment(payload.len, payload.segment_size, offset) {
            Some((start, end)) => {
                self.stage = Stage::Delivering { drain, payload, start, end };
                Outcome {
                    action: Action::Deliver {
                        start,
                        end,
                        info: RecvInfo { from: payload.from, to: drain.local },
                    },
                    note,
                }
            },
            None => {
                self.stage = Stage::Draining(drain);
                Outcome { action: Action::Receive { key: drain.key }, note }
            },
        }
    }

    /// Ends the loop on a fault.
    fn fail(&mut self, fault: Fault) -> (outcome: Outcome)
        ensures
            (final(self).spec_stage(), outcome) == abort(fault),
            *final(self) == (Runner { stage: final(self).stage, ..*old(self) }),
    {
        self.stage = Stage::Terminated;
        Outcome { action: Action::Abort(fault), note: None }
    }

    /// Moves to `stage` and asks for `action`.
    fn proceed(&mut self, stage: Stage, action: Action, note: Option<Note>) -> (outcome: Outcome)
        ensures
            outcome == (Outcome { action, note }),
            *final(self) == (Runner { stage, ..*old(self) }),
    {
        self.stage = stage;
        Outcome { action, note }
    }

    /// Runs the loop up to its next outside operation: takes the answer to
    /// the operation that was asked for last, and returns the operation to
    /// perform next. A fresh runner waits for the engine's status, as after
    /// [`Action::QueryEngine`].
    ///
    /// The application's timeout is cleared by the step that computes the
    /// poll timeout, and by no other.
    pub fn run(&mut self, input: Input) -> (outcome: Outcome)
        requires
            old(self).well_formed(),
        ensures
            final(self).well_formed(),
            (final(self).spec_stage(), outcome) == old(self).step(input),
            *final(self) == old(self).after(input),
            final(self).same_registrations(old(self)),
            final(self).spec_app_timeout() == (if old(self).spec_stage() is Idle && input is Status {
                None
            } else {
                old(self).spec_app_timeout()
            }),
            final(self).ready() == (if old(self).spec_stage() is PreHook && input is Ready {
                input->tokens@
            } else {
                old(self).ready()
            }),
    {
        match self.stage {
            Stage::Terminated => Outcome { action: Action::Stop, note: None },
            Stage::Idle => match input {
                Input::Status { pending_sends, engine_timeout } => {
                    let timeout = next_timeout(pending_sends, engine_timeout, self.app_timeout);
                    self.app_timeout = None;
                    self.proceed(Stage::Polling { timeout }, Action::Poll(timeout), None)
                },
                _ => self.fail(Fault::OutOfTurn),
            },
            Stage::Polling { timeout } => match input {
                Input::Polled(result) => match classify_poll(result) {
                    PollVerdict::Proceed => self.proceed(Stage::PreHook, Action::PreHook, None),
                    PollVerdict::Retry => self.proceed(
                        Stage::Polling { timeout },
                        Action::Poll(timeout),
                        Some(Note::PollInterrupted),
                    ),
                    PollVerdict::Fatal => self.fail(Fault::Poll),
                },
                _ => self.fail(Fault::OutOfTurn),
            },
            Stage::PreHook => match input {
                Input::Ready { tokens, pending_sends } => {
                    self.ready = tokens;
                    if self.ready.len() == 0 && !pending_sends {
                        self.proceed(Stage::TimingOut, Action::EngineTimeout, None)
                    } else {
                        self.dispatch(0, None)
                    }
                },
                _ => self.fail(Fault::OutOfTurn),
            },
            Stage::TimingOut => match input {
                Input::Done => self.proceed(Stage::PostHook, Action::PostHook, None),
                _ => self.fail(Fault::OutOfTurn),
            },
            Stage::Draining(drain) => match input {
                Input::Received(received) => match Self::handle_readable_event(&drain, received) {
                    ReceiveVerdict::Deliver(payload) => self.deliver(drain, payload, 0, None),
                    ReceiveVerdict::Exhausted => self.dispatch(
                        drain.next,
                        Some(Note::RecvWouldBlock),
                    ),
                    ReceiveVerdict::Abort(fault) => self.fail(fault),
                },
                _ => self.fail(Fault::OutOfTurn),
            },
            Stage::Delivering { drain, payload, start, end } => match input {
                Input::Processed(result) => match classify_segment(result) {
                    SegmentVerdict::Next(note) => self.deliver(drain, payload, end, note),
                    SegmentVerdict::Leave(note) => self.proceed(
                        Stage::Draining(drain),
                        Action::Receive { key: drain.key },
                        Some(note),
                    ),
                    SegmentVerdict::Abort(fault) => self.fail(fault),
                },
                _ => self.fail(Fault::OutOfTurn),
            },
            Stage::External { next } => match input {
                Input::Done => self.dispatch(next, None),
                _ => self.fail(Fault::OutOfTurn),
            },
            Stage::PostHook => match input {
                Input::Done => self.proceed(Stage::Sending, Action::NextPacket, None),
                _ => self.fail(Fault::OutOfTurn),
            },
            Stage::Sending => match input {
                Input::Packet(result) => match classify_packet(result) {
                    PacketVerdict::Exhausted => self.proceed(
                        Stage::Housekeeping,
                        Action::CollectGarbage,
                        None,
                    ),
                    PacketVerdict::Fatal => self.fail(Fault::EngineSend),
                    PacketVerdict::Send(packet) => match self.sockets.send(
                        &packet.send_info,
                        packet.segment_size,
                    ) {
                        Some((key, plan)) => self.proceed(
                            Stage::Transmitting,
                            Action::Transmit {
                                key,
                                len: packet.total,
                                to: packet.send_info.to,
                                plan,
                            },
                            None,
                        ),
                        None => self.fail(Fault::UnknownSource),
                    },
                },
                _ => self.fail(Fault::OutOfTurn),
            },
            Stage::Transmitting => match input {
                Input::Sent(result) => {
                    let note = match result {
                        Ok(_) => None,
                        Err(_) => Some(Note::SendFailed),
                    };
                    self.proceed(Stage::Sending, Action::NextPacket, note)
                },
                _ => self.fail(Fault::OutOfTurn),
            },
            Stage::Housekeeping => match input {
                Input::Collected { is_server, num_conns } => if should_stop(is_server, num_conns) {
                    self.proceed(Stage::Terminated, Action::Stop, None)
                } else {
                    self.proceed(Stage::Idle, Action::QueryEngine, None)
                },
                _ => self.fail(Fault::OutOfTurn),
            },
        }
    }
}

} // verus!
