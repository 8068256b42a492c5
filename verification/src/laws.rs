//! What holds of the loop as a whole.

use crate::failure::{EngineError, Fault, IoFailure, QuicheError};
use crate::recvfrom::{recv_result, Datagram};
use crate::registry::Event;
use crate::runner::{deliver_step, dispatch_step, receive_verdict, ReceiveVerdict, Runner};
use crate::segment::{
    effective_size, lemma_index_in_range, lemma_segment_after_is_indexed, lemma_segments_tile,
    segment_at, segment_count,
};
use crate::socket::Socket;
use crate::step::{is_idle, plain, Action, Drain, Input, Packet, Payload, Phase, Stage};
use crate::addr::RecvInfo;
use vstd::prelude::*;

verus! {

/// The loop passes through its states in order: a step stays in the state
/// it is in, moves to the state that follows, or ends the loop.
pub proof fn lemma_phases_in_order<T>(runner: Runner<T>, input: Input)
    ensures
        ({
            let before = runner.spec_stage().spec_phase();
            let after = runner.step(input).0.spec_phase();
            after == before || after == before.successor() || after == Phase::Terminated
        }),
{
}

/// Once the loop has ended it stays ended: every input is answered with
/// `Stop`, so nothing is asked of the driver any more.
pub proof fn lemma_terminated_is_final<T>(runner: Runner<T>, input: Input)
    requires
        runner.spec_stage() == Stage::Terminated,
    ensures
        runner.step(input) == (Stage::Terminated, plain(Action::Stop)),
{
}

/// The runner after a run of steps, one for each input in turn.
pub open spec fn after_all<T>(runner: Runner<T>, inputs: Seq<Input>) -> Runner<T>
    decreases inputs.len(),
{
    if inputs.len() == 0 {
        runner
    } else {
        after_all(runner, inputs.drop_last()).after(inputs.last())
    }
}

/// No run of steps changes the sockets or the event descriptors, and a
/// well-formed runner stays well-formed.
pub proof fn lemma_steps_keep_registrations<T>(runner: Runner<T>, inputs: Seq<Input>)
    ensures
        after_all(runner, inputs).same_registrations(&runner),
        runner.well_formed() ==> after_all(runner, inputs).well_formed(),
    decreases inputs.len(),
{
    if inputs.len() > 0 {
        lemma_steps_keep_registrations(runner, inputs.drop_last());
        after_all(runner, inputs.drop_last()).lemma_after(inputs.last());
    }
}

/// An ended loop asks for nothing any more: whatever the driver goes on to
/// feed, every answer is `Stop`.
pub proof fn lemma_ended_loop_stays_ended<T>(runner: Runner<T>, inputs: Seq<Input>)
    requires
        runner.spec_stage() == Stage::Terminated,
    ensures
        after_all(runner, inputs).spec_stage() == Stage::Terminated,
        forall|i: int|
            0 <= i < inputs.len() ==> #[trigger] after_all(runner, inputs.take(i)).step(inputs[i])
                == (Stage::Terminated, plain(Action::Stop)),
    decreases inputs.len(),
{
    if inputs.len() > 0 {
        let before = inputs.drop_last();
        lemma_ended_loop_stays_ended(runner, before);
        after_all(runner, before).lemma_after(inputs.last());
        assert forall|i: int| 0 <= i < inputs.len() implies #[trigger] after_all(
            runner,
            inputs.take(i),
        ).step(inputs[i]) == (Stage::Terminated, plain(Action::Stop)) by {
            if i < before.len() {
                assert(inputs.take(i) == before.take(i));
                assert(inputs[i] == before[i]);
            } else {
                assert(inputs.take(i) == before);
            }
        }
    }
}

/// An iteration begins only where the one before it ended: the loop comes
/// to wait for the engine's status only from housekeeping. The step that
/// answers the status is the one that clears the application's timeout, so
/// the timeout is cleared once in every iteration.
pub proof fn lemma_iteration_begins_after_housekeeping<T>(runner: Runner<T>, input: Input)
    requires
        runner.step(input).0 == Stage::Idle,
    ensures
        runner.spec_stage() == Stage::Housekeeping,
        input is Collected,
{
}

/// The ready list and the position in it that a step takes up, if the step
/// takes an event up: the first position once the ready tokens are known
/// (unless the iteration is idle), and the position after the event that was
/// handled last once its socket would block or its hook has returned.
pub open spec fn taken_up<T>(runner: Runner<T>, input: Input) -> Option<(Seq<usize>, usize)> {
    match (runner.spec_stage(), input) {
        (Stage::PreHook, Input::Ready { tokens, pending_sends }) => if is_idle(
            tokens@.len(),
            pending_sends,
        ) {
            None
        } else {
            Some((tokens@, 0usize))
        },
        (Stage::Draining(drain), Input::Received(Err(IoFailure::WouldBlock))) => Some(
            (runner.ready(), drain.next),
        ),
        (Stage::External { next }, Input::Done) => Some((runner.ready(), next)),
        _ => None,
    }
}

/// A step that takes up a position of the ready list moves to the stage and
/// asks for the operation that the event at that position calls for.
pub proof fn lemma_step_takes_event_up<T>(runner: Runner<T>, input: Input)
    requires
        taken_up(runner, input) is Some,
    ensures
        ({
            let (ready, index) = taken_up(runner, input)->0;
            let taken = dispatch_step(runner.events(), runner.sockets().sockets(), ready, index);
            &&& runner.step(input).0 == taken.0
            &&& runner.step(input).1.action == taken.1.action
        }),
{
}

/// The ready list is gone through in order: the event that is taken up at
/// `index` is followed by the one at `index + 1`.
pub proof fn lemma_events_taken_up_in_order<T>(
    events: Seq<Event<T>>,
    sockets: Map<usize, Socket>,
    ready: Seq<usize>,
    index: usize,
)
    requires
        index < ready.len() <= usize::MAX,
    ensures
        match dispatch_step(events, sockets, ready, index).0 {
            Stage::Draining(drain) => drain.next == index + 1,
            Stage::External { next } => next == index + 1,
            Stage::Terminated => true,
            _ => false,
        },
{
}

/// Housekeeping begins only when the engine has nothing more to send: every
/// packet of the iteration has been handed to a socket before.
pub proof fn lemma_housekeeping_follows_flush<T>(runner: Runner<T>, input: Input)
    requires
        runner.step(input).0 == Stage::Housekeeping,
    ensures
        runner.spec_stage() == Stage::Sending,
        input == Input::Packet(Err(EngineError::Quiche(QuicheError::Done))),
{
}

/// The shutdown signal ends the loop at the point where its event comes up
/// in the ready list, whatever comes after it there: the step is `Stop`, and
/// neither a later event nor the post-receive hook is taken up.
pub proof fn lemma_shutdown_short_circuits<T>(
    events: Seq<Event<T>>,
    sockets: Map<usize, Socket>,
    ready: Seq<usize>,
    index: usize,
)
    requires
        index < ready.len(),
        ready[index as int] < events.len(),
        events[ready[index as int] as int] is Close,
    ensures
        dispatch_step(events, sockets, ready, index) == (Stage::Terminated, plain(Action::Stop)),
{
}

/// The step that takes up the shutdown signal's event ends the loop.
pub proof fn lemma_shutdown_ends_loop<T>(runner: Runner<T>, input: Input)
    requires
        taken_up(runner, input) matches Some((ready, index)) && index < ready.len()
            && ready[index as int] < runner.events().len()
            && runner.events()[ready[index as int] as int] is Close,
    ensures
        runner.step(input).0 == Stage::Terminated,
        runner.step(input).1.action == Action::Stop,
{
}

/// The post-receive hook runs only when the iteration's events are done
/// with: after the engine handled its timeout, or when the ready list has
/// been gone through to its end.
pub proof fn lemma_post_hook_follows_last_event<T>(runner: Runner<T>, input: Input)
    ensures
        runner.step(input).1.action == Action::PostHook <==> {
            ||| runner.spec_stage() == Stage::TimingOut && input is Done
            ||| taken_up(runner, input) matches Some((ready, index)) && index >= ready.len()
        },
{
}

/// How an event is handled depends on that event alone, not on the events
/// around it in the ready list.
pub proof fn lemma_dispatch_is_local<T>(
    events: Seq<Event<T>>,
    sockets: Map<usize, Socket>,
    ready: Seq<usize>,
    other: Seq<usize>,
    index: usize,
)
    requires
        index < ready.len(),
        index < other.len(),
        ready[index as int] == other[index as int],
    ensures
        dispatch_step(events, sockets, ready, index) == dispatch_step(
            events,
            sockets,
            other,
            index,
        ),
{
}

/// In a well-formed runner every socket descriptor resolves: taking up a
/// ready event never fails for want of the socket.
pub proof fn lemma_registered_sockets_resolve<T>(runner: Runner<T>, ready: Seq<usize>, index: usize)
    requires
        runner.well_formed(),
    ensures
        dispatch_step(runner.events(), runner.sockets().sockets(), ready, index).1.action
            != Action::Abort(Fault::UnknownSocket),
{
    if index < ready.len() && ready[index as int] < runner.events().len() {
        let token = ready[index as int] as int;
        assert(runner.events()[token] matches Event::Socket(key)
            ==> runner.sockets().sockets().contains_key(key));
    }
}

/// Draining a socket stops exactly on would-block: only then does the loop
/// go on with the next event. A payload that was read is taken up, and any
/// other failure ends the loop.
pub proof fn lemma_drain_stops_on_would_block(gro: bool, received: Result<Datagram, IoFailure>)
    ensures
        receive_verdict(gro, received) is Exhausted <==> received == Err::<Datagram, IoFailure>(
            IoFailure::WouldBlock,
        ),
        receive_verdict(gro, received) is Deliver <==> (received is Ok && recv_result(
            received->Ok_0,
            gro,
        ) is Ok),
        receive_verdict(gro, received) matches ReceiveVerdict::Deliver(payload) ==> {
            &&& payload.len == received->Ok_0.bytes
            &&& Some(payload.from) == received->Ok_0.address
        },
{
}

/// No part of a payload is dropped: the segment with index `index` is
/// delivered when the loop takes the payload up where the segment starts,
/// and with the address pair of the payload. Where the segment ends, the
/// loop takes up the segment that follows, and after the last one it reads
/// the socket again.
pub proof fn lemma_segments_delivered_in_order(drain: Drain, payload: Payload, index: nat)
    requires
        index < segment_count(payload.len as nat, payload.segment_size as nat),
    ensures
        ({
            let len = payload.len as nat;
            let size = payload.segment_size as nat;
            let (start, end) = segment_at(len, size, index);
            let here = deliver_step(drain, payload, (index * effective_size(len, size)) as usize);
            let after = deliver_step(drain, payload, end as usize);
            &&& here.0 == Stage::Delivering {
                drain,
                payload,
                start: start as usize,
                end: end as usize,
            }
            &&& here.1 == plain(
                Action::Deliver {
                    start: start as usize,
                    end: end as usize,
                    info: RecvInfo { from: payload.from, to: drain.local },
                },
            )
            &&& if index + 1 < segment_count(len, size) {
                after.1.action == Action::Deliver {
                    start: segment_at(len, size, index + 1).0 as usize,
                    end: segment_at(len, size, index + 1).1 as usize,
                    info: RecvInfo { from: payload.from, to: drain.local },
                }
            } else {
                after == (Stage::Draining(drain), plain(Action::Receive { key: drain.key }))
            }
        }),
{
    let len = payload.len as nat;
    let size = payload.segment_size as nat;
    lemma_index_in_range(len, size, index);
    lemma_segment_after_is_indexed(len, size, index);
    lemma_segments_tile(len, size, index);
    if index + 1 < segment_count(len, size) {
        lemma_index_in_range(len, size, index + 1);
        lemma_segment_after_is_indexed(len, size, index + 1);
        lemma_segments_tile(len, size, index + 1);
    }
}

/// A packet is sent on the socket that is bound to the packet's source
/// address, and a packet for whose source address no socket is bound ends
/// the loop: it is never passed over.
pub proof fn lemma_packet_leaves_from_its_source<T>(runner: Runner<T>, packet: Packet)
    requires
        runner.well_formed(),
        runner.spec_stage() == Stage::Sending,
    ensures
        match runner.step(Input::Packet(Ok(packet))).1.action {
            Action::Transmit { key, len, to, plan } => {
                &&& runner.sockets().key_of(packet.send_info.from) == Some(key)
                &&& runner.sockets().sockets().contains_key(key)
                &&& runner.sockets().sockets()[key].spec_local_addr() == packet.send_info.from
                &&& len == packet.total
                &&& to == packet.send_info.to
            },
            Action::Abort(fault) => {
                &&& fault == Fault::UnknownSource
                &&& runner.sockets().key_of(packet.send_info.from) is None
            },
            _ => false,
        },
{
    if runner.sockets().key_of(packet.send_info.from) is Some {
        runner.sockets().lemma_key_of_is_bound(packet.send_info.from);
    }
}

/// A receive without coalescing reports a payload that is one segment: its
/// segment size equals its length.
pub proof fn lemma_plain_receive_is_one_segment(datagram: Datagram)
    ensures
        recv_result(datagram, false) matches Ok(received) ==> {
            &&& received.segment_size == received.len
            &&& segment_count(received.len as nat, received.segment_size as nat) <= 1
        },
{
    if recv_result(datagram, false) is Ok {
        let len = datagram.bytes as nat;
        if len > 0 {
            assert((len + len - 1) / (len as int) == 1) by (nonlinear_arith)
                requires
                    len > 0,
            ;
        }
    }
}

} // verus!
