//! What every session obeys, proved of the state machine in `session_model`.

use crate::command::{command_text, is_shutdown_word};
use crate::session_model::{
    interleaves, merged, stream_of, Arrivals, Ending, Event, Phase, Process, SessionError, SessionView,
    Source, Writer,
};
use crate::transcript::{lemma_advance_unsent, lemma_front_prefix, lemma_push_unsent};
use vstd::prelude::*;

verus! {

/// Taking one more chunk appends its bytes to the merged stream.
pub proof fn lemma_merged_push(log: Arrivals, source: Source, chunk: Seq<u8>)
    ensures
        merged(log.push((source, chunk))) == merged(log) + chunk,
        stream_of(log.push((source, chunk)), source) == stream_of(log, source) + chunk,
        forall|other: Source|
            other != source ==> #[trigger] stream_of(log.push((source, chunk)), other)
                == stream_of(log, other),
{
    let longer = log.push((source, chunk));
    assert(longer.drop_last() =~= log);
    assert(longer.last() == (source, chunk));
}

proof fn lemma_settle_wf(a: SessionView)
    requires
        a.inv(),
    ensures
        a.settle().wf(),
{
}

proof fn lemma_active_wf(v: SessionView, event: Event)
    requires
        v.wf(),
        v.active(),
    ensures
        v.next_active(event).wf(),
{
    let t = v.transcript;
    lemma_front_prefix(t);
    let a = match event {
        Event::Output(source, chunk) => v.take_output(source, chunk@),
        Event::OutputEnded(source) => if v.open(source) {
            v.end_stream(source)
        } else {
            v
        },
        Event::Written(n) => v.take_written(n),
        Event::WriteFailed => if v.writer is Active {
            v.break_writer()
        } else {
            v
        },
        Event::Flushed => if v.writer is Flushing {
            SessionView { writer: Writer::Finished, ..v }
        } else {
            v
        },
        Event::PeerGone => if v.watching {
            SessionView { watching: false, ..v }.hang_up()
        } else {
            v
        },
        Event::ProcessExited => if v.phase is Streaming && v.process is Running {
            SessionView { phase: Phase::Draining, process: Process::Exited, ..v }
        } else {
            v
        },
        Event::Killed => if v.process is Killing {
            SessionView { process: Process::Killed, ..v }
        } else {
            v
        },
        _ => v,
    };
    assert(v.next_active(event) == a.settle());
    match event {
        Event::Output(source, chunk) => {
            if chunk@.len() > 0 && v.accepts(source) {
                lemma_push_unsent(t, chunk@);
                lemma_merged_push(v.ledger.arrivals, source, chunk@);
                assert(v.ledger.delivered + (t.unsent() + chunk@) =~= (v.ledger.delivered
                    + t.unsent()) + chunk@);
            }
        },
        Event::Written(n) => {
            if v.writable() && n != 0 {
                let k = v.counted(n);
                lemma_advance_unsent(t, k);
                assert(t.front().take(k as int) =~= t.unsent().take(k as int));
                assert(v.ledger.delivered + t.front().take(k as int) + t.unsent().skip(k as int)
                    =~= v.ledger.delivered + t.unsent());
            }
        },
        _ => {},
    }
    assert(a.inv());
    lemma_settle_wf(a);
}

/// Every step keeps the invariant.
pub proof fn law_step_keeps_invariant(v: SessionView, event: Event)
    requires
        v.wf(),
    ensures
        v.next(event).wf(),
{
    if v.active() {
        lemma_active_wf(v, event);
    }
}

/// A new session obeys the invariant, and so does every state that any run
/// of events leads to.
pub proof fn law_reachable_states_are_valid(containment: bool, events: Seq<Event>)
    ensures
        SessionView::initial(containment).wf(),
        SessionView::initial(containment).run(events).wf(),
    decreases events.len(),
{
    let start = SessionView::initial(containment);
    assert(start.transcript.chunks.flatten() =~= Seq::<u8>::empty());
    assert(start.ledger.delivered + start.transcript.unsent() =~= merged(start.ledger.arrivals));
    if events.len() > 0 {
        law_reachable_states_are_valid(containment, events.drop_last());
        law_step_keeps_invariant(start.run(events.drop_last()), events.last());
    }
}

/// The merged stream holds the bytes of the two streams and no others,
/// whatever the interleaving: as multisets, it is their sum.
pub proof fn law_merged_is_both_streams(log: Arrivals)
    ensures
        merged(log).to_multiset() == stream_of(log, Source::Stdout).to_multiset().add(
            stream_of(log, Source::Stderr).to_multiset(),
        ),
        merged(log).len() == stream_of(log, Source::Stdout).len() + stream_of(
            log,
            Source::Stderr,
        ).len(),
    decreases log.len(),
{
    broadcast use vstd::seq_lib::group_to_multiset_ensures;

    if log.len() == 0 {
        assert(merged(log) =~= Seq::<u8>::empty());
    } else {
        let head = log.drop_last();
        let chunk = log.last().1;
        law_merged_is_both_streams(head);
        vstd::seq_lib::lemma_multiset_commutative(merged(head), chunk);
        let out = stream_of(head, Source::Stdout);
        let err = stream_of(head, Source::Stderr);
        match log.last().0 {
            Source::Stdout => {
                vstd::seq_lib::lemma_multiset_commutative(out, chunk);
                assert(merged(log).to_multiset() =~= (out + chunk).to_multiset().add(
                    err.to_multiset(),
                ));
            },
            Source::Stderr => {
                vstd::seq_lib::lemma_multiset_commutative(err, chunk);
                assert(merged(log).to_multiset() =~= out.to_multiset().add(
                    (err + chunk).to_multiset(),
                ));
            },
        }
    }
}

/// Bytes that are added to the whole and to one side keep the shuffle.
proof fn lemma_interleaves_append(
    whole: Seq<u8>,
    left: Seq<u8>,
    right: Seq<u8>,
    chunk: Seq<u8>,
)
    requires
        interleaves(whole, left, right),
    ensures
        interleaves(whole + chunk, left + chunk, right),
        interleaves(whole + chunk, left, right + chunk),
    decreases chunk.len(),
{
    if chunk.len() == 0 {
        assert(whole + chunk =~= whole);
        assert(left + chunk =~= left);
        assert(right + chunk =~= right);
    } else {
        let head = chunk.drop_last();
        lemma_interleaves_append(whole, left, right, head);
        assert((whole + chunk).drop_last() =~= whole + head);
        assert((left + chunk).drop_last() =~= left + head);
        assert((right + chunk).drop_last() =~= right + head);
        assert((whole + chunk).last() == chunk.last());
        assert((left + chunk).last() == chunk.last());
        assert((right + chunk).last() == chunk.last());
    }
}

/// Nothing is reordered within a stream: the merged stream is the two
/// streams shuffled together, chunk by chunk, each in its own order.
pub proof fn law_merged_keeps_each_stream_in_order(log: Arrivals)
    ensures
        interleaves(merged(log), stream_of(log, Source::Stdout), stream_of(log, Source::Stderr)),
    decreases log.len(),
{
    if log.len() > 0 {
        let head = log.drop_last();
        law_merged_keeps_each_stream_in_order(head);
        lemma_interleaves_append(
            merged(head),
            stream_of(head, Source::Stdout),
            stream_of(head, Source::Stderr),
            log.last().1,
        );
    }
}

/// No chunk is dropped in silence: one that is reported while the session
/// accepts it from its stream is queued behind what is queued and recorded
/// as arrived, and one that is reported otherwise changes nothing at all,
/// so that the caller still has it.
pub proof fn law_accepted_chunk_is_queued(v: SessionView, source: Source, chunk: Vec<u8>)
    requires
        v.wf(),
        chunk@.len() > 0,
    ensures
        ({
            let after = v.next(Event::Output(source, chunk));
            if v.accepts(source) {
                &&& after.ledger.arrivals == v.ledger.arrivals.push((source, chunk@))
                &&& after.ledger.delivered == v.ledger.delivered
                &&& after.transcript.unsent() == v.transcript.unsent() + chunk@
                &&& merged(after.ledger.arrivals) == merged(v.ledger.arrivals) + chunk@
            } else {
                after == v
            }
        }),
{
    law_step_keeps_invariant(v, Event::Output(source, chunk));
    if v.accepts(source) {
        lemma_push_unsent(v.transcript, chunk@);
        lemma_merged_push(v.ledger.arrivals, source, chunk@);
    }
}

/// A command line that is not a reserved word is handed to the shell as it
/// was read, and no process exists before the caller has spawned it.
pub proof fn law_command_is_run(v: SessionView, event: Event)
    requires
        v.wf(),
        v.phase is AwaitingCommand,
        event matches Event::CommandRead(bytes) && bytes@.len() > 0 && !is_shutdown_word(
            command_text(bytes@),
        ),
    ensures
        v.next(event).phase is Spawning,
        v.next(event).directive() is Spawn,
        event matches Event::CommandRead(bytes) && v.next(event).command == command_text(bytes@),
        v.next(event).ledger.spawned == 0,
        v.next(event).next(Event::Spawned).ledger.spawned == 1,
        v.next(event).next(Event::Spawned).command == v.next(event).command,
{
}

/// The greeting comes first: until the liveness token is out, nothing is
/// read from the peer, and a token that cannot be sent ends the session.
pub proof fn law_greeting_comes_first(v: SessionView, event: Event)
    requires
        v.wf(),
        v.phase is Greeting,
    ensures
        v.directive() is SendHandshake,
        v.next(event).directive() is ReadCommand <==> event is HandshakeSent,
        event is HandshakeFailed ==> v.next(event).outcome == Some(
            Ending::Failed(SessionError::Handshake),
        ),
        !(event is HandshakeSent) && !(event is HandshakeFailed) ==> v.next(event) == v,
{
}

/// One command per connection: once the single read has been taken, the
/// command line stays what it is, and whatever the peer sends afterwards
/// changes nothing.
pub proof fn law_one_command_per_connection(v: SessionView, event: Event)
    requires
        v.wf(),
        !(v.phase is Greeting) && !(v.phase is AwaitingCommand),
    ensures
        v.next(event).command == v.command,
        event is CommandRead || event is PeerData ==> v.next(event) == v,
{
    law_step_keeps_invariant(v, event);
}

/// A process is started by one step only: the report that the spawn that was
/// asked for has succeeded.
pub proof fn law_spawn_is_counted_once(v: SessionView, event: Event)
    requires
        v.wf(),
    ensures
        v.next(event).ledger.spawned == v.ledger.spawned + if v.phase is Spawning
            && event is Spawned {
            1nat
        } else {
            0nat
        },
        v.next(event).directive() is Spawn ==> v.phase is AwaitingCommand || (v.phase is Spawning
            && v.next(event) == v),
{
    law_step_keeps_invariant(v, event);
}

/// Whatever is reported to a session, and in whatever order, it starts at
/// most one process and orders at most one kill.
pub proof fn law_at_most_one_process(containment: bool, events: Seq<Event>)
    ensures
        SessionView::initial(containment).run(events).ledger.spawned <= 1,
        SessionView::initial(containment).run(events).ledger.kills <= 1,
{
    law_reachable_states_are_valid(containment, events);
}

/// What the peer has received is always a head of what the process has put
/// out, in arrival order; and a session that closes without a failed write
/// has delivered all of it.
pub proof fn law_output_arrives_whole_and_in_order(v: SessionView)
    requires
        v.wf(),
    ensures
        v.ledger.delivered.is_prefix_of(merged(v.ledger.arrivals)),
        v.phase is Closed && !(v.writer is Failed) ==> v.ledger.delivered == merged(
            v.ledger.arrivals,
        ),
{
    lemma_front_prefix(v.transcript);
    if !(v.writer is Failed) {
        if v.phase is Closed {
            assert(v.transcript.unsent() =~= Seq::<u8>::empty());
            assert(v.ledger.delivered + v.transcript.unsent() =~= v.ledger.delivered);
        }
    }
}

/// A reserved word, in any mix of upper and lower case, makes the session
/// ask for the shutdown signal instead of a process.
pub proof fn law_reserved_word_asks_for_shutdown(v: SessionView, event: Event)
    requires
        v.wf(),
        v.phase is AwaitingCommand,
        event matches Event::CommandRead(bytes) && bytes@.len() > 0 && is_shutdown_word(
            command_text(bytes@),
        ),
    ensures
        v.next(event).phase is ShuttingDown,
        v.next(event).directive() is RaiseShutdown,
        v.next(event).process is Absent,
{
}

/// Once a session asks for the shutdown signal it never asks for a process
/// and sends nothing to the peer: all it does afterwards is close.
pub proof fn law_shutdown_spawns_nothing(v: SessionView, events: Seq<Event>)
    requires
        v.wf(),
        v.phase is ShuttingDown,
    ensures
        v.run(events).wf(),
        v.run(events).ledger.spawned == 0,
        v.run(events).ledger.kills == 0,
        v.run(events).ledger.delivered.len() == 0,
        !v.run(events).writable(),
        v.run(events).phase is ShuttingDown || (v.run(events).phase is Closed && v.run(
            events,
        ).outcome == Some(Ending::ShutdownRequested)),
    decreases events.len(),
{
    if events.len() > 0 {
        law_shutdown_spawns_nothing(v, events.drop_last());
        law_step_keeps_invariant(v.run(events.drop_last()), events.last());
    }
}

/// While the process runs, the loss of the peer makes the session order the
/// kill at once, whether the loss shows on the read half or on the write half.
pub proof fn law_disconnect_kills_running_process(v: SessionView, event: Event)
    requires
        v.wf(),
        v.phase is Streaming,
        v.loses_peer(event),
    ensures
        v.process is Running,
        v.next(event).process is Killing,
        v.next(event).directive() is Kill,
        v.next(event).disconnected,
        v.next(event).ledger.kills == 1,
{
}

/// The group handle is held for as long as the process may still be writing
/// and is released when the session closes; a closed session holds nothing,
/// and if it had a process, that process is dead and its output has been moved.
pub proof fn law_handle_is_released_last(v: SessionView)
    requires
        v.wf(),
    ensures
        v.active() && v.containment && !v.unconfined ==> v.bound,
        v.phase is Closed ==> !v.bound && !v.watching,
        v.phase is Closed && v.ledger.spawned == 1 ==> v.drained(),
        v.outcome == Some(Ending::Interrupted) ==> v.process is Killed && v.disconnected,
{
}

/// A closed session ignores whatever is reported to it.
pub proof fn law_closed_is_final(v: SessionView, event: Event)
    requires
        v.phase is Closed,
    ensures
        v.next(event) == v,
{
}

/// After a failed write nothing more reaches the connection.
pub proof fn law_nothing_delivered_after_failure(v: SessionView, events: Seq<Event>)
    requires
        v.wf(),
        v.writer is Failed,
    ensures
        v.run(events).wf(),
        v.run(events).writer is Failed,
        v.run(events).ledger.delivered == v.ledger.delivered,
    decreases events.len(),
{
    if events.len() > 0 {
        law_nothing_delivered_after_failure(v, events.drop_last());
        law_step_keeps_invariant(v.run(events.drop_last()), events.last());
    }
}

/// When the process exits by itself while the peer is still there, no kill
/// is ordered then or later.
pub proof fn law_natural_exit_is_never_killed(v: SessionView, events: Seq<Event>)
    requires
        v.wf(),
        v.phase is Streaming,
    ensures
        v.next(Event::ProcessExited).process is Exited,
        v.next(Event::ProcessExited).run(events).wf(),
        v.next(Event::ProcessExited).run(events).process is Exited,
        v.next(Event::ProcessExited).run(events).ledger.kills == 0,
        !(v.next(Event::ProcessExited).run(events).directive() is Kill),
    decreases events.len(),
{
    let after = v.next(Event::ProcessExited);
    law_step_keeps_invariant(v, Event::ProcessExited);
    if events.len() > 0 {
        law_natural_exit_is_never_killed(v, events.drop_last());
        law_step_keeps_invariant(after.run(events.drop_last()), events.last());
    }
}

/// A session that tells the caller to wait for I/O is open to some: it never
/// waits for nothing.
pub proof fn law_multiplex_has_work(v: SessionView)
    requires
        v.wf(),
        v.directive() is Multiplex,
    ensures
        v.accepts(Source::Stdout) || v.accepts(Source::Stderr) || v.writable()
            || v.awaiting_exit(),
{
}

} // verus!
