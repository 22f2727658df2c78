//! What holds of every run of the streaming session, proved over its model.

use vstd::prelude::*;

use crate::elevenlabs_streaming::{
    audio_chunk, commit_silence, encodable, ChunkView, ClientView, CommitStepView, ConfigView,
    SessionPhase, StreamingError,
};

verus! {

/// One call on the client, as the model sees it.
pub enum Call {
    Connect(ConfigView),
    ConnectWithLastConfig,
    HandshakeFinished(bool),
    OpenGate,
    CloseGate,
    SendAudioChunk(Seq<u8>),
    CloseGateAndCommit,
    CommitWaitFinished(bool),
    Disconnect,
    ConnectionLost(u64),
}

/// The client after one call.
pub open spec fn step(c: ClientView, call: Call) -> ClientView {
    match call {
        Call::Connect(config) => c.after_connect(config),
        Call::ConnectWithLastConfig => match c.last_config {
            Some(config) => c.after_connect(config),
            None => c,
        },
        Call::HandshakeFinished(established) => c.after_handshake(established),
        Call::OpenGate => c.after_open_gate(),
        Call::CloseGate => c.after_close_gate(),
        Call::SendAudioChunk(pcm) => c.after_chunk(pcm),
        Call::CloseGateAndCommit => c.after_commit_request(),
        Call::CommitWaitFinished(_) => c.without_connection(),
        Call::Disconnect => c.without_connection(),
        Call::ConnectionLost(serial) => c.after_connection_lost(serial),
    }
}

/// The audio messages that one call puts on the network.
pub open spec fn emitted(c: ClientView, call: Call) -> Seq<ChunkView> {
    match call {
        Call::SendAudioChunk(pcm) => match c.chunk_outcome(pcm) {
            Ok(Some(message)) => seq![message],
            _ => Seq::empty(),
        },
        Call::CloseGateAndCommit => match c.commit_outcome() {
            Ok(CommitStepView::Commit { message, .. }) => seq![message],
            _ => Seq::empty(),
        },
        _ => Seq::empty(),
    }
}

/// The client after a sequence of calls.
pub open spec fn run(c: ClientView, calls: Seq<Call>) -> ClientView
    decreases calls.len(),
{
    if calls.len() == 0 {
        c
    } else {
        step(run(c, calls.drop_last()), calls.last())
    }
}

/// The audio messages that a sequence of calls puts on the network, in order.
pub open spec fn transcript(c: ClientView, calls: Seq<Call>) -> Seq<ChunkView>
    decreases calls.len(),
{
    if calls.len() == 0 {
        Seq::empty()
    } else {
        transcript(c, calls.drop_last()) + emitted(run(c, calls.drop_last()), calls.last())
    }
}

/// Every call keeps the client well formed.
pub proof fn lemma_step_keeps_well_formed(c: ClientView, call: Call)
    requires
        c.wf(),
    ensures
        step(c, call).wf(),
{
}

/// Every sequence of calls keeps the client well formed.
pub proof fn lemma_run_keeps_well_formed(c: ClientView, calls: Seq<Call>)
    requires
        c.wf(),
    ensures
        run(c, calls).wf(),
    decreases calls.len(),
{
    if calls.len() > 0 {
        lemma_run_keeps_well_formed(c, calls.drop_last());
        lemma_step_keeps_well_formed(run(c, calls.drop_last()), calls.last());
    }
}

/// Whether a session may pass from one place to another in one call.
/// Connecting comes only after a disconnected state and leads to a closed
/// gate or back; every state may end disconnected; a commit that found
/// nothing new to send falls back to a closed gate.
pub open spec fn may_follow(from: SessionPhase, to: SessionPhase) -> bool {
    from == to || to == SessionPhase::Disconnected || match from {
        SessionPhase::Disconnected => to == SessionPhase::Connecting,
        SessionPhase::Connecting => to == SessionPhase::GateClosed,
        SessionPhase::GateClosed => to == SessionPhase::GateOpen || to == SessionPhase::Committing,
        SessionPhase::GateOpen => to == SessionPhase::GateClosed || to == SessionPhase::Committing,
        SessionPhase::Committing => to == SessionPhase::GateClosed,
    }
}

/// No call takes the session anywhere but along the edges of its state
/// machine.
pub proof fn lemma_phase_transitions(c: ClientView, call: Call)
    requires
        c.wf(),
    ensures
        may_follow(c.phase(), step(c, call).phase()),
{
}

/// A session is reached only through a handshake: from a disconnected
/// client, one call never leads to a connected one.
pub proof fn lemma_connected_only_through_handshake(c: ClientView, call: Call)
    requires
        c.wf(),
        !c.is_connected(),
        step(c, call).is_connected(),
    ensures
        c.pending is Some,
        call == Call::HandshakeFinished(true),
{
}

/// Whether no call of the sequence opens the transmit gate.
pub open spec fn never_opens(calls: Seq<Call>) -> bool {
    forall|i: int| 0 <= i < calls.len() ==> !(#[trigger] calls[i] is OpenGate)
}

/// The transmit gate strictly gates transmission: from a state in which
/// it is not open, no sequence of calls without `open_gate` ever makes
/// `send_audio_chunk` put a message on the network.
pub proof fn lemma_closed_gate_sends_nothing(c: ClientView, calls: Seq<Call>, pcm: Seq<u8>)
    requires
        !c.is_transmitting(),
        never_opens(calls),
    ensures
        !run(c, calls).is_transmitting(),
        !(run(c, calls).chunk_outcome(pcm) matches Ok(Some(_))),
        emitted(run(c, calls), Call::SendAudioChunk(pcm)) == Seq::<ChunkView>::empty(),
    decreases calls.len(),
{
    if calls.len() > 0 {
        let before = calls.drop_last();
        assert forall|i: int| 0 <= i < before.len() implies !(#[trigger] before[i] is OpenGate) by {
            assert(before[i] == calls[i]);
        }
        lemma_closed_gate_sends_nothing(c, before, pcm);
        assert(!(calls[calls.len() - 1] is OpenGate));
    }
}

/// Where the transmit gate is closed: in a client without a session, in
/// every new session, and after `close_gate` and `close_gate_and_commit`.
/// In each of these states a chunk puts nothing on the network.
pub proof fn lemma_where_gate_is_closed(c: ClientView, pcm: Seq<u8>)
    ensures
        !ClientView::initial().is_transmitting(),
        c.pending is Some ==> !c.after_handshake(true).is_transmitting(),
        c.is_connected() ==> !c.after_close_gate().is_transmitting(),
        c.is_connected() ==> !c.after_commit_request().is_transmitting(),
        !(ClientView::initial().chunk_outcome(pcm) matches Ok(Some(_))),
        c.pending is Some ==> !(c.after_handshake(true).chunk_outcome(pcm) matches Ok(Some(_))),
        !(c.after_close_gate().chunk_outcome(pcm) matches Ok(Some(_))),
        !(c.after_commit_request().chunk_outcome(pcm) matches Ok(Some(_))),
{
}

/// Opening an open gate changes nothing more: two calls of `open_gate` in a
/// row leave the session as one does.
pub proof fn lemma_open_gate_is_idempotent(c: ClientView)
    ensures
        c.after_open_gate().after_open_gate() == c.after_open_gate(),
        c.is_connected() ==> c.after_open_gate().is_transmitting(),
        c.is_connected() ==> !c.after_open_gate().has_audio_since_open(),
{
}

/// A commit on a live session that sent nothing since its gate opened puts
/// nothing on the network, succeeds, and leaves the session as
/// `close_gate` would.
pub proof fn lemma_commit_without_audio_is_silent(c: ClientView)
    requires
        c.is_connected(),
        !c.has_audio_since_open(),
    ensures
        c.commit_outcome() == Ok::<CommitStepView, StreamingError>(CommitStepView::Skipped),
        emitted(c, Call::CloseGateAndCommit) == Seq::<ChunkView>::empty(),
        c.after_commit_request().is_connected(),
        !c.after_commit_request().is_committing(),
        !c.after_commit_request().is_transmitting(),
{
}

/// The calls that hand the given chunks to the session, one after the
/// other.
pub open spec fn chunk_calls(chunks: Seq<Seq<u8>>) -> Seq<Call> {
    chunks.map_values(|pcm: Seq<u8>| Call::SendAudioChunk(pcm))
}

/// While the transmit gate of a live session is open, every chunk goes
/// out, in the order in which it came, without the commit flag.
pub proof fn lemma_open_gate_forwards_in_order(c: ClientView, chunks: Seq<Seq<u8>>)
    requires
        c.is_connected(),
        c.is_transmitting(),
        forall|i: int| 0 <= i < chunks.len() ==> encodable(#[trigger] chunks[i]),
    ensures
        ({
            let after = run(c, chunk_calls(chunks));
            let sent = transcript(c, chunk_calls(chunks));
            let rate = c.connection->0.sample_rate;
            &&& after.is_connected()
            &&& after.is_transmitting()
            &&& after.connection->0.sample_rate == rate
            &&& after.has_audio_since_open() == (c.has_audio_since_open() || chunks.len() > 0)
            &&& sent.len() == chunks.len()
            &&& forall|i: int|
                0 <= i < chunks.len() ==> #[trigger] sent[i] == audio_chunk(chunks[i], rate, false)
        }),
    decreases chunks.len(),
{
    let calls = chunk_calls(chunks);
    if chunks.len() > 0 {
        let front = chunks.drop_last();
        assert(calls.drop_last() =~= chunk_calls(front));
        assert(calls.last() == Call::SendAudioChunk(chunks.last()));
        lemma_open_gate_forwards_in_order(c, front);
        let before = run(c, chunk_calls(front));
        assert(before.chunk_outcome(chunks.last()) == Ok::<Option<ChunkView>, StreamingError>(
            Some(audio_chunk(chunks.last(), c.connection->0.sample_rate, false)),
        ));
        let sent = transcript(c, calls);
        assert(sent =~= transcript(c, chunk_calls(front)) + seq![
            audio_chunk(chunks.last(), c.connection->0.sample_rate, false),
        ]);
        assert forall|i: int| 0 <= i < chunks.len() implies #[trigger] sent[i] == audio_chunk(
            chunks[i],
            c.connection->0.sample_rate,
            false,
        ) by {
            if i < front.len() {
                assert(front[i] == chunks[i]);
                assert(sent[i] == transcript(c, chunk_calls(front))[i]);
            }
        }
    }
}

/// One turn on the wire: after the transmit gate opened, the chunks go out
/// in order without the commit flag, and the commit follows them as one
/// frame of silence with the flag.
pub proof fn lemma_turn_goes_out_in_order(c: ClientView, chunks: Seq<Seq<u8>>)
    requires
        c.is_connected(),
        chunks.len() > 0,
        forall|i: int| 0 <= i < chunks.len() ==> encodable(#[trigger] chunks[i]),
    ensures
        ({
            let opened = step(c, Call::OpenGate);
            let calls = chunk_calls(chunks).push(Call::CloseGateAndCommit);
            let sent = transcript(opened, calls);
            let rate = c.connection->0.sample_rate;
            &&& sent.len() == chunks.len() + 1
            &&& forall|i: int|
                0 <= i < chunks.len() ==> #[trigger] sent[i] == audio_chunk(chunks[i], rate, false)
            &&& sent[chunks.len() as int] == audio_chunk(commit_silence(rate), rate, true)
            &&& run(opened, calls).is_committing()
            &&& !run(opened, calls).is_transmitting()
        }),
{
    let opened = step(c, Call::OpenGate);
    let calls = chunk_calls(chunks).push(Call::CloseGateAndCommit);
    assert(calls.drop_last() =~= chunk_calls(chunks));
    lemma_open_gate_forwards_in_order(opened, chunks);
    let sent = transcript(opened, calls);
    let before = transcript(opened, chunk_calls(chunks));
    assert forall|i: int| 0 <= i < chunks.len() implies #[trigger] sent[i] == audio_chunk(
        chunks[i],
        c.connection->0.sample_rate,
        false,
    ) by {
        assert(sent[i] == before[i]);
    }
}

/// A committed turn ends the connection: once the commit of a live session
/// that sent audio has run its course, acknowledged or timed out, no
/// session is left and the next connect is accepted.
pub proof fn lemma_committed_turn_ends_connection(
    c: ClientView,
    acknowledged: bool,
    next: ConfigView,
)
    requires
        c.wf(),
        c.is_connected(),
        c.has_audio_since_open(),
    ensures
        c.commit_outcome() matches Ok(CommitStepView::Commit { message, .. }) && message.commit,
        ({
            let done = step(step(c, Call::CloseGateAndCommit), Call::CommitWaitFinished(acknowledged));
            &&& !done.is_connected()
            &&& !done.connect_refused()
            &&& step(done, Call::Connect(next)).pending == Some(next)
        }),
{
}

/// While a session is alive, or its handshake is in flight, a second
/// connect is refused; after a disconnect the same configuration is
/// accepted again.
pub proof fn lemma_single_session(c: ClientView, config: ConfigView)
    requires
        c.wf(),
        !c.connect_refused(),
    ensures
        c.after_connect(config).connect_refused(),
        c.after_connect(config).after_handshake(true).connect_refused(),
        c.after_connect(config).after_handshake(true).after_connect(config) == c.after_connect(
            config,
        ).after_handshake(true),
        ({
            let gone = c.after_connect(config).after_handshake(true).without_connection();
            &&& !gone.connect_refused()
            &&& gone.after_connect(config).pending == Some(config)
        }),
{
}

/// Only a successful connect leaves its configuration behind, and a
/// reconnect after a disconnect uses exactly that configuration.
pub proof fn lemma_reconnect_reuses_last_config(c: ClientView, config: ConfigView)
    requires
        c.wf(),
        !c.connect_refused(),
    ensures
        c.after_connect(config).after_handshake(false).last_config == c.last_config,
        ({
            let gone = c.after_connect(config).after_handshake(true).without_connection();
            &&& gone.last_config == Some(config)
            &&& step(gone, Call::ConnectWithLastConfig) == gone.after_connect(config)
            &&& step(gone, Call::ConnectWithLastConfig).pending == Some(config)
        }),
{
}

/// The end of one session's transport never reaches a later session: the
/// session that follows a disconnect has another serial number, and a
/// late report about the earlier one leaves it alive.
pub proof fn lemma_stale_reader_is_harmless(c: ClientView, config: ConfigView, later: ConfigView)
    requires
        c.wf(),
        !c.connect_refused(),
    ensures
        ({
            let first = c.after_connect(config).after_handshake(true);
            let second = first.without_connection().after_connect(later).after_handshake(true);
            &&& first.session_serial() == Some(c.next_serial)
            &&& second.session_serial() != first.session_serial()
            &&& second.after_connection_lost(c.next_serial) == second
            &&& second.is_connected()
        }),
{
}

/// The record of what was sent is only ever set by a chunk that passed an
/// open gate; every opening of a live session's gate clears it, and a new
/// session starts without it.
pub proof fn lemma_sent_flag_follows_gate(c: ClientView, call: Call)
    ensures
        step(c, call).has_audio_since_open() && !c.has_audio_since_open() ==> call is SendAudioChunk
            && c.is_transmitting(),
        call is OpenGate && c.is_connected() ==> !step(c, call).has_audio_since_open(),
        call == Call::HandshakeFinished(true) && c.pending is Some ==> !step(
            c,
            call,
        ).has_audio_since_open(),
{
}

} // verus!
