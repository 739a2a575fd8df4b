//! What holds of a listener over a whole history of events.
//!
//! A history is a sequence of events, fed to the listener one after another.
//! The statements here are about every history: which lines reach the log,
//! which bytes reach the editor, and in which order.

use vstd::prelude::*;
use crate::inbound::{line_of, DecodeAttemptView, MessageView};
use crate::listener::{
    frame_in_bounds,
    initial,
    phase_of,
    step_spec,
    ActionView,
    EventView,
    ListenerView,
    Phase,
    Stage,
};
use crate::outbound::write_outcome;
use crate::request::{attach_arguments, command_arguments, frame_encoding, REQUEST};

verus! {

/// The message that the listener takes in at a step, if any: the frame that
/// the decoder completed, while the listener waited for the decoder, under a
/// credible count of bytes.
pub open spec fn observed(s: ListenerView, event: EventView) -> Option<MessageView> {
    match (s.stage, event) {
        (
            Stage::Decoding,
            EventView::Decoded(DecodeAttemptView::Complete { consumed, message }),
        ) => if frame_in_bounds(s, consumed) {
            Some(message)
        } else {
            None
        },
        _ => None,
    }
}

/// The line that an action adds to the log, if any.
pub open spec fn appended(action: ActionView) -> Option<Seq<char>> {
    match action {
        ActionView::Append(line) => Some(line),
        _ => None,
    }
}

/// The listener's state after a sequence of events, one after another.
pub open spec fn state_after(s: ListenerView, events: Seq<EventView>) -> ListenerView
    decreases events.len(),
{
    if events.len() == 0 {
        s
    } else {
        step_spec(state_after(s, events.drop_last()), events.last()).0
    }
}

/// The actions with which the listener answers a sequence of events, in
/// order.
pub open spec fn actions_of(s: ListenerView, events: Seq<EventView>) -> Seq<ActionView>
    decreases events.len(),
{
    if events.len() == 0 {
        Seq::empty()
    } else {
        actions_of(s, events.drop_last()).push(
            step_spec(state_after(s, events.drop_last()), events.last()).1,
        )
    }
}

/// The messages that the listener takes in over a sequence of events, in
/// order of arrival.
pub open spec fn messages_of(s: ListenerView, events: Seq<EventView>) -> Seq<MessageView>
    decreases events.len(),
{
    if events.len() == 0 {
        Seq::empty()
    } else {
        let earlier = messages_of(s, events.drop_last());
        match observed(state_after(s, events.drop_last()), events.last()) {
            Some(message) => earlier.push(message),
            None => earlier,
        }
    }
}

/// The lines that a sequence of actions adds to the log, in order.
pub open spec fn lines_appended(actions: Seq<ActionView>) -> Seq<Seq<char>> {
    actions.filter_map(|action: ActionView| appended(action))
}

/// The log that a sequence of messages should leave: the lines of those
/// that have fields, in order.
pub open spec fn log_of(messages: Seq<MessageView>) -> Seq<Seq<char>> {
    messages.filter_map(|message: MessageView| line_of(message))
}

/// The bytes that the transport takes from the listener at a step: the
/// leading bytes of the pending request that an accepted write moved.
pub open spec fn accepted(s: ListenerView, event: EventView) -> Seq<u8> {
    match (s.stage, event) {
        (Stage::Attaching, EventView::Wrote(result)) | (
            Stage::RegisteringHook,
            EventView::Wrote(result),
        ) => {
            let pending = s.frame.skip(s.written as int);
            match write_outcome(pending.len(), result) {
                Ok(count) => pending.take(count as int),
                Err(_) => Seq::empty(),
            }
        },
        _ => Seq::empty(),
    }
}

/// The bytes that join the waiting ones at a step: those of a read that the
/// listener was waiting for.
pub open spec fn taken_in(s: ListenerView, event: EventView) -> Seq<u8> {
    match (s.stage, event) {
        (Stage::Reading, EventView::Received(Some(bytes))) => bytes,
        _ => Seq::empty(),
    }
}

/// The bytes that leave the waiting ones at a step: those of the frame that
/// the decoder completed.
pub open spec fn framed(s: ListenerView, event: EventView) -> Seq<u8> {
    match (s.stage, event) {
        (
            Stage::Decoding,
            EventView::Decoded(DecodeAttemptView::Complete { consumed, message }),
        ) => if frame_in_bounds(s, consumed) {
            s.held.take(consumed as int)
        } else {
            Seq::empty()
        },
        _ => Seq::empty(),
    }
}

/// All bytes that the transport took from the listener over a sequence of
/// events, in order.
pub open spec fn bytes_sent(s: ListenerView, events: Seq<EventView>) -> Seq<u8>
    decreases events.len(),
{
    if events.len() == 0 {
        Seq::empty()
    } else {
        bytes_sent(s, events.drop_last()) + accepted(
            state_after(s, events.drop_last()),
            events.last(),
        )
    }
}

/// All bytes that the listener took in over a sequence of events, in order.
pub open spec fn bytes_received(s: ListenerView, events: Seq<EventView>) -> Seq<u8>
    decreases events.len(),
{
    if events.len() == 0 {
        Seq::empty()
    } else {
        bytes_received(s, events.drop_last()) + taken_in(
            state_after(s, events.drop_last()),
            events.last(),
        )
    }
}

/// The bytes of all frames that the decoder completed over a sequence of
/// events, in order.
pub open spec fn bytes_framed(s: ListenerView, events: Seq<EventView>) -> Seq<u8>
    decreases events.len(),
{
    if events.len() == 0 {
        Seq::empty()
    } else {
        bytes_framed(s, events.drop_last()) + framed(
            state_after(s, events.drop_last()),
            events.last(),
        )
    }
}

/// The attach request of a fresh listener.
pub open spec fn first_frame() -> Seq<u8> {
    frame_encoding(REQUEST, 1, "ui_attach"@, attach_arguments())
}

/// The hook request of a fresh listener.
pub open spec fn second_frame(hook: Seq<char>) -> Seq<u8> {
    frame_encoding(REQUEST, 2, "vim_command"@, command_arguments(hook))
}

/// What holds of a listener that began fresh, and of the bytes it has sent
/// so far.
spec fn handshake_on_track(hook: Seq<char>, s: ListenerView, sent: Seq<u8>) -> bool {
    let first = first_frame();
    let second = second_frame(hook);
    &&& s.hook == hook
    &&& s.written <= s.frame.len()
    &&& match s.stage {
        Stage::Idle => s.issued == 0 && sent == Seq::<u8>::empty(),
        Stage::Attaching => s.issued == 1 && s.frame == first && sent == first.take(
            s.written as int,
        ),
        Stage::RegisteringHook => s.issued == 2 && s.frame == second && sent == first
            + second.take(s.written as int),
        Stage::Closed => sent.is_prefix_of(first + second),
        _ => sent == first + second,
    }
}

/// The test for the action that asks for the log to be opened.
pub open spec fn is_open_log() -> spec_fn(ActionView) -> bool {
    |action: ActionView| action == ActionView::OpenLog
}

/// How many times a sequence of actions asks for the log to be opened.
pub open spec fn log_openings(actions: Seq<ActionView>) -> nat {
    actions.filter(is_open_log()).len()
}

/// What holds of the log of a listener that began fresh.
spec fn log_on_track(s: ListenerView, actions: Seq<ActionView>) -> bool {
    match s.stage {
        Stage::Idle | Stage::Attaching | Stage::RegisteringHook => log_openings(actions) == 0
            && lines_appended(actions) == Seq::<Seq<char>>::empty(),
        Stage::Closed => log_openings(actions) <= 1 && (log_openings(actions) == 0
            ==> lines_appended(actions) == Seq::<Seq<char>>::empty()),
        _ => log_openings(actions) == 1,
    }
}

/// How far along its life a phase is.
pub open spec fn rank(phase: Phase) -> nat {
    match phase {
        Phase::Idle => 0,
        Phase::Attaching => 1,
        Phase::RegisteringHook => 2,
        Phase::Listening => 3,
        Phase::Closed => 4,
    }
}

/// A message with fields adds exactly one line to the end of the log, its
/// text and a newline; a message without fields adds nothing.
pub proof fn lemma_log_grows_by_one_line(messages: Seq<MessageView>, message: MessageView)
    ensures
        message.fields > 0 ==> log_of(messages.push(message)) == log_of(messages).push(
            message.text.push('\n'),
        ),
        message.fields == 0 ==> log_of(messages.push(message)) == log_of(messages),
{
    assert(messages.push(message).drop_last() =~= messages);
}

/// The log of two runs of messages, one after the other, is the log of the
/// first followed by the log of the second: lines keep the order of arrival.
pub proof fn lemma_log_keeps_order(earlier: Seq<MessageView>, later: Seq<MessageView>)
    ensures
        log_of(earlier + later) == log_of(earlier) + log_of(later),
    decreases later.len(),
{
    if later.len() == 0 {
        assert(earlier + later =~= earlier);
        assert(log_of(later) =~= Seq::empty());
    } else {
        lemma_log_keeps_order(earlier, later.drop_last());
        assert((earlier + later).drop_last() =~= earlier + later.drop_last());
        assert((earlier + later).last() == later.last());
    }
}

/// At every step the listener appends a line exactly when it takes in a
/// message that has fields, and the line is that message's.
pub proof fn lemma_step_logs_what_it_observes(s: ListenerView, event: EventView)
    ensures
        appended(step_spec(s, event).1) == match observed(s, event) {
            Some(message) => line_of(message),
            None => None,
        },
{
}

/// A message without fields never leads to an append, whatever state the
/// listener is in.
pub proof fn lemma_empty_message_is_not_logged(
    s: ListenerView,
    consumed: nat,
    message: MessageView,
)
    requires
        message.fields == 0,
    ensures
        appended(
            step_spec(
                s,
                EventView::Decoded(DecodeAttemptView::Complete { consumed, message }),
            ).1,
        ) is None,
{
}

/// Over any sequence of events, from any state, the lines that the listener
/// appends are the lines of the messages it took in: one line for each
/// message that has fields, none for the others, in order of arrival.
pub proof fn lemma_listener_logs_every_message_once(s: ListenerView, events: Seq<EventView>)
    ensures
        lines_appended(actions_of(s, events)) == log_of(messages_of(s, events)),
    decreases events.len(),
{
    if events.len() == 0 {
    } else {
        let rest = events.drop_last();
        let before = state_after(s, rest);
        let action = step_spec(before, events.last()).1;
        lemma_listener_logs_every_message_once(s, rest);
        lemma_step_logs_what_it_observes(before, events.last());
        assert(actions_of(s, rest).push(action).drop_last() =~= actions_of(s, rest));
        match observed(before, events.last()) {
            Some(message) => {
                assert(messages_of(s, rest).push(message).drop_last() =~= messages_of(s, rest));
            },
            None => {},
        }
    }
}

/// Whatever the writes accept, the editor is sent the attach request and
/// then the hook request, byte for byte and nothing else: at every moment
/// the bytes sent so far are a prefix of the two frames in that order, and
/// once the listener listens they are exactly the two frames.
pub proof fn lemma_handshake_arrives_in_order(hook: Seq<char>, events: Seq<EventView>)
    ensures
        bytes_sent(initial(hook), events).is_prefix_of(first_frame() + second_frame(hook)),
        phase_of(state_after(initial(hook), events).stage) == Phase::Listening ==> bytes_sent(
            initial(hook),
            events,
        ) == first_frame() + second_frame(hook),
{
    lemma_handshake_stays_on_track(hook, events);
}

proof fn lemma_handshake_stays_on_track(hook: Seq<char>, events: Seq<EventView>)
    ensures
        handshake_on_track(
            hook,
            state_after(initial(hook), events),
            bytes_sent(initial(hook), events),
        ),
        bytes_sent(initial(hook), events).is_prefix_of(first_frame() + second_frame(hook)),
    decreases events.len(),
{
    if events.len() == 0 {
        lemma_on_track_is_a_prefix(hook, initial(hook), Seq::empty());
    } else {
        let rest = events.drop_last();
        lemma_handshake_stays_on_track(hook, rest);
        lemma_handshake_step(
            hook,
            state_after(initial(hook), rest),
            bytes_sent(initial(hook), rest),
            events.last(),
        );
        lemma_on_track_is_a_prefix(
            hook,
            state_after(initial(hook), events),
            bytes_sent(initial(hook), events),
        );
    }
}

proof fn lemma_on_track_is_a_prefix(hook: Seq<char>, s: ListenerView, sent: Seq<u8>)
    requires
        handshake_on_track(hook, s, sent),
    ensures
        sent.is_prefix_of(first_frame() + second_frame(hook)),
{
}

proof fn lemma_handshake_step(hook: Seq<char>, s: ListenerView, sent: Seq<u8>, event: EventView)
    requires
        handshake_on_track(hook, s, sent),
    ensures
        handshake_on_track(hook, step_spec(s, event).0, sent + accepted(s, event)),
{
    let first = first_frame();
    let second = second_frame(hook);
    let now = sent + accepted(s, event);
    let pending = s.frame.skip(s.written as int);
    match (s.stage, event) {
        (Stage::Attaching, EventView::Wrote(result)) => {
            match write_outcome(pending.len(), result) {
                Ok(count) => {
                    assert(now =~= first.take((s.written + count) as int));
                    if s.written + count == first.len() {
                        assert(now =~= first);
                        assert(now =~= first + second.take(0));
                    }
                },
                Err(_) => {
                    assert(now =~= sent);
                },
            }
        },
        (Stage::RegisteringHook, EventView::Wrote(result)) => {
            match write_outcome(pending.len(), result) {
                Ok(count) => {
                    assert(now =~= first + second.take((s.written + count) as int));
                    if s.written + count == second.len() {
                        assert(now =~= first + second);
                    }
                },
                Err(_) => {
                    assert(now =~= sent);
                },
            }
        },
        (Stage::Idle, EventView::Start) => {
            assert(now =~= sent);
            assert(sent =~= first.take(0));
        },
        _ => {
            assert(now =~= sent);
        },
    }
}

/// Inbound bytes are neither lost nor doubled nor reordered on their way to
/// the decoder, wherever the reads cut the stream: what waited at first,
/// followed by all that was read, is all that left as frames, followed by
/// what waits now.
pub proof fn lemma_inbound_bytes_keep_their_order(s: ListenerView, events: Seq<EventView>)
    ensures
        s.held + bytes_received(s, events) == bytes_framed(s, events) + state_after(
            s,
            events,
        ).held,
    decreases events.len(),
{
    if events.len() == 0 {
        assert(s.held + Seq::<u8>::empty() =~= Seq::<u8>::empty() + s.held);
    } else {
        let rest = events.drop_last();
        let before = state_after(s, rest);
        lemma_inbound_bytes_keep_their_order(s, rest);
        let event = events.last();
        let after = step_spec(before, event).0;
        assert(before.held + taken_in(before, event) =~= framed(before, event) + after.held);
        assert(s.held + (bytes_received(s, rest) + taken_in(before, event)) =~= (s.held
            + bytes_received(s, rest)) + taken_in(before, event));
        assert((bytes_framed(s, rest) + before.held) + taken_in(before, event)
            =~= bytes_framed(s, rest) + (before.held + taken_in(before, event)));
        assert(bytes_framed(s, rest) + (framed(before, event) + after.held) =~= (bytes_framed(
            s,
            rest,
        ) + framed(before, event)) + after.held);
    }
}

/// The retries that the listener asks for come to an end: a write that
/// leaves the listener in the same phase has shortened what is left of the
/// request, and a completed frame has shortened what waits to be decoded.
pub proof fn lemma_retries_make_progress(s: ListenerView, event: EventView)
    requires
        s.written <= s.frame.len(),
    ensures
        ({
            let t = step_spec(s, event).0;
            &&& (s.stage == Stage::Attaching || s.stage == Stage::RegisteringHook) && t.stage
                == s.stage ==> t.frame == s.frame && s.written < t.written <= t.frame.len()
            &&& observed(s, event) is Some ==> t.held.len() < s.held.len()
        }),
{
}

/// The log is opened once in a listener's life, and before any line is
/// appended: over every history of a fresh listener there is at most one
/// request to open the log, and where a line has been appended there is
/// one.
pub proof fn lemma_log_is_opened_once_before_any_line(hook: Seq<char>, events: Seq<EventView>)
    ensures
        log_openings(actions_of(initial(hook), events)) <= 1,
        lines_appended(actions_of(initial(hook), events)).len() > 0 ==> log_openings(
            actions_of(initial(hook), events),
        ) == 1,
{
    lemma_log_stays_on_track(hook, events);
}

proof fn lemma_log_stays_on_track(hook: Seq<char>, events: Seq<EventView>)
    ensures
        log_on_track(state_after(initial(hook), events), actions_of(initial(hook), events)),
    decreases events.len(),
{
    if events.len() == 0 {
        assert(log_openings(Seq::<ActionView>::empty()) == 0) by {
            Seq::<ActionView>::empty().lemma_filter_len(is_open_log());
        }
    } else {
        let rest = events.drop_last();
        let before = state_after(initial(hook), rest);
        let earlier = actions_of(initial(hook), rest);
        let action = step_spec(before, events.last()).1;
        lemma_log_stays_on_track(hook, rest);
        earlier.lemma_filter_len_push(is_open_log(), action);
        assert(earlier.push(action).drop_last() =~= earlier);
    }
}

/// The step that closes a listener says so: its action is `Close` or
/// `Abort`, on which the caller releases the log; and no other step answers
/// with either, but that of a listener already closed.
pub proof fn lemma_closing_is_announced(s: ListenerView, event: EventView)
    ensures
        ({
            let (t, action) = step_spec(s, event);
            t.stage == Stage::Closed <==> action == ActionView::Close
                || action is Abort
        }),
{
}

/// A closed listener stays closed and unchanged, whatever it is told.
pub proof fn lemma_closed_is_terminal(s: ListenerView, events: Seq<EventView>)
    requires
        s.stage == Stage::Closed,
    ensures
        state_after(s, events) == s,
        lines_appended(actions_of(s, events)) == Seq::<Seq<char>>::empty(),
    decreases events.len(),
{
    if events.len() > 0 {
        lemma_closed_is_terminal(s, events.drop_last());
        let earlier = actions_of(s, events.drop_last());
        assert(earlier.push(ActionView::Close).drop_last() =~= earlier);
    }
}

/// A step never moves a listener back: the phase stays, moves on to the
/// next one, or becomes `Closed`.
pub proof fn lemma_phases_advance_in_order(s: ListenerView, event: EventView)
    ensures
        ({
            let before = phase_of(s.stage);
            let after = phase_of(step_spec(s, event).0.stage);
            after == before || rank(after) == rank(before) + 1 || after == Phase::Closed
        }),
{
}

/// Every request that the listener begins to write carries an identifier
/// that no earlier request of this listener carried: one more than the
/// largest used before.
pub proof fn lemma_each_request_takes_a_new_id(s: ListenerView, event: EventView)
    ensures
        ({
            let t = step_spec(s, event).0;
            &&& t.issued == s.issued || t.issued == s.issued + 1
            &&& t.stage == Stage::Attaching && s.stage == Stage::Idle ==> t.issued == s.issued + 1
                && t.frame == frame_encoding(
                REQUEST,
                t.issued as u32,
                "ui_attach"@,
                attach_arguments(),
            )
            &&& t.stage == Stage::RegisteringHook && s.stage == Stage::Attaching ==> t.issued
                == s.issued + 1 && t.frame == frame_encoding(
                REQUEST,
                t.issued as u32,
                "vim_command"@,
                command_arguments(s.hook),
            )
        }),
{
}

/// A fresh listener attaches under identifier 1.
pub proof fn lemma_fresh_listener_attaches_first(hook: Seq<char>)
    ensures
        step_spec(initial(hook), EventView::Start) == (
            ListenerView {
                stage: Stage::Attaching,
                issued: 1,
                frame: frame_encoding(REQUEST, 1, "ui_attach"@, attach_arguments()),
                ..initial(hook)
            },
            ActionView::Write(frame_encoding(REQUEST, 1, "ui_attach"@, attach_arguments())),
        ),
{
}

/// End-of-stream closes a reading listener without a line: the action is
/// `Close`, and nothing is appended.
pub proof fn lemma_end_of_stream_closes(s: ListenerView)
    requires
        s.stage == Stage::Reading,
    ensures
        step_spec(s, EventView::Received(None)) == (
            ListenerView { stage: Stage::Closed, ..s },
            ActionView::Close,
        ),
{
}

} // verus!
