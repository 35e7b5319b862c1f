//! What holds of every session, whatever the bridge answers.

use vstd::prelude::*;

use crate::error::ClipboardError;
use crate::protocol::{
    calls, fitting, run, script, step, supplied, CallView, Intent, ProgressView, ReplyView,
    SessionView, Slot,
};

verus! {

/// A failed call ends the operation at once: the result is the failure with
/// its cause, and whatever the bridge would have answered afterwards, no
/// further call is made.
pub proof fn failure_ends_the_session(
    session: SessionView,
    cause: jni::errors::Error,
    later: Seq<ReplyView>,
)
    requires
        session.wf(),
    ensures
        step(session, ReplyView::Failed(cause)) == ProgressView::Finished(
            Err(ClipboardError::JniError(cause)),
        ),
        run(session, seq![ReplyView::Failed(cause)] + later) == ProgressView::Finished(
            Err(ClipboardError::JniError(cause)),
        ),
        calls(session, seq![ReplyView::Failed(cause)] + later) == seq![session.pending()],
{
    let replies = seq![ReplyView::Failed(cause)] + later;
    assert(replies.first() == ReplyView::Failed(cause));
}

/// When the manager says that it has no primary clip, reading ends with
/// [`ClipboardError::ContentNotAvailable`], and whatever the bridge would have
/// answered afterwards, the question was the last call: the clip is not
/// fetched.
pub proof fn reading_stops_without_a_clip(session: SessionView, later: Seq<ReplyView>)
    requires
        session.wf(),
        session.pending() is HasPrimaryClip,
    ensures
        step(session, ReplyView::Flag(false)) == ProgressView::Finished(
            Err(ClipboardError::ContentNotAvailable),
        ),
        run(session, seq![ReplyView::Flag(false)] + later) == ProgressView::Finished(
            Err(ClipboardError::ContentNotAvailable),
        ),
        calls(session, seq![ReplyView::Flag(false)] + later) == seq![CallView::HasPrimaryClip],
{
    let replies = seq![ReplyView::Flag(false)] + later;
    assert(replies.first() == ReplyView::Flag(false));
}

/// When the clip says that it holds no item, reading ends with
/// [`ClipboardError::ContentNotAvailable`], and no item is fetched.
pub proof fn reading_stops_at_an_empty_clip(session: SessionView, later: Seq<ReplyView>)
    requires
        session.wf(),
        session.pending() is GetItemCount,
    ensures
        step(session, ReplyView::Count(0)) == ProgressView::Finished(
            Err(ClipboardError::ContentNotAvailable),
        ),
        run(session, seq![ReplyView::Count(0)] + later) == ProgressView::Finished(
            Err(ClipboardError::ContentNotAvailable),
        ),
        calls(session, seq![ReplyView::Count(0)] + later) == seq![CallView::GetItemCount],
{
    let replies = seq![ReplyView::Count(0)] + later;
    assert(replies.first() == ReplyView::Count(0));
}

/// The calls of a session are a stretch of its script that begins at the
/// pending call: none is left out, none is made twice, and none is made out
/// of turn.
pub proof fn calls_follow_the_script(session: SessionView, replies: Seq<ReplyView>)
    requires
        session.wf(),
    ensures
        1 <= calls(session, replies).len() <= replies.len() + 1,
        session.answered + calls(session, replies).len() <= session.script().len(),
        calls(session, replies) == session.script().subrange(
            session.answered as int,
            session.answered as int + calls(session, replies).len(),
        ),
    decreases replies.len(),
{
    let script = session.script();
    let at = session.answered as int;
    if replies.len() == 0 {
        assert(calls(session, replies) == script.subrange(at, at + 1));
    } else {
        match step(session, replies.first()) {
            ProgressView::Next(next) => {
                let rest = calls(next, replies.drop_first());
                calls_follow_the_script(next, replies.drop_first());
                assert(next.script() == script);
                assert(calls(session, replies) == seq![session.pending()] + rest);
                assert(calls(session, replies) == script.subrange(at, at + 1 + rest.len()));
            },
            ProgressView::Finished(_) => {
                assert(calls(session, replies) == script.subrange(at, at + 1));
            },
        }
    }
}

/// What an operation ends with fits what it was begun for, as long as each
/// reply is of the kind that its call is answered with: only reading ends
/// with a text, and it never succeeds without one; only reading ends with
/// [`ClipboardError::ContentNotAvailable`].
pub proof fn outcome_fits_the_intent(session: SessionView, reply: ReplyView)
    requires
        session.wf(),
        session.pending().accepts(reply),
    ensures
        step(session, reply) matches ProgressView::Finished(Ok(value)) ==> (value is Some
            <==> session.intent == Intent::Read),
        step(session, reply) matches ProgressView::Finished(Err(error)) ==> (error
            is ContentNotAvailable ==> session.intent == Intent::Read),
{
}

/// When the clip holds an item, reading fetches the item at index 0, that
/// item's text and its characters, and ends with exactly the string that the
/// bridge read back, however many items the clip counted.
pub proof fn reading_returns_the_first_item(
    session: SessionView,
    count: i32,
    text: Seq<char>,
    later: Seq<ReplyView>,
)
    requires
        session.wf(),
        session.intent == Intent::Read,
        session.pending() is GetItemCount,
        count != 0,
    ensures
        run(
            session,
            seq![
                ReplyView::Count(count),
                ReplyView::Completed,
                ReplyView::Completed,
                ReplyView::Text(text),
            ] + later,
        ) == ProgressView::Finished(Ok(Some(text))),
        calls(
            session,
            seq![
                ReplyView::Count(count),
                ReplyView::Completed,
                ReplyView::Completed,
                ReplyView::Text(text),
            ] + later,
        ) == seq![
            CallView::GetItemCount,
            CallView::GetItemAt { index: 0 },
            CallView::GetText,
            CallView::GetString,
        ],
{
    let replies = seq![
        ReplyView::Count(count),
        ReplyView::Completed,
        ReplyView::Completed,
        ReplyView::Text(text),
    ] + later;
    assert(session.answered == 5);
    let first = session.after_pending();
    let second = first.after_pending();
    let third = second.after_pending();
    let one = replies.drop_first();
    let two = one.drop_first();
    let three = two.drop_first();
    assert(replies.first() == ReplyView::Count(count));
    assert(one.first() == ReplyView::Completed);
    assert(two.first() == ReplyView::Completed);
    assert(three.first() == ReplyView::Text(text));
    assert(step(session, replies.first()) == ProgressView::Next(first));
    assert(step(first, one.first()) == ProgressView::Next(second));
    assert(step(second, two.first()) == ProgressView::Next(third));
    assert(step(third, three.first()) == ProgressView::Finished(Ok(Some(text))));
    assert(run(third, three) == ProgressView::Finished(Ok(Some(text))));
    assert(run(second, two) == run(third, three));
    assert(run(first, one) == run(second, two));
    assert(calls(third, three) == seq![CallView::GetString]);
    assert(calls(second, two) == seq![CallView::GetText] + calls(third, three));
    assert(calls(first, one) == seq![CallView::GetItemAt { index: 0 }] + calls(second, two));
    assert(calls(session, replies) == seq![CallView::GetItemCount] + calls(first, one));
}

/// Clearing never makes more than one call on the clipboard manager,
/// whatever the bridge answers.
pub proof fn clearing_calls_the_manager_at_most_once(text: Seq<char>, replies: Seq<ReplyView>)
    ensures
        ({
            let made = calls(SessionView::begin(Intent::Clear, text), replies);
            forall|i: int, j: int|
                #![trigger made[i], made[j]]
                0 <= i < made.len() && 0 <= j < made.len() && made[i].on_manager()
                    && made[j].on_manager() ==> i == j
        }),
{
    calls_follow_the_script(SessionView::begin(Intent::Clear, text), replies);
}

/// When the calls that lead to the manager have gone through, clearing makes
/// its one call on the manager, the last of its script, and succeeds unless
/// that call fails.
pub proof fn clearing_succeeds_unless_its_call_fails(
    text: Seq<char>,
    answer: ReplyView,
    later: Seq<ReplyView>,
)
    ensures
        ({
            let session = SessionView::begin(Intent::Clear, text);
            let replies = seq![
                ReplyView::Completed,
                ReplyView::Completed,
                ReplyView::Completed,
                answer,
            ] + later;
            &&& calls(session, replies) == script(Intent::Clear, text)
            &&& run(session, replies) == (if answer is Failed {
                ProgressView::Finished(Err(ClipboardError::JniError(answer->Failed_0)))
            } else {
                ProgressView::Finished(Ok(None))
            })
        }),
        script(Intent::Clear, text).len() == 4,
        forall|i: int|
            0 <= i < 4 ==> (#[trigger] script(Intent::Clear, text)[i].on_manager() <==> i == 3),
{
    let session = SessionView::begin(Intent::Clear, text);
    let full = seq![ReplyView::Completed, ReplyView::Completed, ReplyView::Completed, answer]
        + later;
    let first = session.after_pending();
    let second = first.after_pending();
    let third = second.after_pending();
    let one = full.drop_first();
    let two = one.drop_first();
    let three = two.drop_first();
    assert(full.first() == ReplyView::Completed);
    assert(one.first() == ReplyView::Completed);
    assert(two.first() == ReplyView::Completed);
    assert(three.first() == answer);
    assert(step(session, full.first()) == ProgressView::Next(first));
    assert(step(first, one.first()) == ProgressView::Next(second));
    assert(step(second, two.first()) == ProgressView::Next(third));
    assert(step(third, answer) is Finished);
    assert(run(second, two) == run(third, three));
    assert(run(first, one) == run(second, two));
    assert(calls(third, three) == seq![CallView::ClearPrimaryClip]);
    assert(calls(second, two) == seq![second.pending()] + calls(third, three));
    assert(calls(first, one) == seq![first.pending()] + calls(second, two));
    assert(calls(session, full) == seq![session.pending()] + calls(first, one));
    assert(calls(session, full) == script(Intent::Clear, text));
}

/// Every call of a script works only on objects that earlier calls of the
/// same script have returned.
pub proof fn calls_find_their_objects(intent: Intent, text: Seq<char>, at: nat, slot: Slot)
    requires
        at < script(intent, text).len(),
        script(intent, text)[at as int].needs(slot),
    ensures
        supplied(script(intent, text), at, slot),
{
    reveal_with_fuel(supplied, 10);
}

/// Answers can be given one at a time: where a session stands after one more
/// reply is one move on from where it stood before, and an operation that is
/// over stays over.
pub proof fn answers_come_in_turn(session: SessionView, replies: Seq<ReplyView>, reply: ReplyView)
    requires
        session.wf(),
    ensures
        run(session, replies.push(reply)) == (match run(session, replies) {
            ProgressView::Next(current) => step(current, reply),
            ProgressView::Finished(outcome) => ProgressView::Finished(outcome),
        }),
    decreases replies.len(),
{
    let longer = replies.push(reply);
    if replies.len() == 0 {
        assert(longer.first() == reply);
        assert(longer.drop_first().len() == 0);
        assert(step(session, reply) matches ProgressView::Next(next) ==> run(
            next,
            longer.drop_first(),
        ) == ProgressView::Next(next));
    } else {
        assert(longer.first() == replies.first());
        assert(longer.drop_first() == replies.drop_first().push(reply));
        match step(session, replies.first()) {
            ProgressView::Next(next) => {
                answers_come_in_turn(next, replies.drop_first(), reply);
            },
            ProgressView::Finished(_) => {},
        }
    }
}

/// A reply of the right kind to the pending call of a session that is not
/// over is one that the bridge can have given, and it moves the session on by
/// one step.
pub proof fn a_reply_in_turn_fits(session: SessionView, replies: Seq<ReplyView>, reply: ReplyView)
    requires
        session.wf(),
        fitting(session, replies),
        run(session, replies) matches ProgressView::Next(current) && current.pending().accepts(
            reply,
        ),
    ensures
        fitting(session, replies.push(reply)),
        run(session, replies.push(reply)) == step(run(session, replies)->Next_0, reply),
{
    let longer = replies.push(reply);
    answers_come_in_turn(session, replies, reply);
    assert forall|k: int| 0 <= k < longer.len() implies (#[trigger] run(session, longer.take(k))
        matches ProgressView::Next(current) && current.pending().accepts(longer[k])) by {
        if k < replies.len() {
            assert(longer.take(k) == replies.take(k));
        } else {
            assert(longer.take(k) == replies);
        }
    }
}

} // verus!
