//! A clipboard manager that does what its calls ask, and what the
//! operations come to against it.
//!
//! [`Clipboard`] is the platform's side of the bridge reduced to what the
//! calls of a session read and change: the primary clip and the objects that
//! the calls pass on. It never fails. [`play`] runs a session against it, and
//! the laws below say what reading, writing and clearing then amount to.

use vstd::prelude::*;

use crate::error::ClipboardError;
use crate::protocol::{
    step, CallView, Intent, OutcomeView, ProgressView, ReplyView, SessionView, Slot,
};

verus! {

/// The state of a clipboard manager and of the objects handed out by it.
pub struct Clipboard {
    /// The items of the primary clip, where there is one.
    pub primary: Option<Seq<Seq<char>>>,
    /// The Java string kept as [`Slot::Text`].
    pub text: Seq<char>,
    /// The items of the clip kept as [`Slot::Clip`].
    pub clip: Seq<Seq<char>>,
    /// The text of the item kept as [`Slot::Item`].
    pub item: Seq<char>,
    /// The characters kept as [`Slot::Chars`].
    pub chars: Seq<char>,
}

impl Clipboard {
    /// The clipboard after `call`.
    pub open spec fn after(self, call: CallView) -> Clipboard {
        match call {
            CallView::NewString { text, into } => if into == Slot::Text {
                Clipboard { text, ..self }
            } else {
                self
            },
            CallView::NewPlainText => Clipboard { clip: seq![self.text], ..self },
            CallView::SetPrimaryClip => Clipboard { primary: Some(self.clip), ..self },
            CallView::GetPrimaryClip => if self.primary is Some {
                Clipboard { clip: self.primary->Some_0, ..self }
            } else {
                self
            },
            CallView::GetItemAt { index } => Clipboard { item: self.clip[index as int], ..self },
            CallView::GetText => Clipboard { chars: self.item, ..self },
            CallView::ClearPrimaryClip => Clipboard { primary: None, ..self },
            _ => self,
        }
    }

    /// What the clipboard answers to `call`.
    pub open spec fn answer(self, call: CallView) -> ReplyView {
        match call {
            CallView::HasPrimaryClip => ReplyView::Flag(self.primary is Some),
            CallView::GetItemCount => ReplyView::Count(self.clip.len() as i32),
            CallView::GetString => ReplyView::Text(self.chars),
            _ => ReplyView::Completed,
        }
    }
}

/// Runs `session` against `clipboard` to its end: what the operation returns,
/// and the clipboard that it leaves.
pub open spec fn play(session: SessionView, clipboard: Clipboard) -> (OutcomeView, Clipboard)
    decreases session.script().len() - session.answered,
{
    let call = session.pending();
    match step(session, clipboard.answer(call)) {
        ProgressView::Next(next) => play(next, clipboard.after(call)),
        ProgressView::Finished(outcome) => (outcome, clipboard.after(call)),
    }
}

/// Writing succeeds and leaves a primary clip of one item, the text.
pub proof fn writing_sets_the_primary_clip(text: Seq<char>, clipboard: Clipboard)
    ensures
        play(SessionView::begin(Intent::Write, text), clipboard).0 == Ok::<
            Option<Seq<char>>,
            ClipboardError,
        >(None),
        play(SessionView::begin(Intent::Write, text), clipboard).1.primary == Some(seq![text]),
{
    reveal_with_fuel(play, 8);
}

/// Reading returns the text of the first item of the primary clip, however
/// many items follow it, and leaves the primary clip as it was. Without a
/// primary clip, and with one that holds no item, it ends with
/// [`ClipboardError::ContentNotAvailable`].
pub proof fn reading_returns_the_first_item_of_the_primary_clip(
    text: Seq<char>,
    clipboard: Clipboard,
)
    requires
        clipboard.primary matches Some(items) ==> items.len() <= i32::MAX,
    ensures
        play(SessionView::begin(Intent::Read, text), clipboard).0 == (match clipboard.primary {
            Some(items) => if items.len() > 0 {
                Ok(Some(items[0]))
            } else {
                Err(ClipboardError::ContentNotAvailable)
            },
            None => Err(ClipboardError::ContentNotAvailable),
        }),
        play(SessionView::begin(Intent::Read, text), clipboard).1.primary == clipboard.primary,
{
    reveal_with_fuel(play, 10);
}

/// A text that was written is the text that is read next, whatever the
/// clipboard held before.
pub proof fn a_written_text_is_read_back(text: Seq<char>, clipboard: Clipboard)
    ensures
        play(
            SessionView::begin(Intent::Read, Seq::empty()),
            play(SessionView::begin(Intent::Write, text), clipboard).1,
        ).0 == Ok::<Option<Seq<char>>, ClipboardError>(Some(text)),
{
    let written = play(SessionView::begin(Intent::Write, text), clipboard).1;
    writing_sets_the_primary_clip(text, clipboard);
    reading_returns_the_first_item_of_the_primary_clip(Seq::empty(), written);
}

/// Clearing succeeds and leaves no primary clip, so that reading next finds
/// no content.
pub proof fn clearing_leaves_no_primary_clip(text: Seq<char>, clipboard: Clipboard)
    ensures
        play(SessionView::begin(Intent::Clear, text), clipboard).0 == Ok::<
            Option<Seq<char>>,
            ClipboardError,
        >(None),
        play(SessionView::begin(Intent::Clear, text), clipboard).1.primary.is_none(),
        play(
            SessionView::begin(Intent::Read, Seq::empty()),
            play(SessionView::begin(Intent::Clear, text), clipboard).1,
        ).0 == Err::<Option<Seq<char>>, ClipboardError>(ClipboardError::ContentNotAvailable),
{
    reveal_with_fuel(play, 5);
    let cleared = play(SessionView::begin(Intent::Clear, text), clipboard).1;
    reading_returns_the_first_item_of_the_primary_clip(Seq::empty(), cleared);
}

} // verus!
