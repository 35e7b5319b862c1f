//! The order of the calls that a clipboard operation makes, and what each
//! answer means.
//!
//! A [`Session`] stands for one operation in progress. It names the call that
//! is to be made next ([`Session::pending`]) and, given the bridge's answer,
//! either moves on to the following call or ends with the operation's result
//! ([`Session::advance`]). It makes no call itself, so the same session runs
//! against a Java virtual machine or against a stand-in.
//!
//! The model is a fixed list of calls for each [`Intent`], [`script`], that a
//! session walks from its first entry and leaves early on a failed call, on a
//! clipboard without a clip and on a clip without an item; [`step`] is one move
//! along it and [`run`] is many.

use vstd::prelude::*;

use crate::error::ClipboardError;

verus! {

/// What the caller wants of the clipboard.
#[derive(Clone, Copy, PartialEq, Eq, Structural, Debug)]
pub enum Intent {
    /// Put a text into the clipboard.
    Write,
    /// Take the text out of the clipboard.
    Read,
    /// Empty the clipboard.
    Clear,
}

/// A Java object that one call of a session returns and a later one uses.
///
/// The objects stay with whoever makes the calls; the session names them.
#[derive(Clone, Copy, PartialEq, Eq, Structural, Debug)]
pub enum Slot {
    /// The Java string that names the clipboard service.
    ServiceName,
    /// The clipboard manager.
    Manager,
    /// The Java string that labels a new clip.
    Label,
    /// The Java string that a new clip carries.
    Text,
    /// A clip: the new one when writing, the primary one when reading.
    Clip,
    /// The first item of the primary clip.
    Item,
    /// The character sequence of that item.
    Chars,
}

/// One call across the bridge.
#[derive(Clone, Copy, PartialEq, Eq, Debug)]
pub enum Call<'s> {
    /// Attach the calling thread to the Java virtual machine.
    AttachThread,
    /// Make a Java string of `text` and keep it as `into`.
    NewString { text: &'s str, into: Slot },
    /// Ask the application context for the service named by
    /// [`Slot::ServiceName`]; the answer is the [`Slot::Manager`].
    GetSystemService,
    /// Build a plain-text clip of [`Slot::Label`] and [`Slot::Text`]; the
    /// answer is the [`Slot::Clip`].
    NewPlainText,
    /// Make the [`Slot::Clip`] the manager's primary clip.
    SetPrimaryClip,
    /// Ask the manager whether it has a primary clip.
    HasPrimaryClip,
    /// Fetch the manager's primary clip as the [`Slot::Clip`].
    GetPrimaryClip,
    /// Ask the clip how many items it holds.
    GetItemCount,
    /// Fetch the clip's item at `index` as the [`Slot::Item`].
    GetItemAt { index: i32 },
    /// Fetch the item's text as the [`Slot::Chars`].
    GetText,
    /// Read the [`Slot::Chars`] back as a string.
    GetString,
    /// Have the manager drop its primary clip.
    ClearPrimaryClip,
}

/// A [`Call`] with its text as a sequence of characters.
pub enum CallView {
    AttachThread,
    NewString { text: Seq<char>, into: Slot },
    GetSystemService,
    NewPlainText,
    SetPrimaryClip,
    HasPrimaryClip,
    GetPrimaryClip,
    GetItemCount,
    GetItemAt { index: i32 },
    GetText,
    GetString,
    ClearPrimaryClip,
}

impl<'s> View for Call<'s> {
    type V = CallView;

    open spec fn view(&self) -> CallView {
        match *self {
            Call::AttachThread => CallView::AttachThread,
            Call::NewString { text, into } => CallView::NewString { text: text@, into },
            Call::GetSystemService => CallView::GetSystemService,
            Call::NewPlainText => CallView::NewPlainText,
            Call::SetPrimaryClip => CallView::SetPrimaryClip,
            Call::HasPrimaryClip => CallView::HasPrimaryClip,
            Call::GetPrimaryClip => CallView::GetPrimaryClip,
            Call::GetItemCount => CallView::GetItemCount,
            Call::GetItemAt { index } => CallView::GetItemAt { index },
            Call::GetText => CallView::GetText,
            Call::GetString => CallView::GetString,
            Call::ClearPrimaryClip => CallView::ClearPrimaryClip,
        }
    }
}

/// What the bridge hands back for one call.
#[derive(Debug)]
pub enum Reply {
    /// The call went through; what it returned, if anything, is an object
    /// that stays with the bridge.
    Completed,
    /// The call went through and returned a `boolean`.
    Flag(bool),
    /// The call went through and returned an `int`.
    Count(i32),
    /// The call went through and returned a string.
    Text(String),
    /// The call failed, for the reason inside.
    Failed(jni::errors::Error),
}

/// A [`Reply`] with its text as a sequence of characters.
pub enum ReplyView {
    Completed,
    Flag(bool),
    Count(i32),
    Text(Seq<char>),
    Failed(jni::errors::Error),
}

impl View for Reply {
    type V = ReplyView;

    open spec fn view(&self) -> ReplyView {
        match *self {
            Reply::Completed => ReplyView::Completed,
            Reply::Flag(flag) => ReplyView::Flag(flag),
            Reply::Count(count) => ReplyView::Count(count),
            Reply::Text(text) => ReplyView::Text(text@),
            Reply::Failed(cause) => ReplyView::Failed(cause),
        }
    }
}

impl CallView {
    /// Whether the call works on the object kept as `slot`.
    pub open spec fn needs(self, slot: Slot) -> bool {
        match self {
            CallView::GetSystemService => slot == Slot::ServiceName,
            CallView::NewPlainText => slot == Slot::Label || slot == Slot::Text,
            CallView::SetPrimaryClip => slot == Slot::Manager || slot == Slot::Clip,
            CallView::HasPrimaryClip => slot == Slot::Manager,
            CallView::GetPrimaryClip => slot == Slot::Manager,
            CallView::GetItemCount => slot == Slot::Clip,
            CallView::GetItemAt { .. } => slot == Slot::Clip,
            CallView::GetText => slot == Slot::Item,
            CallView::GetString => slot == Slot::Chars,
            CallView::ClearPrimaryClip => slot == Slot::Manager,
            _ => false,
        }
    }

    /// The slot in which the object that the call returns is kept.
    pub open spec fn yields(self) -> Option<Slot> {
        match self {
            CallView::NewString { into, .. } => Some(into),
            CallView::GetSystemService => Some(Slot::Manager),
            CallView::NewPlainText => Some(Slot::Clip),
            CallView::GetPrimaryClip => Some(Slot::Clip),
            CallView::GetItemAt { .. } => Some(Slot::Item),
            CallView::GetText => Some(Slot::Chars),
            _ => None,
        }
    }

    /// Whether the call is made on the clipboard manager.
    pub open spec fn on_manager(self) -> bool {
        self.needs(Slot::Manager)
    }

    /// Whether `reply` is of the kind that the call is answered with: a
    /// failure, or the kind of value that the call returns.
    pub open spec fn accepts(self, reply: ReplyView) -> bool {
        match reply {
            ReplyView::Failed(_) => true,
            ReplyView::Flag(_) => self is HasPrimaryClip,
            ReplyView::Count(_) => self is GetItemCount,
            ReplyView::Text(_) => self is GetString,
            ReplyView::Completed => !(self is HasPrimaryClip || self is GetItemCount
                || self is GetString),
        }
    }

    /// Whether `reply` to this call ends the session for want of content: the
    /// manager has no primary clip, or the clip has no item.
    pub open spec fn finds_nothing(self, reply: ReplyView) -> bool {
        ||| self is HasPrimaryClip && reply == ReplyView::Flag(false)
        ||| self is GetItemCount && reply == ReplyView::Count(0)
    }
}

/// The three calls with which every operation begins: they lead to the
/// clipboard manager.
pub open spec fn lookup() -> Seq<CallView> {
    seq![
        CallView::AttachThread,
        CallView::NewString { text: "clipboard"@, into: Slot::ServiceName },
        CallView::GetSystemService,
    ]
}

/// The calls of an operation, in order, as they are made when none fails and
/// the clipboard holds a text. `text` is what a [`Intent::Write`] puts there.
pub open spec fn script(intent: Intent, text: Seq<char>) -> Seq<CallView> {
    match intent {
        Intent::Write => lookup() + seq![
            CallView::NewString { text: "label"@, into: Slot::Label },
            CallView::NewString { text: text, into: Slot::Text },
            CallView::NewPlainText,
            CallView::SetPrimaryClip,
        ],
        Intent::Read => lookup() + seq![
            CallView::HasPrimaryClip,
            CallView::GetPrimaryClip,
            CallView::GetItemCount,
            CallView::GetItemAt { index: 0 },
            CallView::GetText,
            CallView::GetString,
        ],
        Intent::Clear => lookup() + seq![CallView::ClearPrimaryClip],
    }
}

/// Whether one of the first `count` calls of `script` leaves an object in
/// `slot`.
pub open spec fn supplied(script: Seq<CallView>, count: nat, slot: Slot) -> bool
    decreases count,
{
    count > 0 && (script[count - 1].yields() == Some(slot) || supplied(
        script,
        (count - 1) as nat,
        slot,
    ))
}

/// A session as the model sees it: an operation and how many of its calls
/// have been answered.
pub struct SessionView {
    pub intent: Intent,
    pub text: Seq<char>,
    pub answered: nat,
}

impl SessionView {
    /// The session of `intent` before its first call.
    pub open spec fn begin(intent: Intent, text: Seq<char>) -> SessionView {
        SessionView { intent, text, answered: 0 }
    }

    /// The calls of this session's operation.
    pub open spec fn script(self) -> Seq<CallView> {
        script(self.intent, self.text)
    }

    /// A call is left to make.
    pub open spec fn wf(self) -> bool {
        self.answered < self.script().len()
    }

    /// The call that is to be made next.
    pub open spec fn pending(self) -> CallView
        recommends
            self.wf(),
    {
        self.script()[self.answered as int]
    }

    /// The session once its pending call has gone through.
    pub open spec fn after_pending(self) -> SessionView {
        SessionView { answered: self.answered + 1, ..self }
    }
}

/// An operation's result: the text that was read, where one was asked for.
pub type Outcome = Result<Option<String>, ClipboardError>;

/// An [`Outcome`] with its text as a sequence of characters.
pub type OutcomeView = Result<Option<Seq<char>>, ClipboardError>;

/// The view of an [`Outcome`].
pub open spec fn outcome_view(outcome: Outcome) -> OutcomeView {
    match outcome {
        Ok(Some(text)) => Ok(Some(text@)),
        Ok(None) => Ok(None),
        Err(error) => Err(error),
    }
}

/// Where a session stands after an answer.
pub enum ProgressView {
    Next(SessionView),
    Finished(OutcomeView),
}

/// One move of a session: what `reply` to the pending call leads to.
///
/// A failure ends the session with its cause. So do a manager without a
/// primary clip and a clip without an item, with
/// [`ClipboardError::ContentNotAvailable`]. Any other reply lets the session
/// go on to the call that follows, and after the last call it ends with
/// success: with the string that answered [`Call::GetString`], or with nothing.
pub open spec fn step(session: SessionView, reply: ReplyView) -> ProgressView
    recommends
        session.wf(),
{
    let call = session.pending();
    if reply is Failed {
        ProgressView::Finished(Err(ClipboardError::JniError(reply->Failed_0)))
    } else if call.finds_nothing(reply) {
        ProgressView::Finished(Err(ClipboardError::ContentNotAvailable))
    } else if session.answered + 1 < session.script().len() {
        ProgressView::Next(session.after_pending())
    } else if call is GetString && reply is Text {
        ProgressView::Finished(Ok(Some(reply->Text_0)))
    } else {
        ProgressView::Finished(Ok(None))
    }
}

/// Many moves: where `session` stands once the bridge has given `replies`,
/// one for each call in turn. Replies that come after the end are not looked
/// at.
pub open spec fn run(session: SessionView, replies: Seq<ReplyView>) -> ProgressView
    decreases replies.len(),
{
    if replies.len() == 0 {
        ProgressView::Next(session)
    } else {
        match step(session, replies.first()) {
            ProgressView::Next(next) => run(next, replies.drop_first()),
            ProgressView::Finished(outcome) => ProgressView::Finished(outcome),
        }
    }
}

/// The calls that `session` makes while the bridge gives `replies`, one for
/// each call in turn: the pending call, and after each reply that does not end
/// the session the call that follows.
pub open spec fn calls(session: SessionView, replies: Seq<ReplyView>) -> Seq<CallView>
    decreases replies.len(),
{
    if replies.len() == 0 {
        seq![session.pending()]
    } else {
        match step(session, replies.first()) {
            ProgressView::Next(next) => seq![session.pending()] + calls(
                next,
                replies.drop_first(),
            ),
            ProgressView::Finished(_) => seq![session.pending()],
        }
    }
}

/// Whether the bridge can have given `replies` to `session`: each was asked
/// for, the session not being over when it came, and each is of the kind that
/// the call it answers is answered with.
pub open spec fn fitting(session: SessionView, replies: Seq<ReplyView>) -> bool {
    forall|k: int|
        0 <= k < replies.len() ==> (#[trigger] run(session, replies.take(k))
            matches ProgressView::Next(current) && current.pending().accepts(replies[k]))
}

/// Whether `outcome` is what `session` ends with for some answers that the
/// bridge can have given.
pub open spec fn can_end_with(session: SessionView, outcome: OutcomeView) -> bool {
    exists|replies: Seq<ReplyView>|
        fitting(session, replies) && #[trigger] run(session, replies) == ProgressView::Finished(
            outcome,
        )
}

/// One clipboard operation in progress.
#[derive(Debug)]
pub struct Session {
    intent: Intent,
    text: String,
    answered: usize,
}

/// Where an operation stands after an answer.
#[derive(Debug)]
pub enum Progress {
    /// Another call is to be made.
    Next(Session),
    /// The operation is over, with this result.
    Finished(Outcome),
}

impl View for Progress {
    type V = ProgressView;

    open spec fn view(&self) -> ProgressView {
        match *self {
            Progress::Next(session) => ProgressView::Next(session@),
            Progress::Finished(outcome) => ProgressView::Finished(outcome_view(outcome)),
        }
    }
}

impl View for Session {
    type V = SessionView;

    closed spec fn view(&self) -> SessionView {
        SessionView { intent: self.intent, text: self.text@, answered: self.answered as nat }
    }
}

impl Session {
    /// A call is left to make. Every session that this module hands out is
    /// well formed.
    pub open spec fn wf(&self) -> bool {
        self@.wf()
    }

    /// Begins the operation that puts `text` into the clipboard.
    pub fn write(text: String) -> (session: Session)
        ensures
            session@ == SessionView::begin(Intent::Write, text@),
            session.wf(),
    {
        Session { intent: Intent::Write, text, answered: 0 }
    }

    /// Begins the operation that takes the text out of the clipboard.
    pub fn read() -> (session: Session)
        ensures
            session@ == SessionView::begin(Intent::Read, Seq::empty()),
            session.wf(),
    {
        Session { intent: Intent::Read, text: String::new(), answered: 0 }
    }

    /// Begins the operation that empties the clipboard.
    pub fn clear() -> (session: Session)
        ensures
            session@ == SessionView::begin(Intent::Clear, Seq::empty()),
            session.wf(),
    {
        Session { intent: Intent::Clear, text: String::new(), answered: 0 }
    }

    /// What the session was begun for.
    pub fn intent(&self) -> (intent: Intent)
        ensures
            intent == self@.intent,
    {
        self.intent
    }

    /// How many calls the operation makes when none ends it early.
    fn length(&self) -> (length: usize)
        ensures
            length == self@.script().len(),
    {
        match self.intent {
            Intent::Write => 7,
            Intent::Read => 9,
            Intent::Clear => 4,
        }
    }

    /// The call that is to be made next.
    pub fn pending(&self) -> (call: Call<'_>)
        requires
            self.wf(),
        ensures
            call@ == self@.pending(),
    {
        let at: usize = self.answered;
        if at == 0 {
            Call::AttachThread
        } else if at == 1 {
            Call::NewString { text: "clipboard", into: Slot::ServiceName }
        } else if at == 2 {
            Call::GetSystemService
        } else {
            match self.intent {
                Intent::Write => {
                    if at == 3 {
                        Call::NewString { text: "label", into: Slot::Label }
                    } else if at == 4 {
                        Call::NewString { text: self.text.as_str(), into: Slot::Text }
                    } else if at == 5 {
                        Call::NewPlainText
                    } else {
                        Call::SetPrimaryClip
                    }
                },
                Intent::Read => {
                    if at == 3 {
                        Call::HasPrimaryClip
                    } else if at == 4 {
                        Call::GetPrimaryClip
                    } else if at == 5 {
                        Call::GetItemCount
                    } else if at == 6 {
                        Call::GetItemAt { index: 0 }
                    } else if at == 7 {
                        Call::GetText
                    } else {
                        Call::GetString
                    }
                },
                Intent::Clear => Call::ClearPrimaryClip,
            }
        }
    }

    /// Takes the bridge's answer to the pending call and says how the
    /// operation goes on.
    pub fn advance(self, reply: Reply) -> (progress: Progress)
        requires
            self.wf(),
        ensures
            progress@ == step(self@, reply@),
            progress matches Progress::Next(next) ==> next.wf(),
    {
        let length = self.length();
        let reading_back = matches!(self.pending(), Call::GetString);
        let asking_for_clip = matches!(self.pending(), Call::HasPrimaryClip);
        let counting_items = matches!(self.pending(), Call::GetItemCount);
        match reply {
            Reply::Failed(cause) => Progress::Finished(Err(ClipboardError::JniError(cause))),
            Reply::Flag(false) if asking_for_clip => Progress::Finished(
                Err(ClipboardError::ContentNotAvailable),
            ),
            Reply::Count(0) if counting_items => Progress::Finished(
                Err(ClipboardError::ContentNotAvailable),
            ),
            reply => {
                if self.answered + 1 < length {
                    Progress::Next(
                        Session {
                            intent: self.intent,
                            text: self.text,
                            answered: self.answered + 1,
                        },
                    )
                } else {
                    match reply {
                        Reply::Text(text) if reading_back => Progress::Finished(Ok(Some(text))),
                        _ => Progress::Finished(Ok(None)),
                    }
                }
            },
        }
    }
}

} // verus!
