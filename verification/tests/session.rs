//! Sessions run against a stand-in for the platform's clipboard manager.

use android_clipboard::protocol::{Call, Intent, Outcome, Progress, Reply, Session, Slot};
use android_clipboard::ClipboardError;

/// A clipboard manager in memory. It keeps the clip that was set last, counts
/// the calls it gets and can be told to fail one of them.
struct Stand {
    /// The items of the primary clip, if there is one.
    clip: Option<Vec<String>>,
    /// The strings that were made, by slot.
    strings: Vec<(Slot, String)>,
    /// The clip that `NewPlainText` built and that is not yet set.
    built: Option<Vec<String>>,
    /// The item that `GetItemAt` fetched.
    item: Option<String>,
    /// Every call so far, as `Debug` prints it.
    seen: Vec<String>,
    /// The number of the call that fails, counted from 0.
    failing: Option<usize>,
}

impl Stand {
    fn new(clip: Option<Vec<String>>) -> Stand {
        Stand {
            clip,
            strings: Vec::new(),
            built: None,
            item: None,
            seen: Vec::new(),
            failing: None,
        }
    }

    fn failing_at(clip: Option<Vec<String>>, call: usize) -> Stand {
        let mut stand = Stand::new(clip);
        stand.failing = Some(call);
        stand
    }

    fn string(&self, slot: Slot) -> String {
        let found = self.strings.iter().rev().find(|(kept, _)| *kept == slot);
        found.map(|(_, text)| text.clone()).unwrap_or_default()
    }

    fn answer(&mut self, call: &Call) -> Reply {
        let number = self.seen.len();
        self.seen.push(format!("{:?}", call));
        if self.failing == Some(number) {
            return Reply::Failed(jni::errors::Error::JavaException);
        }
        match call {
            Call::AttachThread => Reply::Completed,
            Call::NewString { text, into } => {
                self.strings.push((*into, text.to_string()));
                Reply::Completed
            }
            Call::GetSystemService => {
                assert_eq!(self.string(Slot::ServiceName), "clipboard");
                Reply::Completed
            }
            Call::NewPlainText => {
                self.built = Some(vec![self.string(Slot::Text)]);
                Reply::Completed
            }
            Call::SetPrimaryClip => {
                self.clip = self.built.take();
                Reply::Completed
            }
            Call::HasPrimaryClip => Reply::Flag(self.clip.is_some()),
            Call::GetPrimaryClip => Reply::Completed,
            Call::GetItemCount => {
                let items = self.clip.as_ref().map(|items| items.len()).unwrap_or(0);
                Reply::Count(items as i32)
            }
            Call::GetItemAt { index } => {
                let items = self.clip.clone().unwrap_or_default();
                self.item = items.get(*index as usize).cloned();
                Reply::Completed
            }
            Call::GetText => Reply::Completed,
            Call::GetString => match &self.item {
                Some(text) => Reply::Text(text.clone()),
                None => Reply::Failed(jni::errors::Error::NullPtr("get_string obj argument")),
            },
            Call::ClearPrimaryClip => {
                self.clip = None;
                Reply::Completed
            }
        }
    }
}

/// Runs `session` against `stand` until it ends.
fn drive(session: Session, stand: &mut Stand) -> Outcome {
    let mut session = session;
    loop {
        let reply = stand.answer(&session.pending());
        match session.advance(reply) {
            Progress::Next(next) => session = next,
            Progress::Finished(outcome) => return outcome,
        }
    }
}

fn items(texts: &[&str]) -> Option<Vec<String>> {
    Some(texts.iter().map(|text| text.to_string()).collect())
}

#[test]
fn reading_without_a_primary_clip_finds_no_content() {
    let mut stand = Stand::new(None);
    let outcome = drive(Session::read(), &mut stand);
    assert!(matches!(outcome, Err(ClipboardError::ContentNotAvailable)));
    assert_eq!(
        stand.seen,
        vec![
            "AttachThread".to_string(),
            "NewString { text: \"clipboard\", into: ServiceName }".to_string(),
            "GetSystemService".to_string(),
            "HasPrimaryClip".to_string(),
        ]
    );
}

#[test]
fn reading_a_clip_without_items_finds_no_content() {
    let mut stand = Stand::new(items(&[]));
    let outcome = drive(Session::read(), &mut stand);
    assert!(matches!(outcome, Err(ClipboardError::ContentNotAvailable)));
    assert_eq!(stand.seen.len(), 6);
    assert_eq!(stand.seen[4], "GetPrimaryClip");
    assert_eq!(stand.seen[5], "GetItemCount");
}

#[test]
fn reading_returns_the_text_of_the_first_item() {
    let mut stand = Stand::new(items(&["first", "second", "third"]));
    let outcome = drive(Session::read(), &mut stand);
    match outcome {
        Ok(Some(text)) => assert_eq!(text, "first"),
        other => panic!("unexpected outcome: {:?}", other),
    }
    assert_eq!(
        stand.seen,
        vec![
            "AttachThread".to_string(),
            "NewString { text: \"clipboard\", into: ServiceName }".to_string(),
            "GetSystemService".to_string(),
            "HasPrimaryClip".to_string(),
            "GetPrimaryClip".to_string(),
            "GetItemCount".to_string(),
            "GetItemAt { index: 0 }".to_string(),
            "GetText".to_string(),
            "GetString".to_string(),
        ]
    );
}

#[test]
fn reading_a_clip_of_one_item_returns_it() {
    let mut stand = Stand::new(items(&["only"]));
    let outcome = drive(Session::read(), &mut stand);
    assert!(matches!(outcome, Ok(Some(text)) if text == "only"));
}

#[test]
fn writing_makes_its_calls_in_order() {
    let mut stand = Stand::new(None);
    let outcome = drive(Session::write("hello".to_string()), &mut stand);
    assert!(matches!(outcome, Ok(None)));
    assert_eq!(
        stand.seen,
        vec![
            "AttachThread".to_string(),
            "NewString { text: \"clipboard\", into: ServiceName }".to_string(),
            "GetSystemService".to_string(),
            "NewString { text: \"label\", into: Label }".to_string(),
            "NewString { text: \"hello\", into: Text }".to_string(),
            "NewPlainText".to_string(),
            "SetPrimaryClip".to_string(),
        ]
    );
    assert_eq!(stand.clip, items(&["hello"]));
}

#[test]
fn text_that_was_set_is_read_back() {
    let mut stand = Stand::new(None);
    let written = drive(Session::write("hello".to_string()), &mut stand);
    assert!(matches!(written, Ok(None)));
    let read = drive(Session::read(), &mut stand);
    assert!(matches!(read, Ok(Some(text)) if text == "hello"));
}

#[test]
fn the_text_set_last_replaces_the_one_before() {
    let mut stand = Stand::new(items(&["old", "older"]));
    assert!(matches!(drive(Session::write("new".to_string()), &mut stand), Ok(None)));
    assert!(matches!(drive(Session::read(), &mut stand), Ok(Some(text)) if text == "new"));
}

#[test]
fn text_outside_ascii_and_empty_text_pass_unchanged() {
    for text in ["", "gr\u{fc}\u{df}e \u{1f4cb}", "line\nbreak\0nul"] {
        let mut stand = Stand::new(None);
        assert!(matches!(drive(Session::write(text.to_string()), &mut stand), Ok(None)));
        assert!(matches!(drive(Session::read(), &mut stand), Ok(Some(read)) if read == text));
    }
}

#[test]
fn clearing_makes_one_call_on_the_manager() {
    let mut stand = Stand::new(items(&["gone soon"]));
    let outcome = drive(Session::clear(), &mut stand);
    assert!(matches!(outcome, Ok(None)));
    assert_eq!(
        stand.seen,
        vec![
            "AttachThread".to_string(),
            "NewString { text: \"clipboard\", into: ServiceName }".to_string(),
            "GetSystemService".to_string(),
            "ClearPrimaryClip".to_string(),
        ]
    );
    assert_eq!(stand.clip, None);
}

#[test]
fn clearing_fails_when_its_call_on_the_manager_fails() {
    let mut stand = Stand::failing_at(items(&["stays"]), 3);
    let outcome = drive(Session::clear(), &mut stand);
    assert!(matches!(
        outcome,
        Err(ClipboardError::JniError(jni::errors::Error::JavaException))
    ));
    assert_eq!(stand.seen.len(), 4);
    assert_eq!(stand.clip, items(&["stays"]));
}

#[test]
fn reading_after_clearing_finds_no_content() {
    let mut stand = Stand::new(items(&["text"]));
    assert!(matches!(drive(Session::clear(), &mut stand), Ok(None)));
    assert!(matches!(
        drive(Session::read(), &mut stand),
        Err(ClipboardError::ContentNotAvailable)
    ));
}

#[test]
fn a_failed_call_is_the_last_call_of_a_write() {
    for failing in 0..7 {
        let mut stand = Stand::failing_at(None, failing);
        let outcome = drive(Session::write("text".to_string()), &mut stand);
        assert!(matches!(
            outcome,
            Err(ClipboardError::JniError(jni::errors::Error::JavaException))
        ));
        assert_eq!(stand.seen.len(), failing + 1);
        assert_eq!(stand.clip, None);
    }
}

#[test]
fn a_failed_call_is_the_last_call_of_a_read() {
    for failing in 0..9 {
        let mut stand = Stand::failing_at(items(&["text"]), failing);
        let outcome = drive(Session::read(), &mut stand);
        assert!(matches!(
            outcome,
            Err(ClipboardError::JniError(jni::errors::Error::JavaException))
        ));
        assert_eq!(stand.seen.len(), failing + 1);
    }
}

#[test]
fn a_failed_call_is_the_last_call_of_a_clear() {
    for failing in 0..4 {
        let mut stand = Stand::failing_at(items(&["text"]), failing);
        let outcome = drive(Session::clear(), &mut stand);
        assert!(matches!(
            outcome,
            Err(ClipboardError::JniError(jni::errors::Error::JavaException))
        ));
        assert_eq!(stand.seen.len(), failing + 1);
    }
}

#[test]
fn the_cause_of_a_failure_reaches_the_caller() {
    let session = Session::read();
    let cause = jni::errors::Error::MethodNotFound {
        name: "hasPrimaryClip".to_string(),
        sig: "()Z".to_string(),
    };
    match session.advance(Reply::Failed(cause)) {
        Progress::Finished(Err(ClipboardError::JniError(jni::errors::Error::MethodNotFound {
            name,
            sig,
        }))) => {
            assert_eq!(name, "hasPrimaryClip");
            assert_eq!(sig, "()Z");
        }
        other => panic!("unexpected progress: {:?}", other),
    }
}

#[test]
fn a_session_begins_with_attaching_the_thread() {
    assert_eq!(Session::write("text".to_string()).pending(), Call::AttachThread);
    assert_eq!(Session::read().pending(), Call::AttachThread);
    assert_eq!(Session::clear().pending(), Call::AttachThread);
}

#[test]
fn a_session_knows_what_it_was_begun_for() {
    assert_eq!(Session::write("text".to_string()).intent(), Intent::Write);
    assert_eq!(Session::read().intent(), Intent::Read);
    assert_eq!(Session::clear().intent(), Intent::Clear);
}

/// A read up to the call that counts the clip's items: the manager was found
/// and has a primary clip, which was fetched.
fn read_up_to_the_count() -> Session {
    let session = skip(Session::read(), 3);
    match session.advance(Reply::Flag(true)) {
        Progress::Next(next) => skip(next, 1),
        Progress::Finished(outcome) => panic!("ended early: {:?}", outcome),
    }
}

/// Answers the first `count` calls of `session` with `Completed`.
fn skip(session: Session, count: usize) -> Session {
    let mut session = session;
    for _ in 0..count {
        session = match session.advance(Reply::Completed) {
            Progress::Next(next) => next,
            Progress::Finished(outcome) => panic!("ended early: {:?}", outcome),
        };
    }
    session
}

#[test]
fn a_primary_clip_lets_the_read_go_on() {
    let session = skip(Session::read(), 3);
    assert_eq!(session.pending(), Call::HasPrimaryClip);
    match session.advance(Reply::Flag(true)) {
        Progress::Next(next) => assert_eq!(next.pending(), Call::GetPrimaryClip),
        other => panic!("unexpected progress: {:?}", other),
    }
}

#[test]
fn only_a_count_of_zero_ends_the_read() {
    for count in [1, 2, 1000, i32::MAX, -1, i32::MIN] {
        let session = read_up_to_the_count();
        assert_eq!(session.pending(), Call::GetItemCount);
        match session.advance(Reply::Count(count)) {
            Progress::Next(next) => assert_eq!(next.pending(), Call::GetItemAt { index: 0 }),
            other => panic!("unexpected progress: {:?}", other),
        }
    }
    let session = read_up_to_the_count();
    assert!(matches!(
        session.advance(Reply::Count(0)),
        Progress::Finished(Err(ClipboardError::ContentNotAvailable))
    ));
}

#[test]
fn a_flag_or_a_count_of_zero_means_nothing_to_other_calls() {
    let session = skip(Session::write("text".to_string()), 3);
    match session.advance(Reply::Flag(false)) {
        Progress::Next(next) => {
            assert_eq!(next.pending(), Call::NewString { text: "text", into: Slot::Text })
        }
        other => panic!("unexpected progress: {:?}", other),
    }
    let session = skip(Session::clear(), 2);
    match session.advance(Reply::Count(0)) {
        Progress::Next(next) => assert_eq!(next.pending(), Call::ClearPrimaryClip),
        other => panic!("unexpected progress: {:?}", other),
    }
}

#[test]
fn a_read_that_gets_no_string_back_ends_without_one() {
    let session = read_up_to_the_count();
    let session = match session.advance(Reply::Count(1)) {
        Progress::Next(next) => skip(next, 2),
        other => panic!("unexpected progress: {:?}", other),
    };
    assert_eq!(session.pending(), Call::GetString);
    assert!(matches!(session.advance(Reply::Completed), Progress::Finished(Ok(None))));
}

#[test]
fn a_string_in_answer_to_another_call_is_not_the_result() {
    let session = skip(Session::clear(), 3);
    assert_eq!(session.pending(), Call::ClearPrimaryClip);
    assert!(matches!(
        session.advance(Reply::Text("stray".to_string())),
        Progress::Finished(Ok(None))
    ));
}
