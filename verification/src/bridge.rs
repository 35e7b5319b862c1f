//! Clipboard operations against a Java virtual machine.
//!
//! [`set_text`], [`get_text`] and [`clear`] each run one
//! [`Session`](crate::protocol::Session): they make the call that the session
//! names, hand it the answer, and go on until it ends. The calls go through
//! the `jni` crate; receiver, method, signature and arguments of each method
//! call are those of the call's entry in
//! [`invocation_of`](crate::invocation::invocation_of), and no other is
//! written down here. What the virtual machine answers is not known here, so
//! each function promises what holds of every answer: its result is one that
//! the session ends with.
//!
//! The caller brings the virtual machine and the application context, which
//! belong to the hosting application.

use jni::objects::{JObject, JString, JValue, JValueGen};
use jni::{AttachGuard, JavaVM};
use vstd::pervasive::unreached;
use vstd::prelude::*;

use crate::error::ClipboardError;
use crate::invocation::{
    an_invocation_suits_its_call, in_table, Invocation, Operand, Receiver, Returns,
};
use crate::laws::{a_reply_in_turn_fits, calls_find_their_objects, outcome_fits_the_intent};
use crate::protocol::{
    can_end_with, fitting, outcome_view, run, supplied, Call, Intent, Outcome, Progress, Reply,
    ReplyView, Session, SessionView, Slot,
};

verus! {

/// An argument of a Java method call.
enum Argument<'r, 'local> {
    /// A reference to an object.
    Object(&'r JObject<'local>),
    /// An `int`.
    Int(i32),
}

/// `JavaVM::attach_current_thread`: attaches the calling thread to the
/// virtual machine, or fails. The guard that it returns detaches the thread
/// again when it is dropped, unless the thread was attached before the call.
/// Nothing is claimed of the result.
#[verifier::external_body]
fn attach_current_thread<'vm>(vm: &'vm JavaVM) -> (attached: Result<
    AttachGuard<'vm>,
    jni::errors::Error,
>) {
    vm.attach_current_thread()
}

/// `JNIEnv::new_string`: makes a Java string of `text`, or fails. The string
/// comes back as a plain object reference. Nothing is claimed of the result.
#[verifier::external_body]
fn new_string<'local>(env: &mut AttachGuard<'local>, text: &str) -> (made: Result<
    JObject<'local>,
    jni::errors::Error,
>) {
    match env.new_string(text) {
        Ok(string) => Ok(JObject::from(string)),
        Err(error) => Err(error),
    }
}

/// `JNIEnv::call_method`: calls the method `name` with the type signature
/// `signature` on `target`, or fails. The signature is one of the table's:
/// the outside function panics on a signature that has a method type among
/// its argument types when as many arguments come with it, and no signature
/// of the table has one. Nothing is claimed of the result.
#[verifier::external_body]
fn call_method<'local>(
    env: &mut AttachGuard<'local>,
    target: &JObject<'_>,
    name: &str,
    signature: &str,
    arguments: &Vec<Argument<'_, '_>>,
) -> (returned: Result<JValueGen<JObject<'local>>, jni::errors::Error>)
    requires
        in_table(signature@),
{
    let values: Vec<JValue> = arguments.iter().map(
        |argument| match argument {
            Argument::Object(object) => JValueGen::Object(*object),
            Argument::Int(number) => JValueGen::Int(*number),
        },
    ).collect();
    env.call_method(target, name, signature, &values)
}

/// `JNIEnv::call_static_method`: calls the static method `name` with the type
/// signature `signature` of the class `class`, or fails. The signature is one
/// of the table's, for the reason given at `call_method`. Nothing is claimed
/// of the result.
#[verifier::external_body]
fn call_static_method<'local>(
    env: &mut AttachGuard<'local>,
    class: &str,
    name: &str,
    signature: &str,
    arguments: &Vec<Argument<'_, '_>>,
) -> (returned: Result<JValueGen<JObject<'local>>, jni::errors::Error>)
    requires
        in_table(signature@),
{
    let values: Vec<JValue> = arguments.iter().map(
        |argument| match argument {
            Argument::Object(object) => JValueGen::Object(*object),
            Argument::Int(number) => JValueGen::Int(*number),
        },
    ).collect();
    env.call_static_method(class, name, signature, &values)
}

/// `JValueGen::l`: the object reference that a returned value holds, or a
/// failure where it holds something else. Nothing is claimed of the result.
#[verifier::external_body]
fn object_of<'local>(value: JValueGen<JObject<'local>>) -> (object: Result<
    JObject<'local>,
    jni::errors::Error,
>) {
    value.l()
}

/// `JValueGen::z`: the `boolean` that a returned value holds, or a failure
/// where it holds something else. Nothing is claimed of the result.
#[verifier::external_body]
fn flag_of(value: JValueGen<JObject<'_>>) -> (flag: Result<bool, jni::errors::Error>) {
    value.z()
}

/// `JValueGen::i`: the `int` that a returned value holds, or a failure where
/// it holds something else. Nothing is claimed of the result.
#[verifier::external_body]
fn count_of(value: JValueGen<JObject<'_>>) -> (count: Result<i32, jni::errors::Error>) {
    value.i()
}

/// `JNIEnv::get_string`: reads the Java string that `chars` refers to, or
/// fails: on a null reference and on an object that is no `java.lang.String`.
/// What was read is converted to a `String`. Nothing is claimed of the
/// result.
#[verifier::external_body]
fn get_string(env: &mut AttachGuard<'_>, chars: &JObject<'_>) -> (read: Result<
    String,
    jni::errors::Error,
>) {
    match env.get_string(<&JString>::from(chars)) {
        Ok(string) => Ok(String::from(string)),
        Err(error) => Err(error),
    }
}

/// The objects that the calls of a session have returned so far.
struct Held<'local> {
    service_name: Option<JObject<'local>>,
    manager: Option<JObject<'local>>,
    label: Option<JObject<'local>>,
    text: Option<JObject<'local>>,
    clip: Option<JObject<'local>>,
    item: Option<JObject<'local>>,
    chars: Option<JObject<'local>>,
}

impl<'local> Held<'local> {
    /// What is kept as `slot`.
    spec fn at(&self, slot: Slot) -> Option<JObject<'local>> {
        match slot {
            Slot::ServiceName => self.service_name,
            Slot::Manager => self.manager,
            Slot::Label => self.label,
            Slot::Text => self.text,
            Slot::Clip => self.clip,
            Slot::Item => self.item,
            Slot::Chars => self.chars,
        }
    }

    /// Whether an object is kept as `slot`.
    spec fn holds(&self, slot: Slot) -> bool {
        self.at(slot) is Some
    }

    /// Nothing is kept yet.
    fn new() -> (held: Self)
        ensures
            forall|slot: Slot| held.at(slot) is None,
    {
        Held {
            service_name: None,
            manager: None,
            label: None,
            text: None,
            clip: None,
            item: None,
            chars: None,
        }
    }

    /// Keeps `object` as `slot`, in place of what was kept there.
    fn put(&mut self, slot: Slot, object: JObject<'local>)
        ensures
            final(self).at(slot) == Some(object),
            forall|other: Slot| other != slot ==> final(self).at(other) == old(self).at(other),
    {
        match slot {
            Slot::ServiceName => { self.service_name = Some(object); },
            Slot::Manager => { self.manager = Some(object); },
            Slot::Label => { self.label = Some(object); },
            Slot::Text => { self.text = Some(object); },
            Slot::Clip => { self.clip = Some(object); },
            Slot::Item => { self.item = Some(object); },
            Slot::Chars => { self.chars = Some(object); },
        }
    }

    /// The object kept as `slot`.
    fn get(&self, slot: Slot) -> (object: &JObject<'local>)
        requires
            self.holds(slot),
        ensures
            self.at(slot) == Some(*object),
    {
        match slot {
            Slot::ServiceName => self.service_name.as_ref().unwrap(),
            Slot::Manager => self.manager.as_ref().unwrap(),
            Slot::Label => self.label.as_ref().unwrap(),
            Slot::Text => self.text.as_ref().unwrap(),
            Slot::Clip => self.clip.as_ref().unwrap(),
            Slot::Item => self.item.as_ref().unwrap(),
            Slot::Chars => self.chars.as_ref().unwrap(),
        }
    }

    /// Whether `argument` is what `operand` stands for: the object kept in
    /// the operand's slot, or the operand's number.
    spec fn hands(&self, operand: Operand, argument: Argument<'_, 'local>) -> bool {
        match operand {
            Operand::Object(slot) => argument matches Argument::Object(object) && self.at(slot)
                == Some(*object),
            Operand::Int(number) => argument matches Argument::Int(handed) && handed == number,
        }
    }

    /// The arguments of a method call, in the order of `operands`.
    fn gather<'r>(&'r self, operands: &Vec<Operand>) -> (arguments: Vec<Argument<'r, 'local>>)
        requires
            forall|k: int|
                0 <= k < operands.len() ==> (#[trigger] operands[k] matches Operand::Object(slot)
                    ==> self.holds(slot)),
        ensures
            arguments.len() == operands.len(),
            forall|k: int|
                0 <= k < operands.len() ==> self.hands(operands[k], #[trigger] arguments[k]),
    {
        let mut arguments: Vec<Argument<'r, 'local>> = Vec::new();
        let mut at: usize = 0;
        while at < operands.len()
            invariant
                at <= operands.len(),
                arguments.len() == at,
                forall|k: int|
                    0 <= k < operands.len() ==> (#[trigger] operands[k] matches Operand::Object(
                        slot,
                    ) ==> self.holds(slot)),
                forall|k: int| 0 <= k < at ==> self.hands(operands[k], #[trigger] arguments[k]),
            decreases operands.len() - at,
        {
            let argument = match operands[at] {
                Operand::Object(slot) => Argument::Object(self.get(slot)),
                Operand::Int(number) => Argument::Int(number),
            };
            arguments.push(argument);
            at += 1;
        }
        arguments
    }
}

/// The reply to a call that returns nothing.
fn completed(returned: Result<JValueGen<JObject<'_>>, jni::errors::Error>) -> (reply: Reply)
    ensures
        reply@ == (match returned {
            Ok(_) => ReplyView::Completed,
            Err(cause) => ReplyView::Failed(cause),
        }),
{
    match returned {
        Ok(_) => Reply::Completed,
        Err(cause) => Reply::Failed(cause),
    }
}

/// The reply to a call that returns an object: the failure of a call that
/// failed, and else the object that the returned value holds, which is kept
/// as `slot`, or the failure to find one in it.
fn kept<'local>(
    held: &mut Held<'local>,
    slot: Slot,
    returned: Result<JValueGen<JObject<'local>>, jni::errors::Error>,
) -> (reply: Reply)
    ensures
        returned matches Err(cause) ==> reply@ == ReplyView::Failed(cause),
        returned is Ok ==> reply is Completed || reply is Failed,
        forall|other: Slot| other != slot ==> final(held).at(other) == old(held).at(other),
        reply is Completed ==> final(held).at(slot) is Some,
        reply is Failed ==> final(held).at(slot) == old(held).at(slot),
{
    match returned {
        Ok(value) => match object_of(value) {
            Ok(object) => {
                held.put(slot, object);
                Reply::Completed
            },
            Err(cause) => Reply::Failed(cause),
        },
        Err(cause) => Reply::Failed(cause),
    }
}

/// The reply to a call that returns a `boolean`: the failure of a call that
/// failed, and else the flag that the returned value holds or the failure to
/// find one in it.
fn flagged(returned: Result<JValueGen<JObject<'_>>, jni::errors::Error>) -> (reply: Reply)
    ensures
        returned matches Err(cause) ==> reply@ == ReplyView::Failed(cause),
        returned is Ok ==> reply is Flag || reply is Failed,
{
    match returned {
        Ok(value) => match flag_of(value) {
            Ok(flag) => Reply::Flag(flag),
            Err(cause) => Reply::Failed(cause),
        },
        Err(cause) => Reply::Failed(cause),
    }
}

/// The reply to a call that returns an `int`: the failure of a call that
/// failed, and else the number that the returned value holds or the failure
/// to find one in it.
fn counted(returned: Result<JValueGen<JObject<'_>>, jni::errors::Error>) -> (reply: Reply)
    ensures
        returned matches Err(cause) ==> reply@ == ReplyView::Failed(cause),
        returned is Ok ==> reply is Count || reply is Failed,
{
    match returned {
        Ok(value) => match count_of(value) {
            Ok(count) => Reply::Count(count),
            Err(cause) => Reply::Failed(cause),
        },
        Err(cause) => Reply::Failed(cause),
    }
}

/// Makes the method call `invocation` on an attached thread: on the receiver
/// and with the name, the signature and the arguments that it gives.
fn invoke<'local>(
    env: &mut AttachGuard<'local>,
    context: &JObject<'_>,
    held: &Held<'local>,
    invocation: &Invocation,
) -> (returned: Result<JValueGen<JObject<'local>>, jni::errors::Error>)
    requires
        in_table(invocation@.signature),
        invocation.receiver matches Receiver::Held(slot) ==> held.holds(slot),
        forall|k: int|
            0 <= k < invocation.arguments.len() ==> (#[trigger] invocation.arguments[k]
                matches Operand::Object(slot) ==> held.holds(slot)),
{
    let arguments = held.gather(&invocation.arguments);
    match invocation.receiver {
        Receiver::Context => call_method(
            env,
            context,
            invocation.name,
            invocation.signature,
            &arguments,
        ),
        Receiver::Held(slot) => call_method(
            env,
            held.get(slot),
            invocation.name,
            invocation.signature,
            &arguments,
        ),
        Receiver::Class(class) => call_static_method(
            env,
            class,
            invocation.name,
            invocation.signature,
            &arguments,
        ),
    }
}

/// Makes `call` on an attached thread and says what came back. A method call
/// is made as the call's entry in the table has it. An object that the call
/// returns is added to `held`, from where later calls take it.
fn perform<'local>(
    env: &mut AttachGuard<'local>,
    context: &JObject<'_>,
    held: &mut Held<'local>,
    call: Call<'_>,
) -> (reply: Reply)
    requires
        !(call@ is AttachThread),
        forall|slot: Slot| call@.needs(slot) ==> old(held).holds(slot),
    ensures
        call@.accepts(reply@),
        forall|slot: Slot|
            call@.yields() != Some(slot) ==> final(held).at(slot) == old(held).at(slot),
        reply is Failed ==> forall|slot: Slot| final(held).at(slot) == old(held).at(slot),
        !(reply is Failed) ==> forall|slot: Slot|
            call@.yields() == Some(slot) ==> final(held).holds(slot),
        forall|slot: Slot| old(held).holds(slot) ==> final(held).holds(slot),
{
    match call.invocation() {
        Some(invocation) => {
            proof {
                an_invocation_suits_its_call(call@);
                assert forall|k: int|
                    0 <= k < invocation.arguments.len() implies (
                    #[trigger] invocation.arguments[k] matches Operand::Object(slot)
                        ==> held.holds(slot)) by {
                    if invocation.arguments[k] is Object {
                        let slot = invocation.arguments[k]->Object_0;
                        assert(invocation@.arguments.contains(Operand::Object(slot)));
                        assert(call@.needs(slot));
                    }
                }
            }
            let returned = invoke(env, context, held, &invocation);
            match invocation.returns {
                Returns::Nothing => completed(returned),
                Returns::Object(slot) => kept(held, slot, returned),
                Returns::Flag => flagged(returned),
                Returns::Count => counted(returned),
            }
        },
        None => match call {
            Call::NewString { text, into } => match new_string(env, text) {
                Ok(string) => {
                    held.put(into, string);
                    Reply::Completed
                },
                Err(cause) => Reply::Failed(cause),
            },
            Call::GetString => match get_string(env, held.get(Slot::Chars)) {
                Ok(text) => Reply::Text(text),
                Err(cause) => Reply::Failed(cause),
            },
            _ => unreached(),
        },
    }
}

/// Runs `session` from its first call to its end.
fn conduct(vm: &JavaVM, context: &JObject<'_>, session: Session) -> (outcome: Outcome)
    requires
        session.wf(),
        session@.answered == 0,
    ensures
        can_end_with(session@, outcome_view(outcome)),
        outcome matches Ok(value) ==> (value is Some <==> session@.intent == Intent::Read),
        outcome matches Err(error) ==> (error is ContentNotAvailable ==> session@.intent
            == Intent::Read),
{
    let ghost begun = session@;
    let ghost mut replies = Seq::<ReplyView>::empty();
    match attach_current_thread(vm) {
        Err(cause) => {
            let reply = Reply::Failed(cause);
            proof {
                a_reply_in_turn_fits(begun, replies, reply@);
            }
            match session.advance(reply) {
                Progress::Finished(outcome) => outcome,
                Progress::Next(_) => unreached(),
            }
        },
        Ok(mut env) => {
            let mut held = Held::new();
            proof {
                a_reply_in_turn_fits(begun, replies, ReplyView::Completed);
                outcome_fits_the_intent(begun, ReplyView::Completed);
                replies = replies.push(ReplyView::Completed);
                reveal_with_fuel(supplied, 2);
            }
            let mut progress = session.advance(Reply::Completed);
            loop
                invariant
                    begun == session@,
                    begun.wf(),
                    fitting(begun, replies),
                    run(begun, replies) == progress@,
                    progress matches Progress::Next(current) ==> {
                        &&& current.wf()
                        &&& current@.intent == begun.intent
                        &&& current@.text == begun.text
                        &&& current@.answered >= 1
                        &&& forall|slot: Slot|
                            supplied(begun.script(), current@.answered, slot) ==> held.holds(slot)
                    },
                    progress matches Progress::Finished(Ok(value)) ==> (value is Some
                        <==> begun.intent == Intent::Read),
                    progress matches Progress::Finished(Err(error)) ==> (error
                        is ContentNotAvailable ==> begun.intent == Intent::Read),
                decreases
                    (match progress {
                        Progress::Next(current) => begun.script().len() - current@.answered,
                        Progress::Finished(_) => 0,
                    }),
            {
                match progress {
                    Progress::Finished(outcome) => {
                        return outcome;
                    },
                    Progress::Next(current) => {
                        let ghost before = current@;
                        proof {
                            assert forall|slot: Slot|
                                before.pending().needs(slot) implies held.holds(slot) by {
                                calls_find_their_objects(
                                    before.intent,
                                    before.text,
                                    before.answered,
                                    slot,
                                );
                            }
                        }
                        let reply = perform(&mut env, context, &mut held, current.pending());
                        proof {
                            a_reply_in_turn_fits(begun, replies, reply@);
                            outcome_fits_the_intent(before, reply@);
                            replies = replies.push(reply@);
                            reveal_with_fuel(supplied, 2);
                        }
                        progress = current.advance(reply);
                    },
                }
            }
        },
    }
}

/// Puts `text` into the clipboard.
///
/// Succeeds when every call across the bridge goes through, and fails with
/// the cause of the first one that does not.
pub fn set_text(vm: &JavaVM, context: &JObject<'_>, text: String) -> (outcome: Result<
    (),
    ClipboardError,
>)
    ensures
        can_end_with(
            SessionView::begin(Intent::Write, text@),
            match outcome {
                Ok(_) => Ok(None),
                Err(error) => Err(error),
            },
        ),
        outcome matches Err(error) ==> error is JniError,
{
    match conduct(vm, context, Session::write(text)) {
        Ok(_) => Ok(()),
        Err(error) => Err(error),
    }
}

/// Takes the text out of the clipboard: the text of the first item of the
/// primary clip.
///
/// Fails with [`ClipboardError::ContentNotAvailable`] when the clipboard has
/// no primary clip or the clip has no item, and with the cause of the first
/// call across the bridge that does not go through.
pub fn get_text(vm: &JavaVM, context: &JObject<'_>) -> (outcome: Result<String, ClipboardError>)
    ensures
        can_end_with(
            SessionView::begin(Intent::Read, Seq::empty()),
            match outcome {
                Ok(text) => Ok(Some(text@)),
                Err(error) => Err(error),
            },
        ),
{
    match conduct(vm, context, Session::read()) {
        Ok(Some(text)) => Ok(text),
        Ok(None) => unreached(),
        Err(error) => Err(error),
    }
}

/// Empties the clipboard.
///
/// Succeeds when every call across the bridge goes through, and fails with
/// the cause of the first one that does not.
pub fn clear(vm: &JavaVM, context: &JObject<'_>) -> (outcome: Result<(), ClipboardError>)
    ensures
        can_end_with(
            SessionView::begin(Intent::Clear, Seq::empty()),
            match outcome {
                Ok(_) => Ok(None),
                Err(error) => Err(error),
            },
        ),
        outcome matches Err(error) ==> error is JniError,
{
    match conduct(vm, context, Session::clear()) {
        Ok(_) => Ok(()),
        Err(error) => Err(error),
    }
}

} // verus!
