//! The Java method behind each call of a session.
//!
//! Most calls of a session are one method call on the Java side: on the
//! application context, on an object that an earlier call returned, or on a
//! class. [`invocation_of`] is the table of them: for each call the receiver,
//! the method's name and type signature, the arguments in order, and what is
//! taken from the value that comes back. [`Call::invocation`] hands out the
//! entry of a call, and the bridge makes its method calls from that entry
//! alone.

use vstd::prelude::*;

use crate::protocol::{Call, CallView, Slot};

verus! {

/// What a method is called on.
#[derive(Clone, Copy, PartialEq, Eq, Debug)]
pub enum Receiver {
    /// The application context.
    Context,
    /// The object kept in a slot.
    Held(Slot),
    /// A class, named as the Java Native Interface names it; the method is
    /// static.
    Class(&'static str),
}

/// A [`Receiver`] with the class name as a sequence of characters.
pub enum ReceiverView {
    Context,
    Held(Slot),
    Class(Seq<char>),
}

impl View for Receiver {
    type V = ReceiverView;

    open spec fn view(&self) -> ReceiverView {
        match *self {
            Receiver::Context => ReceiverView::Context,
            Receiver::Held(slot) => ReceiverView::Held(slot),
            Receiver::Class(name) => ReceiverView::Class(name@),
        }
    }
}

/// An argument of a method call.
#[derive(Clone, Copy, PartialEq, Eq, Structural, Debug)]
pub enum Operand {
    /// The object kept in a slot.
    Object(Slot),
    /// An `int`.
    Int(i32),
}

/// What is taken from the value that a method returns.
#[derive(Clone, Copy, PartialEq, Eq, Structural, Debug)]
pub enum Returns {
    /// Nothing: whatever comes back is dropped.
    Nothing,
    /// The object reference in it, which is kept in a slot.
    Object(Slot),
    /// The `boolean` in it.
    Flag,
    /// The `int` in it.
    Count,
}

/// One method call on the Java side.
#[derive(PartialEq, Eq, Debug)]
pub struct Invocation {
    /// What the method is called on.
    pub receiver: Receiver,
    /// The method's name.
    pub name: &'static str,
    /// The method's type signature, as the Java Native Interface writes it.
    pub signature: &'static str,
    /// The arguments, in the order of the signature.
    pub arguments: Vec<Operand>,
    /// What is taken from the returned value.
    pub returns: Returns,
}

/// An [`Invocation`] with its texts as sequences of characters.
pub struct InvocationView {
    pub receiver: ReceiverView,
    pub name: Seq<char>,
    pub signature: Seq<char>,
    pub arguments: Seq<Operand>,
    pub returns: Returns,
}

impl View for Invocation {
    type V = InvocationView;

    open spec fn view(&self) -> InvocationView {
        InvocationView {
            receiver: self.receiver@,
            name: self.name@,
            signature: self.signature@,
            arguments: self.arguments@,
            returns: self.returns,
        }
    }
}

/// The method call that `call` is, where it is one. Attaching the thread,
/// making a Java string and reading one back are no method calls.
pub open spec fn invocation_of(call: CallView) -> Option<InvocationView> {
    match call {
        CallView::GetSystemService => Some(
            InvocationView {
                receiver: ReceiverView::Context,
                name: "getSystemService"@,
                signature: "(Ljava/lang/String;)Ljava/lang/Object;"@,
                arguments: seq![Operand::Object(Slot::ServiceName)],
                returns: Returns::Object(Slot::Manager),
            },
        ),
        CallView::NewPlainText => Some(
            InvocationView {
                receiver: ReceiverView::Class("android/content/ClipData"@),
                name: "newPlainText"@,
                signature: "(Ljava/lang/CharSequence;Ljava/lang/CharSequence;)Landroid/content/ClipData;"@,
                arguments: seq![Operand::Object(Slot::Label), Operand::Object(Slot::Text)],
                returns: Returns::Object(Slot::Clip),
            },
        ),
        CallView::SetPrimaryClip => Some(
            InvocationView {
                receiver: ReceiverView::Held(Slot::Manager),
                name: "setPrimaryClip"@,
                signature: "(Landroid/content/ClipData;)V"@,
                arguments: seq![Operand::Object(Slot::Clip)],
                returns: Returns::Nothing,
            },
        ),
        CallView::HasPrimaryClip => Some(
            InvocationView {
                receiver: ReceiverView::Held(Slot::Manager),
                name: "hasPrimaryClip"@,
                signature: "()Z"@,
                arguments: seq![],
                returns: Returns::Flag,
            },
        ),
        CallView::GetPrimaryClip => Some(
            InvocationView {
                receiver: ReceiverView::Held(Slot::Manager),
                name: "getPrimaryClip"@,
                signature: "()Landroid/content/ClipData;"@,
                arguments: seq![],
                returns: Returns::Object(Slot::Clip),
            },
        ),
        CallView::GetItemCount => Some(
            InvocationView {
                receiver: ReceiverView::Held(Slot::Clip),
                name: "getItemCount"@,
                signature: "()I"@,
                arguments: seq![],
                returns: Returns::Count,
            },
        ),
        CallView::GetItemAt { index } => Some(
            InvocationView {
                receiver: ReceiverView::Held(Slot::Clip),
                name: "getItemAt"@,
                signature: "(I)Landroid/content/ClipData$Item;"@,
                arguments: seq![Operand::Int(index)],
                returns: Returns::Object(Slot::Item),
            },
        ),
        CallView::GetText => Some(
            InvocationView {
                receiver: ReceiverView::Held(Slot::Item),
                name: "getText"@,
                signature: "()Ljava/lang/CharSequence;"@,
                arguments: seq![],
                returns: Returns::Object(Slot::Chars),
            },
        ),
        CallView::ClearPrimaryClip => Some(
            InvocationView {
                receiver: ReceiverView::Held(Slot::Manager),
                name: "clearPrimaryClip"@,
                signature: "()V"@,
                arguments: seq![],
                returns: Returns::Nothing,
            },
        ),
        CallView::AttachThread | CallView::NewString { .. } | CallView::GetString => None,
    }
}

/// Whether `signature` is the type signature of a method call of the table.
pub open spec fn in_table(signature: Seq<char>) -> bool {
    exists|call: CallView| #[trigger]
        invocation_of(call) matches Some(invocation) && invocation.signature == signature
}

impl<'s> Call<'s> {
    /// The method call that this call is, where it is one.
    pub fn invocation(&self) -> (made: Option<Invocation>)
        ensures
            made matches Some(invocation) ==> invocation_of(self@) == Some(invocation@),
            made is None <==> invocation_of(self@) is None,
    {
        let made = match *self {
            Call::GetSystemService => Some(
                Invocation {
                    receiver: Receiver::Context,
                    name: "getSystemService",
                    signature: "(Ljava/lang/String;)Ljava/lang/Object;",
                    arguments: vec![Operand::Object(Slot::ServiceName)],
                    returns: Returns::Object(Slot::Manager),
                },
            ),
            Call::NewPlainText => Some(
                Invocation {
                    receiver: Receiver::Class("android/content/ClipData"),
                    name: "newPlainText",
                    signature: "(Ljava/lang/CharSequence;Ljava/lang/CharSequence;)Landroid/content/ClipData;",
                    arguments: vec![Operand::Object(Slot::Label), Operand::Object(Slot::Text)],
                    returns: Returns::Object(Slot::Clip),
                },
            ),
            Call::SetPrimaryClip => Some(
                Invocation {
                    receiver: Receiver::Held(Slot::Manager),
                    name: "setPrimaryClip",
                    signature: "(Landroid/content/ClipData;)V",
                    arguments: vec![Operand::Object(Slot::Clip)],
                    returns: Returns::Nothing,
                },
            ),
            Call::HasPrimaryClip => Some(
                Invocation {
                    receiver: Receiver::Held(Slot::Manager),
                    name: "hasPrimaryClip",
                    signature: "()Z",
                    arguments: Vec::new(),
                    returns: Returns::Flag,
                },
            ),
            Call::GetPrimaryClip => Some(
                Invocation {
                    receiver: Receiver::Held(Slot::Manager),
                    name: "getPrimaryClip",
                    signature: "()Landroid/content/ClipData;",
                    arguments: Vec::new(),
                    returns: Returns::Object(Slot::Clip),
                },
            ),
            Call::GetItemCount => Some(
                Invocation {
                    receiver: Receiver::Held(Slot::Clip),
                    name: "getItemCount",
                    signature: "()I",
                    arguments: Vec::new(),
                    returns: Returns::Count,
                },
            ),
            Call::GetItemAt { index } => Some(
                Invocation {
                    receiver: Receiver::Held(Slot::Clip),
                    name: "getItemAt",
                    signature: "(I)Landroid/content/ClipData$Item;",
                    arguments: vec![Operand::Int(index)],
                    returns: Returns::Object(Slot::Item),
                },
            ),
            Call::GetText => Some(
                Invocation {
                    receiver: Receiver::Held(Slot::Item),
                    name: "getText",
                    signature: "()Ljava/lang/CharSequence;",
                    arguments: Vec::new(),
                    returns: Returns::Object(Slot::Chars),
                },
            ),
            Call::ClearPrimaryClip => Some(
                Invocation {
                    receiver: Receiver::Held(Slot::Manager),
                    name: "clearPrimaryClip",
                    signature: "()V",
                    arguments: Vec::new(),
                    returns: Returns::Nothing,
                },
            ),
            Call::AttachThread | Call::NewString { .. } | Call::GetString => None,
        };
        proof {
            if made is Some {
                let arguments = made->Some_0.arguments@;
                assert(arguments =~= invocation_of(self@)->Some_0.arguments);
            }
        }
        made
    }
}

/// The entry of a call in the table suits the call: it works on the objects
/// that the call needs and on no others, what it keeps is what the call
/// yields, and what it takes from the returned value is what the call is
/// answered with.
pub proof fn an_invocation_suits_its_call(call: CallView)
    requires
        invocation_of(call) is Some,
    ensures
        ({
            let invocation = invocation_of(call)->Some_0;
            &&& in_table(invocation.signature)
            &&& forall|slot: Slot|
                #![trigger call.needs(slot)]
                call.needs(slot) <==> (invocation.receiver == ReceiverView::Held(slot)
                    || invocation.arguments.contains(Operand::Object(slot)))
            &&& call.yields() == (match invocation.returns {
                Returns::Object(slot) => Some(slot),
                _ => None,
            })
            &&& invocation.returns is Flag <==> call is HasPrimaryClip
            &&& invocation.returns is Count <==> call is GetItemCount
        }),
{
    let invocation = invocation_of(call)->Some_0;
    assert(invocation_of(call) matches Some(entry) && entry.signature == invocation.signature);
    assert forall|slot: Slot| #![trigger call.needs(slot)] call.needs(slot) <==> (
    invocation.receiver == ReceiverView::Held(slot) || invocation.arguments.contains(
        Operand::Object(slot),
    )) by {
        if call.needs(slot) && invocation.receiver != ReceiverView::Held(slot) {
            match call {
                CallView::NewPlainText => {
                    assert(invocation.arguments[0] == Operand::Object(Slot::Label));
                    assert(invocation.arguments[1] == Operand::Object(Slot::Text));
                },
                _ => {
                    assert(invocation.arguments[0] == Operand::Object(slot));
                },
            }
        }
    }
}

} // verus!
