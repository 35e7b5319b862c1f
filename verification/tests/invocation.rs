//! The Java method behind each call.

use android_clipboard::invocation::{Invocation, Operand, Receiver, Returns};
use android_clipboard::protocol::{Call, Slot};

#[test]
fn the_service_is_asked_of_the_context_by_name() {
    assert_eq!(
        Call::GetSystemService.invocation(),
        Some(Invocation {
            receiver: Receiver::Context,
            name: "getSystemService",
            signature: "(Ljava/lang/String;)Ljava/lang/Object;",
            arguments: vec![Operand::Object(Slot::ServiceName)],
            returns: Returns::Object(Slot::Manager),
        })
    );
}

#[test]
fn a_plain_text_clip_is_built_of_label_and_text_in_that_order() {
    assert_eq!(
        Call::NewPlainText.invocation(),
        Some(Invocation {
            receiver: Receiver::Class("android/content/ClipData"),
            name: "newPlainText",
            signature:
                "(Ljava/lang/CharSequence;Ljava/lang/CharSequence;)Landroid/content/ClipData;",
            arguments: vec![Operand::Object(Slot::Label), Operand::Object(Slot::Text)],
            returns: Returns::Object(Slot::Clip),
        })
    );
}

#[test]
fn the_clip_is_set_on_the_manager() {
    assert_eq!(
        Call::SetPrimaryClip.invocation(),
        Some(Invocation {
            receiver: Receiver::Held(Slot::Manager),
            name: "setPrimaryClip",
            signature: "(Landroid/content/ClipData;)V",
            arguments: vec![Operand::Object(Slot::Clip)],
            returns: Returns::Nothing,
        })
    );
}

#[test]
fn the_manager_is_asked_for_a_flag() {
    assert_eq!(
        Call::HasPrimaryClip.invocation(),
        Some(Invocation {
            receiver: Receiver::Held(Slot::Manager),
            name: "hasPrimaryClip",
            signature: "()Z",
            arguments: vec![],
            returns: Returns::Flag,
        })
    );
}

#[test]
fn the_primary_clip_is_fetched_from_the_manager() {
    assert_eq!(
        Call::GetPrimaryClip.invocation(),
        Some(Invocation {
            receiver: Receiver::Held(Slot::Manager),
            name: "getPrimaryClip",
            signature: "()Landroid/content/ClipData;",
            arguments: vec![],
            returns: Returns::Object(Slot::Clip),
        })
    );
}

#[test]
fn the_clip_is_asked_for_a_count() {
    assert_eq!(
        Call::GetItemCount.invocation(),
        Some(Invocation {
            receiver: Receiver::Held(Slot::Clip),
            name: "getItemCount",
            signature: "()I",
            arguments: vec![],
            returns: Returns::Count,
        })
    );
}

#[test]
fn an_item_is_fetched_from_the_clip_by_its_index() {
    for index in [0, 1, 7, i32::MAX] {
        assert_eq!(
            Call::GetItemAt { index }.invocation(),
            Some(Invocation {
                receiver: Receiver::Held(Slot::Clip),
                name: "getItemAt",
                signature: "(I)Landroid/content/ClipData$Item;",
                arguments: vec![Operand::Int(index)],
                returns: Returns::Object(Slot::Item),
            })
        );
    }
}

#[test]
fn the_text_is_fetched_from_the_item() {
    assert_eq!(
        Call::GetText.invocation(),
        Some(Invocation {
            receiver: Receiver::Held(Slot::Item),
            name: "getText",
            signature: "()Ljava/lang/CharSequence;",
            arguments: vec![],
            returns: Returns::Object(Slot::Chars),
        })
    );
}

#[test]
fn the_clip_is_cleared_on_the_manager() {
    assert_eq!(
        Call::ClearPrimaryClip.invocation(),
        Some(Invocation {
            receiver: Receiver::Held(Slot::Manager),
            name: "clearPrimaryClip",
            signature: "()V",
            arguments: vec![],
            returns: Returns::Nothing,
        })
    );
}

#[test]
fn attaching_and_string_marshalling_are_no_method_calls() {
    assert_eq!(Call::AttachThread.invocation(), None);
    assert_eq!(Call::NewString { text: "text", into: Slot::Text }.invocation(), None);
    assert_eq!(Call::GetString.invocation(), None);
}

#[test]
fn no_signature_of_the_table_has_a_method_among_its_arguments() {
    let calls = [
        Call::GetSystemService,
        Call::NewPlainText,
        Call::SetPrimaryClip,
        Call::HasPrimaryClip,
        Call::GetPrimaryClip,
        Call::GetItemCount,
        Call::GetItemAt { index: 0 },
        Call::GetText,
        Call::ClearPrimaryClip,
    ];
    for call in calls {
        let signature = call.invocation().map(|invocation| invocation.signature).unwrap_or("");
        assert!(signature.starts_with('('));
        assert_eq!(signature.matches('(').count(), 1);
        assert_eq!(signature.matches(')').count(), 1);
    }
}
