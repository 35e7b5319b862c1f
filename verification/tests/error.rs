//! The error type and its conversion from a failure of the bridge.

use android_clipboard::ClipboardError;

#[test]
fn a_bridge_failure_converts_into_a_jni_error() {
    let error = ClipboardError::from(jni::errors::Error::NullPtr("call_method obj argument"));
    assert!(matches!(
        error,
        ClipboardError::JniError(jni::errors::Error::NullPtr("call_method obj argument"))
    ));
}

#[test]
fn a_bridge_failure_converts_through_into() {
    let error: ClipboardError = jni::errors::Error::JavaException.into();
    assert!(matches!(error, ClipboardError::JniError(jni::errors::Error::JavaException)));
}

#[test]
fn no_content_is_not_a_bridge_failure() {
    let error = ClipboardError::ContentNotAvailable;
    assert!(!matches!(error, ClipboardError::JniError(_)));
    assert!(matches!(error, ClipboardError::ContentNotAvailable));
}

#[test]
fn the_question_mark_converts_a_bridge_failure() {
    fn failing() -> Result<(), ClipboardError> {
        let failed: Result<(), jni::errors::Error> = Err(jni::errors::Error::TryLock);
        failed?;
        Ok(())
    }
    assert!(matches!(failing(), Err(ClipboardError::JniError(jni::errors::Error::TryLock))));
}
