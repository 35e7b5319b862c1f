//! The ways in which a clipboard operation ends without a result.

use vstd::prelude::*;
use vstd::std_specs::convert::FromSpecImpl;

verus! {

/// Why a clipboard operation returned nothing.
///
/// The two variants are never mixed up: an empty clipboard is an ordinary
/// state of the device, a failed call is a defect of the integration.
#[derive(Debug)]
pub enum ClipboardError {
    /// The clipboard holds no clip, or its clip holds no item.
    ContentNotAvailable,
    /// A call across the Java Native Interface failed; the cause is inside.
    JniError(jni::errors::Error),
}

impl From<jni::errors::Error> for ClipboardError {
    fn from(error: jni::errors::Error) -> (result: ClipboardError) {
        ClipboardError::JniError(error)
    }
}

impl FromSpecImpl<jni::errors::Error> for ClipboardError {
    open spec fn obeys_from_spec() -> bool {
        true
    }

    open spec fn from_spec(error: jni::errors::Error) -> ClipboardError {
        ClipboardError::JniError(error)
    }
}

} // verus!
