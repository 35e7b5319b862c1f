//! The types of the `jni` crate that pass through this library.
//!
//! Each is opaque here: a value is received from one call and handed to the
//! next, and nothing is claimed of what it holds.

use vstd::prelude::*;

verus! {

/// `jni::errors::Error`: what a call across the Java Native Interface hands
/// back when it fails.
#[verifier::external_type_specification]
#[verifier::external_body]
pub struct ExJniError(jni::errors::Error);

/// `jni::JavaVM`: the Java virtual machine of the process.
#[verifier::external_type_specification]
#[verifier::external_body]
pub struct ExJavaVM(jni::JavaVM);

/// `jni::AttachGuard`: the calling thread's attachment to the virtual
/// machine, released when the value is dropped.
#[verifier::external_type_specification]
#[verifier::external_body]
pub struct ExAttachGuard<'local>(jni::AttachGuard<'local>);

/// `jni::sys::_jobject`: what the raw pointer inside a `JObject` points to.
/// No value of it exists.
#[verifier::external_type_specification]
#[verifier::external_body]
pub struct ExRawObject(jni::sys::_jobject);

/// `jni::objects::JObject`: a reference to a Java object.
#[verifier::external_type_specification]
#[verifier::external_body]
pub struct ExJObject<'local>(jni::objects::JObject<'local>);

/// `jni::objects::JValueGen`: a Java value, as a method takes or returns it.
#[verifier::external_type_specification]
#[verifier::external_body]
#[verifier::reject_recursive_types(O)]
pub struct ExJValueGen<O>(jni::objects::JValueGen<O>);

} // verus!
