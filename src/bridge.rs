//! Turning the greeting into a Java string through a JNI environment.
use crate::greeting::greeting_message;
use jni::errors::Error as JniFailure;
use jni::objects::JString;
use jni::JNIEnv;
use vstd::prelude::*;

verus! {

#[verifier::external_type_specification]
#[verifier::external_body]
pub struct ExJNIEnv<'a>(JNIEnv<'a>);

#[verifier::external_type_specification]
#[verifier::external_body]
pub struct ExJString<'a>(JString<'a>);

#[verifier::external_type_specification]
#[verifier::external_body]
pub struct ExJniFailure(JniFailure);

/// Why the bridge could not hand a string to the Java runtime.
#[derive(Debug, Clone, Copy, PartialEq, Eq, Structural)]
pub enum BridgeError {
    /// The runtime could not allocate or register the new string.
    Allocation,
}

/// Relies on jni::JNIEnv::new_string: asks the Java runtime behind `env` to
/// build a string from `text` (re-encoded to Java's modified UTF-8, which
/// takes any Rust string), and reports a null result, a missing JNI function
/// or a pending Java exception as an error; it does not panic. Whether it
/// succeeds depends on the runtime, so nothing is promised of the outcome.
#[verifier::external_body]
fn new_java_string<'a>(env: &JNIEnv<'a>, text: &str) -> Result<JString<'a>, JniFailure> {
    env.new_string(text)
}

/// Settles the outcome of a string construction: a created string is handed
/// on unchanged, and any failure of the runtime becomes an allocation error.
pub fn settle_java_string<'a>(created: Result<JString<'a>, JniFailure>) -> (r: Result<
    JString<'a>,
    BridgeError,
>)
    ensures
        r is Ok <==> created is Ok,
        created is Ok ==> r == Ok::<JString<'a>, BridgeError>(created->Ok_0),
        created is Err ==> r == Err::<JString<'a>, BridgeError>(BridgeError::Allocation),
{
    match created {
        Ok(handle) => Ok(handle),
        Err(_) => Err(BridgeError::Allocation),
    }
}

/// Builds the greeting as a new Java string owned by the runtime behind
/// `env`. The only failure is the runtime's own: the string could not be
/// created, which is reported as an allocation error.
pub fn greeting<'a>(env: &JNIEnv<'a>) -> (r: Result<JString<'a>, BridgeError>)
    ensures
        r is Err ==> r->Err_0 == BridgeError::Allocation,
{
    let text = greeting_message();
    let created = new_java_string(env, text.as_str());
    settle_java_string(created)
}

} // verus!
