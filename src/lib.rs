//! A native bridge that hands a fixed greeting to a managed Java runtime.
//!
//! `greeting` builds the greeting text and `bridge` turns it into a Java
//! string through a JNI environment, reporting a failed construction as an
//! error of this library's own.
pub mod bridge;
pub mod greeting;
