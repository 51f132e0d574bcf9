//! Running a static, void, argument-free Java method as a unit test.
//!
//! The library holds the decisions of one test invocation: the lookup keys
//! handed to the JVM's native interface, the order of the native calls, which
//! outcomes abort the process and which come back as a recoverable
//! [`JavaTestError`]. The native calls themselves are made by the driver that
//! runs the [`invocation::Invocation`] machine.

pub mod error;
pub mod invocation;
pub mod laws;
pub mod names;

pub use error::JavaTestError;
