//! Decision logic of a cloud function that, on each invocation, creates a
//! fresh random identifier, stores it as an object, records it in a table and
//! answers with it.
pub mod identifier;
pub mod json;
pub mod handler;
