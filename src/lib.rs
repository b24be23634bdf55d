//! A client-side conformance checker for an HTTP+JSON authentication API.
//!
//! The library holds the assertion engine: the tally of passed and failed
//! assertions with its diagnostic log, the checks made on each response
//! (status, `content-type`, JSON body), the typed field accessors, and the
//! substring checks used on free-text error messages.
pub mod checker;
pub mod fixtures;
pub mod json;
pub mod laws;
pub mod status;
pub mod text;
