//! A resumable stream of event logs over a block range, paged in fixed-size
//! windows of blocks, written as a state machine whose driver performs the
//! requests it asks for.
pub mod bindings;
pub mod log_query;
pub mod query;
