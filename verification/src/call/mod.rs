//! Calls: their state, the sessions that take part, and what is kept of them.

pub mod action;
pub mod action_body;
pub mod actor;
pub mod actor_laws;
pub mod admission;
pub mod ai;
pub mod answer_laws;
pub mod callee;
pub mod cdr;
pub mod cdr_laws;
pub mod cdr_spool;
pub mod cdr_spool_laws;
pub mod cdr_writer;
pub mod collection;
pub mod collection_laws;
pub mod config_snapshot;
pub mod coordinator;
pub mod coordinator_laws;
pub mod digit_laws;
pub mod dtmf;
pub mod dtmf_dispatch;
pub mod dtmf_operation;
pub mod dtmf_operation_laws;
pub mod event;
pub mod handoff;
pub mod leg_laws;
pub mod mailbox;
pub mod model;
pub mod owner_laws;
pub mod ownership_laws;
pub mod policy;
pub mod policy_laws;
pub mod registry;
pub mod runtime_queue;
pub mod service_laws;
pub mod session;
pub mod session_laws;
pub mod spool_format_laws;
pub mod summary;
pub mod takeover;
pub mod timer;
pub mod wire_laws;
