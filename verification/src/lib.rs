//! The decision core of a softswitch daemon: call coordination, DTMF handling,
//! media relaying rules, call detail records and the adapter protocol, as
//! functions and state machines over plain values.

pub mod adapter;
pub mod adapter_laws;
pub mod adapter_writer;
pub mod bytes;
pub mod call;
pub mod capability;
pub mod cli;
pub mod dtmf;
pub mod fast_path_runtime;
pub mod fastpath;
pub mod fastpath_laws;
pub mod json;
pub mod keyed;
pub mod limit_laws;
pub mod media;
pub mod media_laws;
pub mod recording;
pub mod recording_laws;
pub mod report_laws;
pub mod rtp;
pub mod runtime_view;
pub mod system_metrics;
pub mod text;
pub mod text_laws;
pub mod tone_laws;
pub mod view_laws;
pub mod words;
