//! The control plane of loom: run lifecycle, realtime protocol, settings and projections.

pub mod dispatch;
pub mod domain;
pub mod events;
pub mod hub_actor;
pub mod interactions;
pub mod join_codes;
pub mod json;
pub mod lifecycle;
pub mod local_worker;
pub mod overview;
pub mod persistence;
pub mod projections;
pub mod protocol;
pub mod providers;
pub mod pump;
pub mod queue;
pub mod reasoning_timeline;
pub mod reply;
pub mod reports;
pub mod resources;
pub mod runs;
pub mod search;
pub mod settings;
pub mod startup;
pub mod strmap;
pub mod sweep;
pub mod text;
pub mod thread_timeline;
pub mod timeline;
pub mod turn_details;
pub mod turns;
pub mod wire;
