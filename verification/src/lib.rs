//! Verified core of the herdr client and control API: semantic frame pacing, the
//! refresh-rate cap, the tab requests and the decisions of `agent wait`.
pub mod agents;
pub mod pacer;
pub mod pacer_laws;
pub mod refresh;
pub mod responses;
pub mod tab_laws;
pub mod tabs;
