pub mod agent_api;
pub mod agent_plan;
pub mod agent_start;
pub mod bridge_limiter;
pub mod cache_laws;
pub mod call_laws;
pub mod change_laws;
pub mod error_laws;
pub mod forwarding_laws;
pub mod geometry;
pub mod handler_laws;
pub mod host_glass;
pub mod host_laws;
pub mod input_keys;
pub mod input_laws;
pub mod input_mouse;
pub mod json;
pub mod layout;
pub mod lifecycle;
pub mod lifecycle_laws;
pub mod local_agents;
pub mod local_api;
pub mod mouse_laws;
pub mod outcome_laws;
pub mod pane_split;
pub mod projection_frames;
pub mod projection_laws;
pub mod projection_plan;
pub mod projection_runtime;
pub mod projection_stream;
pub mod remote_attach;
pub mod remote_calls;
pub mod remote_helpers;
pub mod remote_source;
pub mod remote_target;
pub mod remotes;
pub mod resolve_errors;
pub mod routed_exec;
pub mod routed_laws;
pub mod routed_plan;
pub mod routed_reduce;
pub mod routed_run;
pub mod schema;
pub mod search;
pub mod server;
pub mod session;
pub mod session_change;
pub mod session_laws;
pub mod session_marks;
pub mod step_laws;
pub mod stream_laws;
pub mod target_laws;
pub mod text;
pub mod text_laws;
