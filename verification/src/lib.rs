//! Verified core of a provider-neutral coding-agent kernel: the canonical model IR, the
//! conversation-history vocabulary and its lossless projection from Responses-shaped items,
//! history normalization, the stream-event bridge, tool-result conversions, and the small
//! routing, retry and reconciliation decisions that surround them.

pub mod route;
pub mod text;
pub mod json;
pub mod ids;
pub mod responses;
pub mod ir;
pub mod history;
pub mod projection;
pub mod normalize;
pub mod unsupported_media;
pub mod event;
pub mod tools;
pub mod tool_result;
pub mod data_url;
pub mod tool_schema;
pub mod tool_spec;
pub mod codex_request;
pub mod retry;
pub mod startup;
pub mod provider;
pub mod runtime;
pub mod mcp;
pub mod stored_history;
pub mod text_order;
pub mod reconcile;
pub mod web_search;
