//! Agent-side logic of PlotForge: prompt templates, provider request and
//! response shaping, provider registry selection, retry/backoff policy,
//! skill frontmatter handling, and the redaction-safe helpers shared by them.

pub mod text;
pub mod shared;
pub mod schema;
pub mod prompts;
pub mod providers_text;
pub mod pipelines;
pub mod json;
pub mod providers_http;
pub mod paths;
pub mod skills;
pub mod sorting;
pub mod providers_moderation;
pub mod moderation_loop;
pub mod providers_image;
pub mod providers_tts;
pub mod registry;
pub mod mcp_loop;
pub mod pi_agent;
pub mod scene_planner;
pub mod agent_output;
pub mod generation;
pub mod media_pipeline;
pub mod http_headers;
