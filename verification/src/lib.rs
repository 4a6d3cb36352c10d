//! Configuration-driven webhook relay: an endpoint registry maps inbound
//! paths to webhook rules; each inbound JSON body is transformed through a
//! compiled template and the rendered payload is forwarded to the rule's
//! target. The dispatch decisions, the registry, configuration validation
//! and the exact response bodies are verified; the HTTP transport and the
//! template engine itself are called through a few trusted wrappers.

pub mod admin;
pub mod config;
pub mod dispatch;
pub mod health;
pub mod json;
pub mod registry;
pub mod template;
pub mod text;
