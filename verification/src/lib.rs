//! Shared primitives for integrating with huggian-core, verified with Verus.

pub mod ai_gateway;
pub mod billing;
pub mod billing_axum;
pub mod http;
pub mod json;
pub mod products;
pub mod text;
pub mod time;
pub mod url;
pub mod webhook;
