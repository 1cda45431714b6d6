//! Request routing for a KV-aware inference router with an HTTP front end.
pub mod config;
pub mod config_laws;
pub mod headers;
pub mod hint_laws;
pub mod hints;
pub mod json;
pub mod proxy;
pub mod proxy_laws;
pub mod proxy_step_laws;
pub mod route_laws;
pub mod route_step_laws;
pub mod routing;
pub mod selection;
pub mod selection_laws;
pub mod text;
pub mod text_laws;
pub mod tokenizer;
pub mod tokenizer_laws;
