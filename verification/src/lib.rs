//! Core of a small article service: the article list, its metrics, the
//! fault-injection settings and request pipeline, and its log messages.

pub mod args;
pub mod articles;
pub mod config;
pub mod exporter;
pub mod fault_inject;
pub mod hello;
pub mod logging;
pub mod pipeline;
pub mod text;
