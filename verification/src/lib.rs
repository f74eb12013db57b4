//! Verified core of the cool-admin framework: text utilities, response codes,
//! query building, caches, registries, task lifecycle and attribute parsing.

pub mod application;
pub mod assoc;
pub mod attr;
pub mod cache;
pub mod cli;
pub mod clock;
pub mod config;
pub mod constant;
pub mod controller;
pub mod entity;
pub mod eps;
pub mod error;
pub mod es;
pub mod event;
pub mod text;
pub mod middleware;
pub mod module;
pub mod plugin;
pub mod rpc;
pub mod scan;
pub mod service;
pub mod tag;
pub mod task;
pub mod util;
