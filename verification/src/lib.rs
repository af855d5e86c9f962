//! Request-handling logic of a mini-program backend: configuration URLs,
//! whitelist SQL command texts, the task table, the WeChat-pay JSAPI flow
//! and the response bodies of the HTTP routes.

pub mod text;
pub mod config;
pub mod services;
pub mod models;
pub mod routes;
pub mod database;
