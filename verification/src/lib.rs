//! A registry of uniquely labelled tags served over HTTP: the request handling,
//! the storage semantics and the schema migration, verified.

pub mod error;
pub mod guarantees;
pub mod handler;
pub mod http;
pub mod migration;
pub mod models;
pub mod pool;
pub mod response;
pub mod routes;
pub mod service;
pub mod startup;
pub mod storage;
