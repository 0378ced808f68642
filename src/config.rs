//! Settings of the remote service.

use vstd::prelude::*;

verus! {

/// The service itself and its tokens.
#[derive(Clone, Debug)]
pub struct App {
    pub name: String,
    pub version: String,
    pub url: String,
    pub port: String,
    pub jwt_secret: String,
    pub jwt_expires_in: String,
    pub jwt_maxage: i32,
}

/// The database the service keeps its records in.
#[derive(Clone, Debug)]
pub struct Database {
    pub nodes: Vec<String>,
    pub username: String,
    pub password: String,
    pub cached_queries: usize,
    pub keyspace: String,
}

/// All settings.
#[derive(Clone, Debug)]
pub struct Config {
    pub app: App,
    pub database: Database,
}

} // verus!
