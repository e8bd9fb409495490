//! Health checks and the logging level of each environment.

use vstd::prelude::*;

use crate::error::INTERNAL_SERVER_ERROR;

verus! {

/// 200 OK.
pub const OK: u16 = 200;

/// 204 No Content.
pub const NO_CONTENT: u16 = 204;

/// The status of the service itself: it answers, so it is healthy.
pub fn health_check() -> (code: u16)
    ensures
        code == OK,
{
    OK
}

/// The status of the database: healthy when it could be reached.
pub fn health_check_db(db_reachable: bool) -> (code: u16)
    ensures
        code == (if db_reachable {
            OK
        } else {
            INTERNAL_SERVER_ERROR
        }),
{
    if db_reachable {
        OK
    } else {
        INTERNAL_SERVER_ERROR
    }
}

/// The environment that the service runs in.
#[derive(Clone, Copy, Debug, PartialEq, Eq, Structural)]
pub enum Environment {
    Development,
    Production,
}

/// The logging level used when none is configured: `debug` while
/// developing, `info` in production.
pub fn log_level(env: Environment) -> (level: &'static str)
    ensures
        level@ == (match env {
            Environment::Development => "debug"@,
            Environment::Production => "info"@,
        }),
{
    match env {
        Environment::Development => "debug",
        Environment::Production => "info",
    }
}

} // verus!
