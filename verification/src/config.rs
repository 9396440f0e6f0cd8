//! The relay's one setting: where the application listens.

use vstd::prelude::*;
use vstd::string::*;

verus! {

/// Name of the environment variable that holds the socket path.
pub const SOCKET_PATH_VARIABLE: &'static str = "REFOCUS_SOCKET";

/// The socket path used when none is configured.
pub const DEFAULT_SOCKET_PATH: &'static str = "/tmp/refocus.sock";

/// The file that the diagnostic log is appended to.
pub const LOG_PATH: &'static str = "/tmp/refocus_native_host.log";

/// Seconds that the relay waits for the application's reply.
pub const READ_DEADLINE_SECONDS: u64 = 5;

/// The socket path: the configured one where there is one, else the default.
pub fn socket_path(configured: Option<String>) -> (path: String)
    ensures
        path@ == (match configured {
            Some(given) => given@,
            None => DEFAULT_SOCKET_PATH@,
        }),
{
    match configured {
        Some(given) => given,
        None => String::from_str(DEFAULT_SOCKET_PATH),
    }
}

} // verus!
