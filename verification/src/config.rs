use vstd::prelude::*;
use vstd::string::StringExecFns;

verus! {

/// Configuration for the serial bus link, supplied once at startup.
pub struct Settings {
    /// Path of the motor registry file, kept for display purposes.
    pub config_path: String,
    /// Name of the serial device the bus hangs off.
    pub port: String,
    /// Baud rate the port is opened with.
    pub baudrate: u32,
    /// Per-transaction I/O timeout in milliseconds.
    pub timeout_ms: u64,
}

/// Baud rate used when no override is supplied.
pub const DEFAULT_BAUDRATE: u32 = 1_000_000;

/// I/O timeout in milliseconds used when no override is supplied.
pub const DEFAULT_TIMEOUT_MS: u64 = 1000;

/// Serial device used when no override is supplied.
pub fn default_port() -> (p: String)
    ensures
        p@ == "/dev/ttyACM0"@,
{
    String::from_str("/dev/ttyACM0")
}

/// Combines optional overrides (taken from the environment by the caller)
/// with the fixed defaults: port `/dev/ttyACM0`, baud rate 1 000 000,
/// timeout 1000 ms.
pub fn load_settings(
    config_path: String,
    port: Option<String>,
    baudrate: Option<u32>,
    timeout_ms: Option<u64>,
) -> (s: Settings)
    ensures
        s.config_path == config_path,
        s.port@ == (match port {
            Option::Some(p) => p@,
            Option::None => "/dev/ttyACM0"@,
        }),
        s.baudrate == (match baudrate {
            Option::Some(b) => b,
            Option::None => DEFAULT_BAUDRATE,
        }),
        s.timeout_ms == (match timeout_ms {
            Option::Some(t) => t,
            Option::None => DEFAULT_TIMEOUT_MS,
        }),
{
    let port = match port {
        Option::Some(p) => p,
        Option::None => default_port(),
    };
    let baudrate = match baudrate {
        Option::Some(b) => b,
        Option::None => DEFAULT_BAUDRATE,
    };
    let timeout_ms = match timeout_ms {
        Option::Some(t) => t,
        Option::None => DEFAULT_TIMEOUT_MS,
    };
    Settings { config_path, port, baudrate, timeout_ms }
}

} // verus!
