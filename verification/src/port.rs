//! Port negotiation for the sidecar.

use vstd::prelude::*;
use crate::config::{
    config_with_port, configured_port, read_backend_port_from_config,
    write_backend_port_to_config, ConfigFile,
};
use crate::text::{
    chars_of, decimal, lemma_decimal_is_read_back, parse_number, parse_unsigned, push_decimal,
    str_text, string_of, text_of,
};

verus! {

/// Port the sidecar listens on when nothing else has been decided.
pub const DEFAULT_BACKEND_PORT: u16 = 8778;

/// How many ports past the preferred one a scan may try.
pub const PORT_SCAN_SPAN: u16 = 200;

/// Last port of the scan window that starts at `preferred`.
pub open spec fn scan_end(preferred: u16) -> int {
    if preferred + PORT_SCAN_SPAN <= u16::MAX {
        preferred + PORT_SCAN_SPAN
    } else {
        u16::MAX as int
    }
}

/// The probe may answer that `port` is free.
pub open spec fn may_be_free<F: Fn(u16) -> bool>(probe: &F, port: u16) -> bool {
    call_ensures(*probe, (port,), true)
}

/// The probe may answer that `port` is taken.
pub open spec fn may_be_taken<F: Fn(u16) -> bool>(probe: &F, port: u16) -> bool {
    call_ensures(*probe, (port,), false)
}

/// `port` is what a scan from `preferred` yields when the probe answered as it did:
/// every port of the window before `port` was reported taken, and `port` itself was
/// reported free, unless the whole window was reported taken and `port` is `preferred`.
pub open spec fn scan_outcome<F: Fn(u16) -> bool>(probe: &F, preferred: u16, port: u16) -> bool {
    &&& preferred <= port <= scan_end(preferred)
    &&& forall|q: u16| preferred <= q < port ==> may_be_taken(probe, q)
    &&& {
        ||| may_be_free(probe, port)
        ||| (port == preferred && forall|q: u16|
            preferred <= q <= scan_end(preferred) ==> may_be_taken(probe, q))
    }
}

/// The probe can be asked about every port of the scan window that starts at
/// `preferred`. Nothing is said of any other port.
pub open spec fn probes_window<F: Fn(u16) -> bool>(probe: &F, preferred: u16) -> bool {
    forall|q: u16| preferred <= q <= scan_end(preferred) ==> call_requires(*probe, (q,))
}

/// Scans the window `preferred ..= preferred + 200` (cut off at the largest port
/// number) in ascending order and returns the first port that `probe` reports
/// free. When the probe reports every port of the window taken, the result is
/// `preferred` itself. No port outside the window is probed.
pub fn pick_available_backend_port<F: Fn(u16) -> bool>(preferred: u16, probe: &F) -> (port: u16)
    requires
        probes_window(probe, preferred),
    ensures
        scan_outcome(probe, preferred, port),
{
    let end: u16 = if preferred <= u16::MAX - PORT_SCAN_SPAN {
        preferred + PORT_SCAN_SPAN
    } else {
        u16::MAX
    };
    let mut p: u16 = preferred;
    loop
        invariant
            end == scan_end(preferred),
            preferred <= p <= end,
            probes_window(probe, preferred),
            forall|q: u16| preferred <= q < p ==> may_be_taken(probe, q),
        ensures
            scan_outcome(probe, preferred, p),
        decreases end - p,
    {
        if probe(p) {
            break;
        }
        if p == end {
            p = preferred;
            break;
        }
        p = p + 1;
    }
    p
}

/// Where a port decision comes from.
#[derive(Clone, Copy, Debug, PartialEq, Eq, Structural)]
pub enum PortSource {
    /// The port was read from the configuration file.
    ConfigFile,
    /// The port is the one that the environment asks for.
    EnvironmentVariable,
    /// The port was found free by scanning past the one to start from.
    Discovered,
    /// The port is the built-in default.
    Default,
}

/// The port the sidecar is to listen on. The port is never 0.
#[derive(Clone, Copy, Debug, PartialEq, Eq, Structural)]
pub struct PortDecision {
    pub port: u16,
    pub source: PortSource,
}

impl PortDecision {
    /// A decision never names port 0.
    pub open spec fn valid(self) -> bool {
        self.port > 0
    }
}

/// A port decision, and what has to be written to keep it.
#[derive(Debug, PartialEq, Eq)]
pub struct Resolution {
    pub decision: PortDecision,
    /// New text of the configuration file. `None`: nothing is to be written.
    pub persist: Option<String>,
}

/// The port that the value of the environment variable asks for: a decimal
/// number from 1 to 65535. A variable that is not set, or holds 0 or anything
/// that is no such number, asks for nothing.
pub open spec fn env_port(value: Option<Seq<char>>) -> Option<u16> {
    match value {
        Some(text) => match parse_unsigned(text, u16::MAX as nat) {
            Some(n) => if n > 0 {
                Some(n as u16)
            } else {
                None
            },
            None => None,
        },
        None => None,
    }
}

/// The port that the environment asks for, or else the default.
pub open spec fn port_from_env(value: Option<Seq<char>>) -> u16 {
    match env_port(value) {
        Some(port) => port,
        None => DEFAULT_BACKEND_PORT,
    }
}

/// The port at which the scan for a free port starts. The environment is
/// consulted only when there is no place for a configuration file.
pub open spec fn scan_start(config: ConfigFile, env_value: Option<Seq<char>>) -> u16 {
    match config {
        ConfigFile::NoPath => port_from_env(env_value),
        _ => DEFAULT_BACKEND_PORT,
    }
}

/// Where the port comes from at which the scan starts.
pub open spec fn start_source(config: ConfigFile, env_value: Option<Seq<char>>) -> PortSource {
    match config {
        ConfigFile::NoPath => if env_port(env_value) is Some {
            PortSource::EnvironmentVariable
        } else {
            PortSource::Default
        },
        _ => PortSource::Default,
    }
}

/// What is written to keep `port`: nothing when there is no place for the file
/// or the file there cannot be read, else the configuration with the port set.
pub open spec fn persisted(config: ConfigFile, port: u16) -> Option<Seq<char>> {
    match config {
        ConfigFile::NoPath => None,
        ConfigFile::Unreadable => None,
        ConfigFile::Missing => Some(config_with_port(None, port)),
        ConfigFile::Contents(text) => Some(config_with_port(Some(text@), port)),
    }
}

/// `resolution` is what resolving the port yields when the probe answered as it
/// did. A valid port in the configuration is the decision, and nothing is
/// written. Otherwise the decision is the outcome of a scan, and it is written
/// to the configuration where there is a place for it.
pub open spec fn resolved<F: Fn(u16) -> bool>(
    probe: &F,
    config: ConfigFile,
    env_value: Option<Seq<char>>,
    resolution: Resolution,
) -> bool {
    match configured_port(config) {
        Some(port) => {
            &&& resolution.decision == (PortDecision { port, source: PortSource::ConfigFile })
            &&& resolution.persist is None
        },
        None => {
            let start = scan_start(config, env_value);
            let port = resolution.decision.port;
            &&& scan_outcome(probe, start, port)
            &&& resolution.decision.source == if port != start {
                PortSource::Discovered
            } else {
                start_source(config, env_value)
            }
            &&& text_of(resolution.persist) == persisted(config, port)
        },
    }
}

/// The port on which the sidecar of this installation is looked for: the one
/// of the configuration if it holds a valid one, else the one that the
/// environment asks for, else the default.
pub open spec fn session_port(config: ConfigFile, env_value: Option<Seq<char>>) -> u16 {
    match configured_port(config) {
        Some(port) => port,
        None => port_from_env(env_value),
    }
}

/// The address under which the sidecar is reached on `port`.
pub open spec fn base_url(port: u16) -> Seq<char> {
    "http://127.0.0.1:"@ + decimal(port as nat)
}

/// The address of the sidecar's liveness endpoint on `port`.
pub open spec fn health_url_of(port: u16) -> Seq<char> {
    base_url(port) + "/health"@
}

/// Reads the value of the variable `BIOFORGER_BACKEND_PORT` as a port; `None`
/// stands for a variable that is not set.
pub fn port_asked_by_env(value: Option<&str>) -> (port: Option<u16>)
    ensures
        port == env_port(str_text(value)),
        port is Some ==> port.unwrap() > 0,
{
    match value {
        Some(text) => {
            let chars = chars_of(text);
            match parse_number(chars.as_slice(), 65535) {
                Some(n) => if n > 0 {
                    Some(n as u16)
                } else {
                    None
                },
                None => None,
            }
        },
        None => None,
    }
}

/// The port that the environment asks for through the variable
/// `BIOFORGER_BACKEND_PORT`, whose value is `value`; `None` stands for a
/// variable that is not set. Falls back to the default port.
pub fn get_backend_port_from_env(value: Option<&str>) -> (port: u16)
    ensures
        port == port_from_env(str_text(value)),
        port > 0,
{
    match port_asked_by_env(value) {
        Some(port) => port,
        None => DEFAULT_BACKEND_PORT,
    }
}

/// Decides the port of the sidecar.
///
/// A valid port in the configuration file is final: it is returned as it is
/// and nothing is to be written. The probe is not consulted then: it need not
/// even be fit to be asked. Without one, the
/// ports from the starting port on are scanned for a free one; the starting
/// port is the default, or what the environment asks for when there is no
/// place for a configuration file. The decision is to be written back where a
/// configuration file can be kept.
pub fn resolve_backend_port<F: Fn(u16) -> bool>(
    config: &ConfigFile,
    env_value: Option<&str>,
    probe: &F,
) -> (resolution: Resolution)
    requires
        configured_port(*config) is None ==> probes_window(
            probe,
            scan_start(*config, str_text(env_value)),
        ),
    ensures
        resolved(probe, *config, str_text(env_value), resolution),
        resolution.decision.valid(),
{
    let stored = match config {
        ConfigFile::Contents(text) => read_backend_port_from_config(text.as_str()),
        _ => None,
    };
    match stored {
        Some(port) => Resolution {
            decision: PortDecision { port, source: PortSource::ConfigFile },
            persist: None,
        },
        None => {
            let (start, origin) = match config {
                ConfigFile::NoPath => match port_asked_by_env(env_value) {
                    Some(asked) => (asked, PortSource::EnvironmentVariable),
                    None => (DEFAULT_BACKEND_PORT, PortSource::Default),
                },
                _ => (DEFAULT_BACKEND_PORT, PortSource::Default),
            };
            let port = pick_available_backend_port(start, probe);
            let source = if port != start {
                PortSource::Discovered
            } else {
                origin
            };
            let persist = match config {
                ConfigFile::NoPath => None,
                ConfigFile::Unreadable => None,
                ConfigFile::Missing => Some(write_backend_port_to_config(None, port)),
                ConfigFile::Contents(text) => Some(
                    write_backend_port_to_config(Some(text.as_str()), port),
                ),
            };
            Resolution { decision: PortDecision { port, source }, persist }
        },
    }
}

/// The port on which the sidecar of this installation is looked for: the one
/// of the configuration if it holds a valid one, else the one that the
/// environment asks for, else the default. Nothing is probed.
pub fn session_backend_port(config: &ConfigFile, env_value: Option<&str>) -> (port: u16)
    ensures
        port == session_port(*config, str_text(env_value)),
        port > 0,
{
    let stored = match config {
        ConfigFile::Contents(text) => read_backend_port_from_config(text.as_str()),
        _ => None,
    };
    match stored {
        Some(port) => port,
        None => get_backend_port_from_env(env_value),
    }
}

/// The URL under which the commands reach the sidecar, on the port of the
/// session.
pub fn get_backend_base_url(config: &ConfigFile, env_value: Option<&str>) -> (url: String)
    ensures
        url@ == base_url(session_port(*config, str_text(env_value))),
{
    let port = session_backend_port(config, env_value);
    let mut url = chars_of("http://127.0.0.1:");
    push_decimal(&mut url, port as u32);
    string_of(url.as_slice())
}

/// The URL of the liveness endpoint of a sidecar on `port`.
pub fn health_url(port: u16) -> (url: String)
    ensures
        url@ == health_url_of(port),
{
    let mut url = chars_of("http://127.0.0.1:");
    push_decimal(&mut url, port as u32);
    let mut path = chars_of("/health");
    url.append(&mut path);
    string_of(url.as_slice())
}

/// Idempotence: resolving twice against the same configuration that holds a
/// valid port yields the same decision both times, whatever the probes answer
/// and whatever the environment says, and neither time is anything written.
pub proof fn lemma_populated_config_is_final<F: Fn(u16) -> bool, G: Fn(u16) -> bool>(
    config: ConfigFile,
    first_probe: &F,
    first_env: Option<Seq<char>>,
    first: Resolution,
    second_probe: &G,
    second_env: Option<Seq<char>>,
    second: Resolution,
)
    requires
        configured_port(config) is Some,
        resolved(first_probe, config, first_env, first),
        resolved(second_probe, config, second_env, second),
    ensures
        first.decision == second.decision,
        first.decision.source == PortSource::ConfigFile,
        first.persist is None,
        second.persist is None,
{
}

/// Bounded discovery: when the probe reports no port of the scan window free,
/// the scan yields the port it started from.
pub proof fn lemma_taken_window_yields_preferred<F: Fn(u16) -> bool>(
    probe: &F,
    preferred: u16,
    port: u16,
)
    requires
        scan_outcome(probe, preferred, port),
        forall|q: u16| preferred <= q <= scan_end(preferred) ==> !may_be_free(probe, q),
    ensures
        port == preferred,
{
}

/// Bounded discovery, for the resolver: when the configuration holds no valid
/// port and the probe reports no port of the scan window free, the decision is
/// the port that the scan started from. With nothing asked for by the
/// environment that is the default: if the ports 8778 to 8978 are all taken, the
/// decision is 8778.
pub proof fn lemma_taken_window_resolves_to_start<F: Fn(u16) -> bool>(
    probe: &F,
    config: ConfigFile,
    env_value: Option<Seq<char>>,
    resolution: Resolution,
)
    requires
        configured_port(config) is None,
        resolved(probe, config, env_value, resolution),
        forall|q: u16|
            scan_start(config, env_value) <= q <= scan_end(scan_start(config, env_value))
                ==> !may_be_free(probe, q),
    ensures
        resolution.decision.port == scan_start(config, env_value),
        resolution.decision.source == start_source(config, env_value),
        env_value is None ==> resolution.decision == (PortDecision {
            port: 8778,
            source: PortSource::Default,
        }),
{
}

/// The port that is handed to the sidecar through the environment, written in
/// decimal, is the port that is read back from the environment.
pub proof fn lemma_port_in_environment_is_read_back(port: u16)
    requires
        port > 0,
    ensures
        env_port(Some(decimal(port as nat))) == Some(port),
        port_from_env(Some(decimal(port as nat))) == port,
{
    lemma_decimal_is_read_back(port as nat, u16::MAX as nat);
}

} // verus!
