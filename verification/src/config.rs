//! Process configuration, loaded once at boot and passed to every component
//! that needs it. Reading and parsing the configuration file is I/O and
//! happens outside this crate; the structs here are the validated result.

use vstd::prelude::*;

verus! {

/// Settings for the TCP command listener.
pub struct ServerConfig {
    pub max_concurrent_connections: i32,
    pub address: String,
    pub read_buffer_capacity_in_bytes: i32,
    pub frame_prefix_length_in_bytes: i32,
}

/// Settings for the telemetry exporter endpoint.
pub struct TelemetryConfig {
    pub address: String,
    pub tick_interval_in_seconds: i32,
}

/// Settings for the GPIO pin monitor.
pub struct GpioMonitorConfig {
    pub pin: u8,
}

/// Settings for the EMG sensor sampling loops.
pub struct EmgConfig {
    pub buffer_size: usize,
    pub pause_duration_ms: u64,
    pub sampling_speed_ms: u64,
    pub cs_pin: u8,
}

/// Which ingestion strategy produces commands for this run.
/// Exactly one strategy is active per process.
#[derive(Clone, Copy, PartialEq, Eq, Structural, Debug)]
pub enum CommandDispatchStrategy {
    Tcp,
    Gpio,
    Emg,
}

impl Default for CommandDispatchStrategy {
    /// The TCP listener is the default command source.
    fn default() -> (r: Self)
        ensures
            r == CommandDispatchStrategy::Tcp,
    {
        CommandDispatchStrategy::Tcp
    }
}

/// The complete process configuration. Sections are optional: a run only
/// needs the sections of the strategy it was started with.
pub struct Config {
    pub server: Option<ServerConfig>,
    pub telemetry: Option<TelemetryConfig>,
    pub gpio_monitor: Option<GpioMonitorConfig>,
    pub emg_sensor: Option<EmgConfig>,
    pub command_dispatch_strategy: CommandDispatchStrategy,
}

/// Path of the configuration file, chosen by whether the process runs on
/// the arm's Raspberry Pi or on a development host.
pub fn get_config_path(on_pi: bool) -> (r: &'static str)
    ensures
        on_pi ==> r@ == "./gpm.config.pi.toml"@,
        !on_pi ==> r@ == "./gpm.config.dev.toml"@,
{
    if on_pi {
        "./gpm.config.pi.toml"
    } else {
        "./gpm.config.dev.toml"
    }
}

} // verus!
