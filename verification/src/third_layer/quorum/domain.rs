//! Thresholds, frequencies and retries of the post-failure control and
//! balancing protocol.

use vstd::prelude::*;

verus! {

/// Settings of the balancing protocol (read from `protocol.toml`).
#[derive(Debug)]
pub struct ProtocolSettings {
    /// Maximum number of handshake retries.
    max_attempts: u64,
    /// Report frequency during the balance phases.
    frequency_phase: u32,
    /// Report frequency during safe mode.
    frequency_safe_mode: u32,
    /// Seconds to wait for the hubs' handshakes.
    timeout_handshake: u64,
    /// Seconds a balance phase lasts.
    timeout_phase: u64,
    /// Seconds safe mode lasts.
    timeout_safe_mode: u64,
    /// Seconds between heartbeats in balance mode.
    time_between_heartbeats_balance_mode: u64,
    /// Seconds between heartbeats in normal mode.
    time_between_heartbeats_normal: u64,
    /// Seconds between heartbeats in safe mode.
    time_between_heartbeats_safe_mode: u64,
}

impl ProtocolSettings {
    pub closed spec fn spec_max_attempts(&self) -> u64 { self.max_attempts }
    pub closed spec fn spec_frequency_phase(&self) -> u32 { self.frequency_phase }
    pub closed spec fn spec_frequency_safe_mode(&self) -> u32 { self.frequency_safe_mode }
    pub closed spec fn spec_timeout_handshake(&self) -> u64 { self.timeout_handshake }
    pub closed spec fn spec_timeout_phase(&self) -> u64 { self.timeout_phase }
    pub closed spec fn spec_timeout_safe_mode(&self) -> u64 { self.timeout_safe_mode }
    pub closed spec fn spec_time_between_heartbeats_balance_mode(&self) -> u64 {
        self.time_between_heartbeats_balance_mode
    }
    pub closed spec fn spec_time_between_heartbeats_normal(&self) -> u64 { self.time_between_heartbeats_normal }
    pub closed spec fn spec_time_between_heartbeats_safe_mode(&self) -> u64 {
        self.time_between_heartbeats_safe_mode
    }

    /// Settings with the given values, in field order.
    pub fn new(
        max_attempts: u64,
        frequency_phase: u32,
        frequency_safe_mode: u32,
        timeout_handshake: u64,
        timeout_phase: u64,
        timeout_safe_mode: u64,
        time_between_heartbeats_balance_mode: u64,
        time_between_heartbeats_normal: u64,
        time_between_heartbeats_safe_mode: u64,
    ) -> (r: Self)
        ensures
            r.spec_max_attempts() == max_attempts,
            r.spec_frequency_phase() == frequency_phase,
            r.spec_frequency_safe_mode() == frequency_safe_mode,
            r.spec_timeout_handshake() == timeout_handshake,
            r.spec_timeout_phase() == timeout_phase,
            r.spec_timeout_safe_mode() == timeout_safe_mode,
            r.spec_time_between_heartbeats_balance_mode() == time_between_heartbeats_balance_mode,
            r.spec_time_between_heartbeats_normal() == time_between_heartbeats_normal,
            r.spec_time_between_heartbeats_safe_mode() == time_between_heartbeats_safe_mode,
    {
        Self {
            max_attempts,
            frequency_phase,
            frequency_safe_mode,
            timeout_handshake,
            timeout_phase,
            timeout_safe_mode,
            time_between_heartbeats_balance_mode,
            time_between_heartbeats_normal,
            time_between_heartbeats_safe_mode,
        }
    }

    pub fn get_max_attempts(&self) -> (r: u64)
        ensures r == self.spec_max_attempts(),
    {
        self.max_attempts
    }

    pub fn get_frequency_phase(&self) -> (r: u32)
        ensures r == self.spec_frequency_phase(),
    {
        self.frequency_phase
    }

    pub fn get_frequency_safe_mode(&self) -> (r: u32)
        ensures r == self.spec_frequency_safe_mode(),
    {
        self.frequency_safe_mode
    }

    pub fn get_timeout_handshake(&self) -> (r: u64)
        ensures r == self.spec_timeout_handshake(),
    {
        self.timeout_handshake
    }

    pub fn get_timeout_phase(&self) -> (r: u64)
        ensures r == self.spec_timeout_phase(),
    {
        self.timeout_phase
    }

    pub fn get_timeout_safe_mode(&self) -> (r: u64)
        ensures r == self.spec_timeout_safe_mode(),
    {
        self.timeout_safe_mode
    }

    pub fn get_time_between_heartbeats_balance_mode(&self) -> (r: u64)
        ensures r == self.spec_time_between_heartbeats_balance_mode(),
    {
        self.time_between_heartbeats_balance_mode
    }

    pub fn get_time_between_heartbeats_normal(&self) -> (r: u64)
        ensures r == self.spec_time_between_heartbeats_normal(),
    {
        self.time_between_heartbeats_normal
    }

    pub fn get_time_between_heartbeats_safe_mode(&self) -> (r: u64)
        ensures r == self.spec_time_between_heartbeats_safe_mode(),
    {
        self.time_between_heartbeats_safe_mode
    }
}

impl Default for ProtocolSettings {
    /// All settings zero.
    fn default() -> (r: Self)
        ensures
            r.spec_max_attempts() == 0,
            r.spec_frequency_phase() == 0,
            r.spec_frequency_safe_mode() == 0,
            r.spec_timeout_handshake() == 0,
            r.spec_timeout_phase() == 0,
            r.spec_timeout_safe_mode() == 0,
            r.spec_time_between_heartbeats_balance_mode() == 0,
            r.spec_time_between_heartbeats_normal() == 0,
            r.spec_time_between_heartbeats_safe_mode() == 0,
    {
        Self::new(0, 0, 0, 0, 0, 0, 0, 0, 0)
    }
}

} // verus!
