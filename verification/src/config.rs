//! The agent's fixed configuration: the network credentials, the two
//! endpoint addresses, the target device's hardware address, and the
//! poll interval.  The credentials must fit the radio: a network name
//! is one to 32 bytes, a passphrase at most 64 bytes.

use vstd::prelude::*;

verus! {

/// Longest network name the radio accepts, in bytes.
pub const SSID_MAX: usize = 32;

/// Longest passphrase the radio accepts, in bytes.
pub const PASS_MAX: usize = 64;

/// The compiled-in configuration.
pub struct Config {
    /// Name of the network to join: one to 32 bytes.
    pub ssid: Vec<u8>,
    /// Passphrase of the network: at most 64 bytes.
    pub password: Vec<u8>,
    /// Address the status endpoint is polled at.
    pub poll_url: Vec<u8>,
    /// Address completion is reported to.
    pub report_url: Vec<u8>,
    /// Hardware address of the device to wake.
    pub wake_mac: [u8; 6],
    /// Milliseconds to sleep between patrol iterations.
    pub interval_millis: u64,
}

impl Config {
    /// The configuration fits the radio's limits.
    pub open spec fn wf(self) -> bool {
        1 <= self.ssid@.len() <= 32 && self.password@.len() <= 64
    }

    /// Builds a configuration, rejecting credentials the radio cannot
    /// carry: succeeds exactly when the network name is one to 32
    /// bytes and the passphrase at most 64.
    pub fn new(
        ssid: Vec<u8>,
        password: Vec<u8>,
        poll_url: Vec<u8>,
        report_url: Vec<u8>,
        wake_mac: [u8; 6],
        interval_millis: u64,
    ) -> (r: Option<Config>)
        ensures
            match r {
                Some(c) => c.wf() && c.ssid == ssid && c.password == password && c.poll_url
                    == poll_url && c.report_url == report_url && c.wake_mac == wake_mac
                    && c.interval_millis == interval_millis,
                None => !(1 <= ssid@.len() <= 32 && password@.len() <= 64),
            },
    {
        if ssid.len() < 1 || ssid.len() > SSID_MAX || password.len() > PASS_MAX {
            return None;
        }
        Some(
            Config {
                ssid,
                password,
                poll_url,
                report_url,
                wake_mac,
                interval_millis,
            },
        )
    }
}

} // verus!
