//! Joining the wireless network: choosing an access point from scan
//! results, assembling the radio configuration, and checking that the
//! gateway answered the reachability probe.

use vstd::prelude::*;

verus! {

/// What the agent reads from one scanned access point: its network
/// name and the channel it was seen on.
pub struct AccessPoint {
    pub ssid: Vec<u8>,
    pub channel: u8,
}

/// Compares two byte strings.
pub fn bytes_eq(a: &[u8], b: &[u8]) -> (r: bool)
    ensures
        r == (a@ == b@),
{
    if a.len() != b.len() {
        return false;
    }
    let mut i: usize = 0;
    while i < a.len()
        invariant
            i <= a@.len(),
            a@.len() == b@.len(),
            forall|j: int| 0 <= j < i ==> a@[j] == b@[j],
        decreases a@.len() - i,
    {
        if a[i] != b[i] {
            return false;
        }
        i = i + 1;
    }
    proof {
        assert(a@ =~= b@);
    }
    true
}

/// Searches the scan results for the configured network name and
/// returns the channel of the first access point that carries it, or
/// nothing when no scanned access point does.
pub fn find_channel(aps: &Vec<AccessPoint>, ssid: &[u8]) -> (r: Option<u8>)
    ensures
        match r {
            Some(c) => exists|i: int|
                0 <= i < aps@.len() && aps@[i].ssid@ == ssid@ && aps@[i].channel == c
                    && (forall|j: int| 0 <= j < i ==> aps@[j].ssid@ != ssid@),
            None => forall|i: int| 0 <= i < aps@.len() ==> aps@[i].ssid@ != ssid@,
        },
{
    let mut i: usize = 0;
    while i < aps.len()
        invariant
            i <= aps@.len(),
            forall|j: int| 0 <= j < i ==> aps@[j].ssid@ != ssid@,
        decreases aps@.len() - i,
    {
        if bytes_eq(aps[i].ssid.as_slice(), ssid) {
            return Some(aps[i].channel);
        }
        i = i + 1;
    }
    None
}

/// The client and access-point radio configuration the agent asks for:
/// join the configured network, on the scanned channel when one was
/// found, and open a side access point on that same channel, or on
/// channel 1 when the scan found nothing.
pub struct RadioPlan {
    pub client_channel: Option<u8>,
    pub ap_channel: u8,
}

/// Turns the outcome of the scan into the radio configuration.
pub fn radio_plan(found: Option<u8>) -> (r: RadioPlan)
    ensures
        r.client_channel == found,
        r.ap_channel == match found {
            Some(c) => c,
            None => 1u8,
        },
{
    match found {
        Some(c) => RadioPlan { client_channel: Some(c), ap_channel: c },
        None => RadioPlan { client_channel: None, ap_channel: 1 },
    }
}

/// Judges the gateway reachability probe: the link is good exactly
/// when every transmitted ping was answered.
pub fn ping_ok(transmitted: u32, received: u32) -> (r: bool)
    ensures
        r == (transmitted == received),
{
    transmitted == received
}

} // verus!
