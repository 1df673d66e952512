//! Translation of what a NetworkManager client reports.

use crate::{NetworkInfo, NetworkStatus};
use vstd::prelude::*;

verus! {

/// Connectivity state: the host is not connected to any network.
pub const NM_CONNECTIVITY_NONE: i32 = 1;

/// Connectivity state: the host is behind a captive portal.
pub const NM_CONNECTIVITY_PORTAL: i32 = 2;

/// Connectivity state: connected to a network that does not reach the
/// internet.
pub const NM_CONNECTIVITY_LIMITED: i32 = 3;

/// Connectivity state: the internet is reachable.
pub const NM_CONNECTIVITY_FULL: i32 = 4;

/// Metered state: the connection is metered.
pub const NM_METERED_YES: i32 = 1;

/// Metered state: the connection is guessed to be metered.
pub const NM_METERED_GUESS_YES: i32 = 3;

/// Device type of a mobile broadband modem.
pub const NM_DEVICE_TYPE_MODEM: i32 = 8;

/// What the library reads of one device of the client.
#[derive(Debug, Clone, Copy, PartialEq, Eq, Structural)]
pub struct NmDevice {
    pub device_type: i32,
}

/// What the library reads of an IP configuration: how many name servers it
/// lists, or `None` where the list could not be had.
#[derive(Debug, Clone, Copy, PartialEq, Eq, Structural)]
pub struct NmIpConfig {
    pub nameservers: Option<u32>,
}

/// What the library reads of the primary connection: its IPv4 configuration,
/// if it has one, and whether it has an IPv6 configuration.
#[derive(Debug, Clone, Copy, PartialEq, Eq, Structural)]
pub struct NmPrimaryConnection {
    pub ip4_config: Option<NmIpConfig>,
    pub has_ip6_config: bool,
}

/// What a NetworkManager client said at one moment. The device list and the
/// primary connection are `None` where the client gave none.
#[derive(Debug, Clone)]
pub struct NmEvidence {
    /// The metered state of the client.
    pub metered: i32,
    /// The devices of the client.
    pub devices: Option<Vec<NmDevice>>,
    /// The primary connection.
    pub primary: Option<NmPrimaryConnection>,
    /// The connectivity state of the client.
    pub connectivity: i32,
}

/// The status that a connectivity state stands for: full, `Satisfied`;
/// limited or behind a portal, `Satisfiable`; none, `Unsatisfied`; any other
/// state, `Invalid`.
pub open spec fn spec_connectivity_status(connectivity: i32) -> NetworkStatus {
    if connectivity == NM_CONNECTIVITY_FULL {
        NetworkStatus::Satisfied
    } else if connectivity == NM_CONNECTIVITY_LIMITED || connectivity == NM_CONNECTIVITY_PORTAL {
        NetworkStatus::Satisfiable
    } else if connectivity == NM_CONNECTIVITY_NONE {
        NetworkStatus::Unsatisfied
    } else {
        NetworkStatus::Invalid
    }
}

/// Maps a connectivity state to its status.
#[verifier::when_used_as_spec(spec_connectivity_status)]
pub fn connectivity_status(connectivity: i32) -> (status: NetworkStatus)
    ensures
        status == spec_connectivity_status(connectivity),
{
    if connectivity == NM_CONNECTIVITY_FULL {
        NetworkStatus::Satisfied
    } else if connectivity == NM_CONNECTIVITY_LIMITED || connectivity == NM_CONNECTIVITY_PORTAL {
        NetworkStatus::Satisfiable
    } else if connectivity == NM_CONNECTIVITY_NONE {
        NetworkStatus::Unsatisfied
    } else {
        NetworkStatus::Invalid
    }
}

/// Whether any of the devices is a modem.
pub open spec fn any_modem(devices: Seq<NmDevice>) -> bool {
    exists|i: int| 0 <= i < devices.len() && (#[trigger] devices[i]).device_type
        == NM_DEVICE_TYPE_MODEM
}

/// Tells whether any of the devices is a modem.
pub fn has_modem(devices: &Vec<NmDevice>) -> (found: bool)
    ensures
        found == any_modem(devices@),
{
    let mut i: usize = 0;
    while i < devices.len()
        invariant
            i <= devices@.len(),
            forall|j: int| 0 <= j < i ==> (#[trigger] devices@[j]).device_type
                != NM_DEVICE_TYPE_MODEM,
        decreases devices@.len() - i,
    {
        if devices[i].device_type == NM_DEVICE_TYPE_MODEM {
            return true;
        }
        i = i + 1;
    }
    false
}

/// The snapshot after the client reported a change.
///
/// The status and low data mode follow the connectivity and the metered
/// state. The connection is expensive where any device is a modem. IPv4 and
/// IPv6 are those of the primary connection, and DNS is on where its IPv4
/// configuration lists a name server. A field whose source the client did not
/// give keeps its previous value.
pub open spec fn spec_network_changed(prev: NetworkInfo, evidence: NmEvidence) -> NetworkInfo {
    NetworkInfo {
        status: spec_connectivity_status(evidence.connectivity),
        is_expensive: match evidence.devices {
            Some(devices) => any_modem(devices@),
            None => prev.is_expensive,
        },
        is_low_data_mode: evidence.metered == NM_METERED_YES || evidence.metered
            == NM_METERED_GUESS_YES,
        has_ipv4: match evidence.primary {
            Some(primary) => primary.ip4_config.is_some(),
            None => prev.has_ipv4,
        },
        has_ipv6: match evidence.primary {
            Some(primary) => primary.has_ip6_config,
            None => prev.has_ipv6,
        },
        has_dns: match evidence.primary {
            Some(NmPrimaryConnection {
                ip4_config: Some(NmIpConfig { nameservers: Some(count) }),
                ..
            }) => count > 0,
            _ => prev.has_dns,
        },
    }
}

/// Translates what the client reported into the next snapshot.
pub fn network_changed(prev: &NetworkInfo, evidence: &NmEvidence) -> (info: NetworkInfo)
    ensures
        info == spec_network_changed(*prev, *evidence),
{
    let mut info = *prev;
    let metered = evidence.metered;
    info.is_low_data_mode = metered == NM_METERED_YES || metered == NM_METERED_GUESS_YES;
    match &evidence.devices {
        Some(devices) => {
            info.is_expensive = has_modem(devices);
        },
        None => {},
    }
    match evidence.primary {
        Some(primary) => {
            info.has_ipv4 = primary.ip4_config.is_some();
            info.has_ipv6 = primary.has_ip6_config;
            match primary.ip4_config {
                Some(ip_config) => match ip_config.nameservers {
                    Some(count) => {
                        info.has_dns = count > 0;
                    },
                    None => {},
                },
                None => {},
            }
        },
        None => {},
    }
    info.status = connectivity_status(evidence.connectivity);
    info
}

} // verus!
