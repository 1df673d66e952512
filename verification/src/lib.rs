//! Live network reachability, reduced to one canonical status plus a handful
//! of flags, together with the rules that derive them from what each
//! platform's connectivity service reports and the lifecycle of the monitor
//! that keeps them current.

use vstd::prelude::*;

pub mod error;
pub mod laws;
pub mod lifecycle;
pub mod linux;
pub mod macos;
pub mod monitor;
pub mod windows;

pub use crate::macos::{NWInterfaceType, NWPath, NWPathMonitor, NWPathStatus};
pub use crate::monitor::InternetMonitor;

verus! {

/// Whether a usable route exists on which to send and receive data.
#[derive(Debug, Clone, Copy, PartialEq, Eq, Structural)]
pub enum NetworkStatus {
    /// No usable route.
    Invalid,
    /// A route exists and satisfies the required constraints.
    Satisfied,
    /// A route exists, but does not satisfy the required constraints.
    Unsatisfied,
    /// A route is potentially usable, but a connection attempt is required.
    Satisfiable,
    /// Reserved; never produced by a translation.
    Unknown,
}

/// One whole observation of the network: the status and the five flags.
#[derive(Debug, Clone, Copy, PartialEq, Eq, Structural)]
pub struct NetworkInfo {
    pub status: NetworkStatus,
    pub is_expensive: bool,
    pub is_low_data_mode: bool,
    pub has_ipv4: bool,
    pub has_ipv6: bool,
    pub has_dns: bool,
}

impl NetworkStatus {
    /// The number under which a status is kept in a one-byte cell.
    pub open spec fn spec_code(self) -> u8 {
        match self {
            NetworkStatus::Invalid => 0,
            NetworkStatus::Satisfied => 1,
            NetworkStatus::Unsatisfied => 2,
            NetworkStatus::Satisfiable => 3,
            NetworkStatus::Unknown => 4,
        }
    }

    /// The status that a byte stands for; bytes above 4 read as `Invalid`.
    pub open spec fn spec_from_code(code: u8) -> NetworkStatus {
        if code == 1 {
            NetworkStatus::Satisfied
        } else if code == 2 {
            NetworkStatus::Unsatisfied
        } else if code == 3 {
            NetworkStatus::Satisfiable
        } else if code == 4 {
            NetworkStatus::Unknown
        } else {
            NetworkStatus::Invalid
        }
    }

    #[verifier::when_used_as_spec(spec_code)]
    pub fn code(self) -> (c: u8)
        ensures
            c == self.spec_code(),
            c <= 4,
    {
        match self {
            NetworkStatus::Invalid => 0,
            NetworkStatus::Satisfied => 1,
            NetworkStatus::Unsatisfied => 2,
            NetworkStatus::Satisfiable => 3,
            NetworkStatus::Unknown => 4,
        }
    }

    #[verifier::when_used_as_spec(spec_from_code)]
    pub fn from_code(code: u8) -> (s: NetworkStatus)
        ensures
            s == Self::spec_from_code(code),
    {
        match code {
            1 => NetworkStatus::Satisfied,
            2 => NetworkStatus::Unsatisfied,
            3 => NetworkStatus::Satisfiable,
            4 => NetworkStatus::Unknown,
            _ => NetworkStatus::Invalid,
        }
    }
}

impl NetworkInfo {
    /// The snapshot before any evidence: no usable route, every flag off.
    pub open spec fn initial() -> NetworkInfo {
        NetworkInfo {
            status: NetworkStatus::Invalid,
            is_expensive: false,
            is_low_data_mode: false,
            has_ipv4: false,
            has_ipv6: false,
            has_dns: false,
        }
    }
}

impl Default for NetworkInfo {
    fn default() -> (info: NetworkInfo)
        ensures
            info == NetworkInfo::initial(),
    {
        NetworkInfo {
            status: NetworkStatus::Invalid,
            is_expensive: false,
            is_low_data_mode: false,
            has_ipv4: false,
            has_ipv6: false,
            has_dns: false,
        }
    }
}

/// Encoding a status and decoding the byte gives the status back.
pub proof fn lemma_code_round_trip(status: NetworkStatus)
    ensures
        NetworkStatus::spec_from_code(status.spec_code()) == status,
{
}

} // verus!
