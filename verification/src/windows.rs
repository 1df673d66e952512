//! Translation of what the Windows network list manager, the cost manager and
//! the adapter address table report.

use crate::error::{AdviseFailure, MonitorError, SubscribeFailure};
use crate::{NetworkInfo, NetworkStatus};
use vstd::prelude::*;

verus! {

/// Connectivity bit: IPv4 is attached but sees no traffic.
pub const NLM_CONNECTIVITY_IPV4_NOTRAFFIC: i32 = 0x1;

/// Connectivity bit: IPv6 is attached but sees no traffic.
pub const NLM_CONNECTIVITY_IPV6_NOTRAFFIC: i32 = 0x2;

/// Connectivity bit: IPv4 reaches the internet.
pub const NLM_CONNECTIVITY_IPV4_INTERNET: i32 = 0x40;

/// Connectivity bit: IPv6 reaches the internet.
pub const NLM_CONNECTIVITY_IPV6_INTERNET: i32 = 0x400;

/// Cost tier of a connection without usage limits.
pub const NLM_CONNECTION_COST_UNRESTRICTED: u32 = 0x1;

/// Data limit reported for a plan without a limit.
pub const DATA_LIMIT_UNBOUNDED: u32 = 0xFFFF_FFFF;

/// Operational status of an adapter that can pass packets.
pub const IF_OPER_STATUS_UP: i32 = 1;

/// Win32 code of the address query when the buffer offered was too small.
pub const ERROR_BUFFER_OVERFLOW: u32 = 111;

/// A failed system call, by its HRESULT.
#[derive(Debug, Clone, Copy, PartialEq, Eq, Structural)]
pub struct WinError {
    pub code: i32,
}

/// What the library reads of one entry of the adapter address table.
#[derive(Debug, Clone, Copy, PartialEq, Eq, Structural)]
pub struct AdapterAddresses {
    pub oper_status: i32,
    pub has_dns_server: bool,
}

/// The outcome of asking for the adapter address table: the Win32 code of the
/// call that sizes the buffer, the code of the call that fills it, and the
/// entries in table order.
#[derive(Debug, Clone)]
pub struct AdapterListing {
    pub probe_code: u32,
    pub fetch_code: u32,
    pub adapters: Vec<AdapterAddresses>,
}

/// The HRESULT that stands for a Win32 error code: the code itself where it
/// is zero or has its top bit set, else its low sixteen bits under the Win32
/// facility and the failure bit.
pub open spec fn hresult_from_win32(error: u32) -> i32 {
    if error as i32 <= 0 {
        error as i32
    } else {
        ((error & 0x0000_FFFF) | (7u32 << 16) | 0x8000_0000u32) as i32
    }
}

/// Only the Win32 code zero maps to a success.
pub proof fn lemma_from_win32_sign(error: u32)
    ensures
        error == 0 ==> hresult_from_win32(error) == 0,
        error != 0 ==> hresult_from_win32(error) < 0,
{
    assert(error == 0 ==> error as i32 == 0) by (bit_vector);
    assert(error != 0 && error as i32 <= 0 ==> (error as i32) < 0) by (bit_vector);
    assert((((error & 0x0000_FFFF) | (7u32 << 16) | 0x8000_0000u32) as i32) < 0) by (bit_vector);
}

/// Calls `windows_core::HRESULT::from_win32` and hands back the number inside
/// the result. The contract restates the one expression of that function.
#[verifier::external_body]
fn from_win32(error: u32) -> (hr: i32)
    ensures
        hr == hresult_from_win32(error),
{
    windows_core::HRESULT::from_win32(error).0
}

/// Calls `windows_core::HRESULT::is_ok`, which is true of the codes that are
/// not negative.
#[verifier::external_body]
fn is_ok(hr: i32) -> (ok: bool)
    ensures
        ok == (hr >= 0),
{
    windows_core::HRESULT(hr).is_ok()
}

impl WinError {
    /// The result that an HRESULT stands for.
    pub open spec fn spec_check(hr: i32) -> Result<(), WinError> {
        if hr >= 0 {
            Ok(())
        } else {
            Err(WinError { code: hr })
        }
    }

    /// Success for a code that is not negative, else the code as an error.
    pub fn check(hr: i32) -> (r: Result<(), WinError>)
        ensures
            r == Self::spec_check(hr),
    {
        if is_ok(hr) {
            Ok(())
        } else {
            Err(WinError { code: hr })
        }
    }

    /// The result that a Win32 error code stands for.
    pub open spec fn spec_check_win32(error: u32) -> Result<(), WinError> {
        if error == 0 {
            Ok(())
        } else {
            Err(WinError { code: hresult_from_win32(error) })
        }
    }

    /// Success for the code zero, else the HRESULT of the code as an error.
    pub fn check_win32(error: u32) -> (r: Result<(), WinError>)
        ensures
            r == Self::spec_check_win32(error),
    {
        proof {
            lemma_from_win32_sign(error);
        }
        Self::check(from_win32(error))
    }
}

impl AdapterListing {
    /// Whether the sizing call went as it should: it succeeded, or it asked
    /// for a larger buffer. Only then is the table fetched.
    pub open spec fn spec_probe_accepted(code: u32) -> bool {
        code == 0 || code == ERROR_BUFFER_OVERFLOW
    }

    #[verifier::when_used_as_spec(spec_probe_accepted)]
    pub fn probe_accepted(code: u32) -> (accepted: bool)
        ensures
            accepted == Self::spec_probe_accepted(code),
    {
        code == 0 || code == ERROR_BUFFER_OVERFLOW
    }

    /// The error of the query, if one of its two calls failed.
    pub open spec fn failure(self) -> Option<WinError> {
        if !Self::spec_probe_accepted(self.probe_code) {
            Some(WinError { code: hresult_from_win32(self.probe_code) })
        } else if self.fetch_code != 0 {
            Some(WinError { code: hresult_from_win32(self.fetch_code) })
        } else {
            None
        }
    }

    /// The index of the first adapter that is operationally up.
    pub open spec fn first_up(self) -> Option<int> {
        first_up_in(self.adapters@)
    }
}

/// Whether no adapter before `end` is operationally up.
pub open spec fn none_up_before(adapters: Seq<AdapterAddresses>, end: int) -> bool {
    forall|j: int| 0 <= j < end ==> (#[trigger] adapters[j]).oper_status != IF_OPER_STATUS_UP
}

/// The index of the first adapter that is operationally up.
pub open spec fn first_up_in(adapters: Seq<AdapterAddresses>) -> Option<int> {
    if exists|i: int| is_first_up(adapters, i) {
        Some(choose|i: int| is_first_up(adapters, i))
    } else {
        None
    }
}

/// Whether `i` is the index of the first adapter that is operationally up.
pub open spec fn is_first_up(adapters: Seq<AdapterAddresses>, i: int) -> bool {
    &&& 0 <= i < adapters.len()
    &&& adapters[i].oper_status == IF_OPER_STATUS_UP
    &&& none_up_before(adapters, i)
}

/// The first adapter that is up is the one found, and none is found exactly
/// where none is up.
pub proof fn lemma_first_up(adapters: Seq<AdapterAddresses>)
    ensures
        forall|i: int| is_first_up(adapters, i) ==> first_up_in(adapters) == Some(i),
        none_up_before(adapters, adapters.len() as int) ==> first_up_in(adapters).is_none(),
        first_up_in(adapters).is_none() ==> none_up_before(adapters, adapters.len() as int),
{
    assert forall|i: int| is_first_up(adapters, i) implies first_up_in(adapters) == Some(i) by {
        let k = choose|k: int| is_first_up(adapters, k);
        assert(is_first_up(adapters, k));
        if k < i {
            assert(adapters[k].oper_status != IF_OPER_STATUS_UP);
        } else if i < k {
            assert(adapters[i].oper_status != IF_OPER_STATUS_UP);
        }
    }
    if first_up_in(adapters).is_none() {
        lemma_no_first_up(adapters, adapters.len() as int);
    }
}

/// Where no index is the first adapter up, no adapter is up.
proof fn lemma_no_first_up(adapters: Seq<AdapterAddresses>, end: int)
    requires
        0 <= end <= adapters.len(),
        forall|i: int| !is_first_up(adapters, i),
    ensures
        none_up_before(adapters, end),
    decreases end,
{
    if end > 0 {
        lemma_no_first_up(adapters, end - 1);
        assert(!is_first_up(adapters, end - 1));
    }
}

/// Walks the adapter table in order and asks `callback` of each entry whether
/// to go on. The walk ends at the first entry for which it says no, at the
/// first error, or after the last entry.
///
/// The result is the index at which `callback` ended the walk, `None` where
/// it let the walk reach the end, or the error: that of the query where one
/// of its calls failed (no entry is visited then), else that of `callback`.
pub fn get_available_connections<F: Fn(&AdapterAddresses) -> Result<bool, WinError>>(
    listing: &AdapterListing,
    callback: F,
) -> (r: Result<Option<usize>, WinError>)
    requires
        forall|i: int|
            0 <= i < listing.adapters@.len() ==> call_requires(
                callback,
                (&#[trigger] listing.adapters@[i],),
            ),
    ensures
        listing.failure().is_some() ==> r == Err::<Option<usize>, WinError>(
            listing.failure().unwrap(),
        ),
        listing.failure().is_none() ==> match r {
            Ok(Some(i)) => {
                &&& i < listing.adapters@.len()
                &&& call_ensures(callback, (&listing.adapters@[i as int],), Ok(false))
                &&& forall|j: int|
                    0 <= j < i ==> call_ensures(
                        callback,
                        (&#[trigger] listing.adapters@[j],),
                        Ok(true),
                    )
            },
            Ok(None) => forall|j: int|
                0 <= j < listing.adapters@.len() ==> call_ensures(
                    callback,
                    (&#[trigger] listing.adapters@[j],),
                    Ok(true),
                ),
            Err(e) => exists|i: int|
                {
                    &&& 0 <= i < listing.adapters@.len()
                    &&& call_ensures(callback, (&#[trigger] listing.adapters@[i],), Err(e))
                    &&& forall|j: int|
                        0 <= j < i ==> call_ensures(
                            callback,
                            (&#[trigger] listing.adapters@[j],),
                            Ok(true),
                        )
                },
        },
{
    if !AdapterListing::probe_accepted(listing.probe_code) {
        return match WinError::check_win32(listing.probe_code) {
            Ok(()) => Ok(None),
            Err(e) => Err(e),
        };
    }
    if listing.fetch_code != 0 {
        return match WinError::check_win32(listing.fetch_code) {
            Ok(()) => Ok(None),
            Err(e) => Err(e),
        };
    }
    let mut current: usize = 0;
    while current < listing.adapters.len()
        invariant
            current <= listing.adapters@.len(),
            listing.failure().is_none(),
            forall|i: int|
                0 <= i < listing.adapters@.len() ==> call_requires(
                    callback,
                    (&#[trigger] listing.adapters@[i],),
                ),
            forall|j: int|
                0 <= j < current ==> call_ensures(
                    callback,
                    (&#[trigger] listing.adapters@[j],),
                    Ok(true),
                ),
        decreases listing.adapters@.len() - current,
    {
        let adapter = &listing.adapters[current];
        match callback(adapter) {
            Ok(true) => {},
            Ok(false) => {
                return Ok(Some(current));
            },
            Err(e) => {
                return Err(e);
            },
        }
        current = current + 1;
    }
    Ok(None)
}

/// Whether any adapter is operationally up.
pub open spec fn any_up(adapters: Seq<AdapterAddresses>) -> bool {
    exists|i: int| 0 <= i < adapters.len() && (#[trigger] adapters[i]).oper_status
        == IF_OPER_STATUS_UP
}

/// What `has_available_connections` returns.
pub open spec fn spec_has_available_connections(listing: AdapterListing) -> Result<
    bool,
    WinError,
> {
    match listing.failure() {
        Some(e) => Err(e),
        None => Ok(any_up(listing.adapters@)),
    }
}

/// What `has_dns` returns.
pub open spec fn spec_has_dns(listing: AdapterListing) -> Result<bool, WinError> {
    match listing.failure() {
        Some(e) => Err(e),
        None => Ok(
            match listing.first_up() {
                Some(i) => listing.adapters@[i].has_dns_server,
                None => false,
            },
        ),
    }
}

/// The answer that ends a walk at the first adapter that is operationally
/// up: go on past every other adapter.
pub fn pass_unless_up(adapter: &AdapterAddresses) -> (go_on: Result<bool, WinError>)
    ensures
        go_on == Ok::<bool, WinError>(adapter.oper_status != IF_OPER_STATUS_UP),
{
    if adapter.oper_status == IF_OPER_STATUS_UP {
        Ok(false)
    } else {
        Ok(true)
    }
}

/// Whether at least one adapter is operationally up; the error of the query
/// where it failed.
pub fn has_available_connections(listing: &AdapterListing) -> (r: Result<bool, WinError>)
    ensures
        r == spec_has_available_connections(*listing),
{
    match get_available_connections(listing, pass_unless_up) {
        Ok(found) => {
            proof {
                if found.is_none() {
                    lemma_walk_passed(listing.adapters@, listing.adapters@.len() as int);
                }
            }
            Ok(found.is_some())
        },
        Err(e) => Err(e),
    }
}

/// Whether the first adapter that is operationally up names a DNS server:
/// the default connection is taken to be that adapter. Without such an
/// adapter the answer is no; where the query failed, its error.
pub fn has_dns(listing: &AdapterListing) -> (r: Result<bool, WinError>)
    ensures
        r == spec_has_dns(*listing),
{
    match get_available_connections(listing, pass_unless_up) {
        Ok(Some(at)) => {
            proof {
                lemma_walk_passed(listing.adapters@, at as int);
                lemma_first_up(listing.adapters@);
            }
            Ok(listing.adapters[at].has_dns_server)
        },
        Ok(None) => {
            proof {
                lemma_walk_passed(listing.adapters@, listing.adapters@.len() as int);
                lemma_first_up(listing.adapters@);
            }
            Ok(false)
        },
        Err(e) => Err(e),
    }
}

/// The adapters that `pass_unless_up` let a walk go past are not up.
proof fn lemma_walk_passed(adapters: Seq<AdapterAddresses>, end: int)
    requires
        0 <= end <= adapters.len(),
        forall|j: int|
            0 <= j < end ==> call_ensures(pass_unless_up, (&#[trigger] adapters[j],), Ok(true)),
    ensures
        none_up_before(adapters, end),
{
    assert forall|j: int| 0 <= j < end implies (#[trigger] adapters[j]).oper_status
        != IF_OPER_STATUS_UP by {
        assert(call_ensures(pass_unless_up, (&adapters[j],), Ok(true)));
    }
}

/// What the list manager and the adapter table said at one moment. A query
/// that failed is `None`.
#[derive(Debug, Clone)]
pub struct NlmEvidence {
    /// The connectivity bit mask.
    pub connectivity: Option<i32>,
    /// Whether the machine is connected to the internet.
    pub is_connected_to_internet: Option<bool>,
    /// Whether the machine is connected to any network.
    pub is_connected: Option<bool>,
    /// The adapter address table.
    pub adapters: AdapterListing,
}

/// What the cost interface of a connection said. A query that failed is
/// `None`.
#[derive(Debug, Clone, Copy, PartialEq, Eq, Structural)]
pub struct ConnectionCost {
    /// The cost bit mask.
    pub cost: Option<u32>,
    /// The data limit of the plan, in megabytes.
    pub data_limit_megabytes: Option<u32>,
}

/// The first look at the network when a monitor is built: the cost of the
/// first connection that the list manager enumerates, if it enumerates one,
/// and the connectivity evidence.
#[derive(Debug, Clone)]
pub struct NlmProbe {
    pub connection: Option<ConnectionCost>,
    pub evidence: NlmEvidence,
}

/// Whether all of `bits` are set in `mask`.
pub open spec fn has_bits(mask: i32, bits: i32) -> bool {
    mask & bits == bits
}

impl NlmEvidence {
    /// Whether the mask reports an attached address family without traffic.
    pub open spec fn no_traffic(mask: i32) -> bool {
        has_bits(mask, NLM_CONNECTIVITY_IPV4_NOTRAFFIC) || has_bits(
            mask,
            NLM_CONNECTIVITY_IPV6_NOTRAFFIC,
        )
    }

    /// The status that the evidence determines, in this order: connected to
    /// the internet, `Satisfied`; connected and an address family without
    /// traffic, `Unsatisfied`; an adapter up, `Satisfiable`; else `Invalid`.
    /// `None` where a query that the decision needs has failed.
    pub open spec fn status(self) -> Option<NetworkStatus> {
        match self.is_connected_to_internet {
            None => None,
            Some(true) => Some(NetworkStatus::Satisfied),
            Some(false) => match self.is_connected {
                None => None,
                Some(connected) => if connected && self.connectivity.is_none() {
                    None
                } else if connected && Self::no_traffic(self.connectivity.unwrap()) {
                    Some(NetworkStatus::Unsatisfied)
                } else {
                    match spec_has_available_connections(self.adapters) {
                        Err(_) => None,
                        Ok(true) => Some(NetworkStatus::Satisfiable),
                        Ok(false) => Some(NetworkStatus::Invalid),
                    }
                },
            },
        }
    }

    /// Computes `status`.
    pub fn network_status(&self) -> (status: Option<NetworkStatus>)
        ensures
            status == self.status(),
    {
        match self.is_connected_to_internet {
            None => None,
            Some(true) => Some(NetworkStatus::Satisfied),
            Some(false) => match self.is_connected {
                None => None,
                Some(connected) => {
                    if connected {
                        match self.connectivity {
                            None => {
                                return None;
                            },
                            Some(mask) => {
                                let ipv4_no_traffic = mask & NLM_CONNECTIVITY_IPV4_NOTRAFFIC
                                    == NLM_CONNECTIVITY_IPV4_NOTRAFFIC;
                                let ipv6_no_traffic = mask & NLM_CONNECTIVITY_IPV6_NOTRAFFIC
                                    == NLM_CONNECTIVITY_IPV6_NOTRAFFIC;
                                if ipv4_no_traffic || ipv6_no_traffic {
                                    return Some(NetworkStatus::Unsatisfied);
                                }
                            },
                        }
                    }
                    match has_available_connections(&self.adapters) {
                        Err(_) => None,
                        Ok(true) => Some(NetworkStatus::Satisfiable),
                        Ok(false) => Some(NetworkStatus::Invalid),
                    }
                },
            },
        }
    }
}

/// The snapshot after the list manager reported a change of connectivity.
/// The status is the one the evidence determines; IPv4 and IPv6 are the
/// internet bits of the mask; DNS is that of the default connection. Each
/// keeps its previous value where its query failed, and so do the two cost
/// fields, of which this evidence says nothing.
pub open spec fn spec_get_network_info(prev: NetworkInfo, evidence: NlmEvidence) -> NetworkInfo {
    NetworkInfo {
        status: match evidence.status() {
            Some(status) => status,
            None => prev.status,
        },
        is_expensive: prev.is_expensive,
        is_low_data_mode: prev.is_low_data_mode,
        has_ipv4: match evidence.connectivity {
            Some(mask) => has_bits(mask, NLM_CONNECTIVITY_IPV4_INTERNET),
            None => prev.has_ipv4,
        },
        has_ipv6: match evidence.connectivity {
            Some(mask) => has_bits(mask, NLM_CONNECTIVITY_IPV6_INTERNET),
            None => prev.has_ipv6,
        },
        has_dns: match spec_has_dns(evidence.adapters) {
            Ok(found) => found,
            Err(_) => prev.has_dns,
        },
    }
}

/// Translates connectivity evidence into the next snapshot.
pub fn get_network_info(prev: &NetworkInfo, evidence: &NlmEvidence) -> (info: NetworkInfo)
    ensures
        info == spec_get_network_info(*prev, *evidence),
{
    let ipv4_internet = match evidence.connectivity {
        Some(mask) => mask & NLM_CONNECTIVITY_IPV4_INTERNET == NLM_CONNECTIVITY_IPV4_INTERNET,
        None => prev.has_ipv4,
    };
    let ipv6_internet = match evidence.connectivity {
        Some(mask) => mask & NLM_CONNECTIVITY_IPV6_INTERNET == NLM_CONNECTIVITY_IPV6_INTERNET,
        None => prev.has_ipv6,
    };
    let status = match evidence.network_status() {
        Some(status) => status,
        None => prev.status,
    };
    let dns = match has_dns(&evidence.adapters) {
        Ok(found) => found,
        Err(_) => prev.has_dns,
    };
    NetworkInfo {
        status,
        is_expensive: prev.is_expensive,
        is_low_data_mode: prev.is_low_data_mode,
        has_ipv4: ipv4_internet,
        has_ipv6: ipv6_internet,
        has_dns: dns,
    }
}

/// The snapshot after the cost of the connection changed: low data mode is
/// on exactly where the cost is above the unrestricted tier.
pub open spec fn spec_cost_changed(prev: NetworkInfo, new_cost: u32) -> NetworkInfo {
    NetworkInfo { is_low_data_mode: new_cost > NLM_CONNECTION_COST_UNRESTRICTED, ..prev }
}

/// Translates a change of connection cost into the next snapshot.
pub fn cost_changed(prev: &NetworkInfo, new_cost: u32) -> (info: NetworkInfo)
    ensures
        info == spec_cost_changed(*prev, new_cost),
{
    NetworkInfo { is_low_data_mode: new_cost > NLM_CONNECTION_COST_UNRESTRICTED, ..*prev }
}

/// The snapshot after the status of the data plan changed: the connection is
/// expensive exactly where the plan has a limit. Where the limit could not
/// be read, nothing changes.
pub open spec fn spec_data_plan_status_changed(
    prev: NetworkInfo,
    data_limit_megabytes: Option<u32>,
) -> NetworkInfo {
    match data_limit_megabytes {
        Some(limit) => NetworkInfo { is_expensive: limit != DATA_LIMIT_UNBOUNDED, ..prev },
        None => prev,
    }
}

/// Translates a change of the data plan into the next snapshot.
pub fn data_plan_status_changed(prev: &NetworkInfo, data_limit_megabytes: Option<u32>) -> (info:
    NetworkInfo)
    ensures
        info == spec_data_plan_status_changed(*prev, data_limit_megabytes),
{
    match data_limit_megabytes {
        Some(limit) => {
            let is_unlimited = limit == DATA_LIMIT_UNBOUNDED;
            NetworkInfo { is_expensive: !is_unlimited, ..*prev }
        },
        None => *prev,
    }
}

/// The snapshot after the first look at the network. Without a connection
/// nothing is known and nothing changes. With one, its data plan and its cost
/// set the two cost fields as the two cost events do, and the connectivity
/// evidence sets the rest.
pub open spec fn spec_probe_network_info(prev: NetworkInfo, probe: NlmProbe) -> NetworkInfo {
    match probe.connection {
        None => prev,
        Some(connection) => {
            let planned = spec_data_plan_status_changed(prev, connection.data_limit_megabytes);
            let costed = match connection.cost {
                Some(cost) => spec_cost_changed(planned, cost),
                None => planned,
            };
            spec_get_network_info(costed, probe.evidence)
        },
    }
}

/// Translates the first look at the network into the next snapshot.
pub fn probe_network_info(prev: &NetworkInfo, probe: &NlmProbe) -> (info: NetworkInfo)
    ensures
        info == spec_probe_network_info(*prev, *probe),
{
    match probe.connection {
        None => *prev,
        Some(connection) => {
            let planned = data_plan_status_changed(prev, connection.data_limit_megabytes);
            let costed = match connection.cost {
                Some(cost) => cost_changed(&planned, cost),
                None => planned,
            };
            get_network_info(&costed, &probe.evidence)
        },
    }
}


/// The error type of `windows_core`, carried through as it is.
#[verifier::external_type_specification]
#[verifier::external_body]
pub struct ExWindowsError(windows_core::Error);

/// The HRESULT that `windows_core::Error::code` reads from an error.
pub uninterp spec fn error_hresult(err: windows_core::Error) -> i32;

/// Calls `windows_core::Error::code` and hands back the number inside the
/// result. The method reads the code kept in the error, so the result is
/// the same for the same error; which number it is is not claimed.
#[verifier::external_body]
fn error_code(err: &windows_core::Error) -> (code: i32)
    ensures
        code == error_hresult(*err),
{
    err.code().0
}

/// Formats the error as `windows_core` displays it. The text comes from the
/// system, so nothing is claimed of it.
#[verifier::external_body]
fn error_text(err: &windows_core::Error) -> String {
    format!("{err}")
}

/// The error to surface when a connection point refused a sink with the
/// HRESULT `code`, for which the system gave `text`.
pub fn advise_error(code: i32, text: String) -> (error: MonitorError)
    ensures
        error matches MonitorError::Subscription(SubscribeFailure::Advise(failure))
            && failure.classifies(code, text@),
{
    MonitorError::Subscription(SubscribeFailure::Advise(AdviseFailure::classify(code, text)))
}

/// The error to surface when a connection point refused a sink: the failure
/// that the error's code stands for. The displayed text, which the system
/// gives, is kept only for a code without a meaning of its own.
pub fn handle_advise_error(err: windows_core::Error) -> (error: MonitorError)
    ensures
        error matches MonitorError::Subscription(SubscribeFailure::Advise(failure)) && exists|
            text: Seq<char>,
        | failure.classifies(error_hresult(err), text),
{
    let code = error_code(&err);
    let text = error_text(&err);
    advise_error(code, text)
}

/// The one subscription number that stands for the two cookies of a
/// subscription: the cookie of the network events in the high half, the
/// cookie of the cost events in the low half.
pub open spec fn spec_pack_cookies(list_cookie: u32, cost_cookie: u32) -> u64 {
    ((list_cookie as u64) << 32) | (cost_cookie as u64)
}

/// The two cookies that a subscription number stands for: its high half and
/// its low half.
pub open spec fn spec_unpack_cookies(subscription: u64) -> (u32, u32) {
    ((subscription >> 32) as u32, (subscription & 0xFFFF_FFFF) as u32)
}

/// Makes one subscription number of the two cookies.
#[verifier::when_used_as_spec(spec_pack_cookies)]
pub fn pack_cookies(list_cookie: u32, cost_cookie: u32) -> (subscription: u64)
    ensures
        subscription == spec_pack_cookies(list_cookie, cost_cookie),
{
    ((list_cookie as u64) << 32) | (cost_cookie as u64)
}

/// Takes a subscription number apart into the cookie of the network events
/// and the cookie of the cost events.
#[verifier::when_used_as_spec(spec_unpack_cookies)]
pub fn unpack_cookies(subscription: u64) -> (cookies: (u32, u32))
    ensures
        cookies == spec_unpack_cookies(subscription),
{
    let high: u64 = subscription >> 32;
    let low: u64 = subscription & 0xFFFF_FFFF;
    assert(high <= 0xFFFF_FFFF) by (bit_vector)
        requires
            high == subscription >> 32,
    ;
    assert(low <= 0xFFFF_FFFF) by (bit_vector)
        requires
            low == subscription & 0xFFFF_FFFF,
    ;
    (high as u32, low as u32)
}

/// Packing two cookies and unpacking the number gives the two cookies back.
pub proof fn lemma_cookies_round_trip(list_cookie: u32, cost_cookie: u32)
    ensures
        spec_unpack_cookies(spec_pack_cookies(list_cookie, cost_cookie)) == (
            list_cookie,
            cost_cookie,
        ),
{
    let packed = spec_pack_cookies(list_cookie, cost_cookie);
    assert((packed >> 32) as u32 == list_cookie) by (bit_vector)
        requires
            packed == ((list_cookie as u64) << 32) | (cost_cookie as u64),
    ;
    assert((packed & 0xFFFF_FFFF) as u32 == cost_cookie) by (bit_vector)
        requires
            packed == ((list_cookie as u64) << 32) | (cost_cookie as u64),
    ;
}

} // verus!
