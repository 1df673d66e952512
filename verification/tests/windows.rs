use network_change::error::{AdviseFailure, MonitorError, SubscribeFailure};
use network_change::windows::{
    advise_error, cost_changed, data_plan_status_changed, get_available_connections,
    get_network_info, handle_advise_error, has_available_connections, has_dns, pack_cookies,
    pass_unless_up, probe_network_info, unpack_cookies, AdapterAddresses, AdapterListing, ConnectionCost, NlmEvidence, NlmProbe,
    WinError, DATA_LIMIT_UNBOUNDED, ERROR_BUFFER_OVERFLOW, IF_OPER_STATUS_UP,
    NLM_CONNECTIVITY_IPV4_INTERNET, NLM_CONNECTIVITY_IPV4_NOTRAFFIC,
    NLM_CONNECTIVITY_IPV6_INTERNET, NLM_CONNECTIVITY_IPV6_NOTRAFFIC,
};
use network_change::{NetworkInfo, NetworkStatus};

const ACCESS_DENIED: i32 = 0x8007_0005u32 as i32;

fn up(has_dns_server: bool) -> AdapterAddresses {
    AdapterAddresses { oper_status: IF_OPER_STATUS_UP, has_dns_server }
}

fn down(has_dns_server: bool) -> AdapterAddresses {
    AdapterAddresses { oper_status: 2, has_dns_server }
}

fn listing(adapters: Vec<AdapterAddresses>) -> AdapterListing {
    AdapterListing { probe_code: ERROR_BUFFER_OVERFLOW, fetch_code: 0, adapters }
}

fn evidence(
    connectivity: i32,
    internet: bool,
    connected: bool,
    adapters: Vec<AdapterAddresses>,
) -> NlmEvidence {
    NlmEvidence {
        connectivity: Some(connectivity),
        is_connected_to_internet: Some(internet),
        is_connected: Some(connected),
        adapters: listing(adapters),
    }
}

#[test]
fn win32_codes_become_hresults() {
    assert_eq!(WinError::check_win32(0), Ok(()));
    assert_eq!(WinError::check_win32(5), Err(WinError { code: ACCESS_DENIED }));
    assert_eq!(
        WinError::check_win32(ERROR_BUFFER_OVERFLOW),
        Err(WinError { code: 0x8007_006Fu32 as i32 })
    );
    assert_eq!(WinError::check_win32(0x1_0005), Err(WinError { code: ACCESS_DENIED }));
    assert_eq!(
        WinError::check_win32(0x8004_0201),
        Err(WinError { code: 0x8004_0201u32 as i32 })
    );
}

#[test]
fn negative_hresults_are_errors() {
    assert_eq!(WinError::check(0), Ok(()));
    assert_eq!(WinError::check(1), Ok(()));
    assert_eq!(WinError::check(i32::MAX), Ok(()));
    assert_eq!(WinError::check(-1), Err(WinError { code: -1 }));
    assert_eq!(WinError::check(i32::MIN), Err(WinError { code: i32::MIN }));
}

#[test]
fn sizing_call_may_ask_for_a_larger_buffer() {
    assert!(AdapterListing::probe_accepted(0));
    assert!(AdapterListing::probe_accepted(ERROR_BUFFER_OVERFLOW));
    assert!(!AdapterListing::probe_accepted(5));
}

#[test]
fn walk_goes_past_adapters_that_are_not_up() {
    assert_eq!(pass_unless_up(&up(false)), Ok(false));
    assert_eq!(pass_unless_up(&down(true)), Ok(true));
    let table = listing(vec![down(true), up(false)]);
    assert_eq!(get_available_connections(&table, pass_unless_up), Ok(Some(1)));
}

#[test]
fn walk_stops_where_the_callback_says_so() {
    let table = listing(vec![down(false), down(true), up(false), up(true)]);
    let stop_at_up = |adapter: &AdapterAddresses| Ok(adapter.oper_status != IF_OPER_STATUS_UP);
    assert_eq!(get_available_connections(&table, stop_at_up), Ok(Some(2)));
    assert_eq!(get_available_connections(&table, |_: &AdapterAddresses| Ok(true)), Ok(None));
    assert_eq!(get_available_connections(&table, |_: &AdapterAddresses| Ok(false)), Ok(Some(0)));
    assert_eq!(
        get_available_connections(&listing(vec![]), |_: &AdapterAddresses| Ok(false)),
        Ok(None)
    );
}

#[test]
fn walk_ends_at_the_first_error_of_the_callback() {
    let table = listing(vec![down(false), up(false), up(true)]);
    let fail_at_up = |adapter: &AdapterAddresses| {
        if adapter.oper_status == IF_OPER_STATUS_UP {
            Err(WinError { code: -7 })
        } else {
            Ok(true)
        }
    };
    assert_eq!(get_available_connections(&table, fail_at_up), Err(WinError { code: -7 }));
}

#[test]
fn failed_query_visits_no_adapter() {
    let failed_probe =
        AdapterListing { probe_code: 5, fetch_code: 0, adapters: vec![up(true)] };
    let failed_fetch = AdapterListing {
        probe_code: ERROR_BUFFER_OVERFLOW,
        fetch_code: 8,
        adapters: vec![up(true)],
    };
    let never = |_: &AdapterAddresses| -> Result<bool, WinError> {
        panic!("no adapter is to be visited")
    };
    assert_eq!(
        get_available_connections(&failed_probe, never),
        Err(WinError { code: ACCESS_DENIED })
    );
    assert_eq!(
        get_available_connections(&failed_fetch, never),
        Err(WinError { code: 0x8007_0008u32 as i32 })
    );
    assert_eq!(has_available_connections(&failed_probe), Err(WinError { code: ACCESS_DENIED }));
    assert_eq!(has_dns(&failed_fetch), Err(WinError { code: 0x8007_0008u32 as i32 }));
}

#[test]
fn probe_failure_comes_before_fetch_failure() {
    let both = AdapterListing { probe_code: 5, fetch_code: 8, adapters: vec![] };
    assert_eq!(has_dns(&both), Err(WinError { code: ACCESS_DENIED }));
}

#[test]
fn availability_is_any_adapter_up() {
    assert_eq!(has_available_connections(&listing(vec![])), Ok(false));
    assert_eq!(has_available_connections(&listing(vec![down(true), down(false)])), Ok(false));
    assert_eq!(has_available_connections(&listing(vec![down(true), up(false)])), Ok(true));
}

#[test]
fn dns_is_read_from_the_first_adapter_up() {
    assert_eq!(has_dns(&listing(vec![])), Ok(false));
    assert_eq!(has_dns(&listing(vec![down(true)])), Ok(false));
    assert_eq!(has_dns(&listing(vec![down(true), up(true), up(false)])), Ok(true));
    assert_eq!(has_dns(&listing(vec![down(true), up(false), up(true)])), Ok(false));
}

#[test]
fn internet_connection_is_satisfied() {
    let info = get_network_info(
        &NetworkInfo::default(),
        &evidence(NLM_CONNECTIVITY_IPV4_INTERNET, true, true, vec![up(true)]),
    );
    assert_eq!(
        info,
        NetworkInfo {
            status: NetworkStatus::Satisfied,
            is_expensive: false,
            is_low_data_mode: false,
            has_ipv4: true,
            has_ipv6: false,
            has_dns: true,
        }
    );
}

#[test]
fn route_without_traffic_is_unsatisfied() {
    for mask in [NLM_CONNECTIVITY_IPV4_NOTRAFFIC, NLM_CONNECTIVITY_IPV6_NOTRAFFIC, 3] {
        let info =
            get_network_info(&NetworkInfo::default(), &evidence(mask, false, true, vec![up(true)]));
        assert_eq!(info.status, NetworkStatus::Unsatisfied);
        assert!(!info.has_ipv4);
        assert!(!info.has_ipv6);
    }
}

#[test]
fn adapter_up_without_reachability_is_satisfiable() {
    let not_connected = evidence(NLM_CONNECTIVITY_IPV4_NOTRAFFIC, false, false, vec![up(false)]);
    assert_eq!(
        get_network_info(&NetworkInfo::default(), &not_connected).status,
        NetworkStatus::Satisfiable
    );
    let local_only = evidence(0x20, false, true, vec![down(false), up(false)]);
    assert_eq!(
        get_network_info(&NetworkInfo::default(), &local_only).status,
        NetworkStatus::Satisfiable
    );
}

#[test]
fn no_adapter_up_is_invalid() {
    let info = get_network_info(
        &NetworkInfo { status: NetworkStatus::Satisfied, ..NetworkInfo::default() },
        &evidence(0, false, false, vec![down(true)]),
    );
    assert_eq!(info.status, NetworkStatus::Invalid);
    assert!(!info.has_dns);
}

#[test]
fn both_address_families_on_the_internet() {
    let mask = NLM_CONNECTIVITY_IPV4_INTERNET | NLM_CONNECTIVITY_IPV6_INTERNET;
    let info = get_network_info(&NetworkInfo::default(), &evidence(mask, true, true, vec![]));
    assert!(info.has_ipv4);
    assert!(info.has_ipv6);
    let info = get_network_info(
        &NetworkInfo::default(),
        &evidence(NLM_CONNECTIVITY_IPV6_INTERNET, true, true, vec![]),
    );
    assert!(!info.has_ipv4);
    assert!(info.has_ipv6);
}

#[test]
fn cost_fields_pass_through_connectivity_changes() {
    let prev = NetworkInfo { is_expensive: true, is_low_data_mode: true, ..NetworkInfo::default() };
    let info = get_network_info(&prev, &evidence(0, false, false, vec![]));
    assert!(info.is_expensive);
    assert!(info.is_low_data_mode);
}

#[test]
fn failed_queries_keep_previous_values() {
    let prev = NetworkInfo {
        status: NetworkStatus::Satisfiable,
        is_expensive: false,
        is_low_data_mode: false,
        has_ipv4: true,
        has_ipv6: true,
        has_dns: true,
    };
    let failed = NlmEvidence {
        connectivity: None,
        is_connected_to_internet: None,
        is_connected: None,
        adapters: AdapterListing { probe_code: 5, fetch_code: 0, adapters: vec![] },
    };
    assert_eq!(get_network_info(&prev, &failed), prev);
}

#[test]
fn failed_adapter_query_keeps_dns_but_not_the_rest() {
    let prev = NetworkInfo { has_dns: true, has_ipv6: true, ..NetworkInfo::default() };
    let partial = NlmEvidence {
        connectivity: Some(NLM_CONNECTIVITY_IPV4_INTERNET),
        is_connected_to_internet: Some(true),
        is_connected: Some(true),
        adapters: AdapterListing { probe_code: 5, fetch_code: 0, adapters: vec![] },
    };
    let info = get_network_info(&prev, &partial);
    assert_eq!(
        info,
        NetworkInfo {
            status: NetworkStatus::Satisfied,
            is_expensive: false,
            is_low_data_mode: false,
            has_ipv4: true,
            has_ipv6: false,
            has_dns: true,
        }
    );
}

#[test]
fn status_is_kept_where_the_decision_needs_a_failed_query() {
    let prev = NetworkInfo { status: NetworkStatus::Satisfied, ..NetworkInfo::default() };
    let no_internet_answer = NlmEvidence {
        is_connected_to_internet: None,
        ..evidence(0, false, false, vec![up(true)])
    };
    assert_eq!(get_network_info(&prev, &no_internet_answer).status, NetworkStatus::Satisfied);
    let no_connected_answer =
        NlmEvidence { is_connected: None, ..evidence(0, false, false, vec![up(true)]) };
    assert_eq!(get_network_info(&prev, &no_connected_answer).status, NetworkStatus::Satisfied);
    let no_mask = NlmEvidence { connectivity: None, ..evidence(0, false, true, vec![up(true)]) };
    assert_eq!(get_network_info(&prev, &no_mask).status, NetworkStatus::Satisfied);
    let no_mask_not_connected =
        NlmEvidence { connectivity: None, ..evidence(0, false, false, vec![up(true)]) };
    assert_eq!(
        get_network_info(&prev, &no_mask_not_connected).status,
        NetworkStatus::Satisfiable
    );
    let no_adapters = NlmEvidence {
        adapters: AdapterListing { probe_code: 5, fetch_code: 0, adapters: vec![] },
        ..evidence(0, false, false, vec![])
    };
    assert_eq!(get_network_info(&prev, &no_adapters).status, NetworkStatus::Satisfied);
    let internet_despite_failures = NlmEvidence {
        is_connected: None,
        connectivity: None,
        ..evidence(0, true, false, vec![])
    };
    assert_eq!(
        get_network_info(&NetworkInfo::default(), &internet_despite_failures).status,
        NetworkStatus::Satisfied
    );
}

#[test]
fn cost_above_unrestricted_is_low_data_mode() {
    let prev = NetworkInfo { is_expensive: true, ..NetworkInfo::default() };
    assert!(!cost_changed(&prev, 0).is_low_data_mode);
    assert!(!cost_changed(&prev, 1).is_low_data_mode);
    assert!(cost_changed(&prev, 2).is_low_data_mode);
    assert!(cost_changed(&prev, 0x10001).is_low_data_mode);
    assert_eq!(cost_changed(&prev, 2), NetworkInfo { is_low_data_mode: true, ..prev });
}

#[test]
fn bounded_data_plan_is_expensive() {
    let prev = NetworkInfo { is_low_data_mode: true, ..NetworkInfo::default() };
    assert_eq!(
        data_plan_status_changed(&prev, Some(500)),
        NetworkInfo { is_expensive: true, ..prev }
    );
    assert_eq!(data_plan_status_changed(&prev, Some(0)), NetworkInfo { is_expensive: true, ..prev });
    let expensive = NetworkInfo { is_expensive: true, ..prev };
    assert_eq!(data_plan_status_changed(&expensive, Some(DATA_LIMIT_UNBOUNDED)), prev);
    assert_eq!(data_plan_status_changed(&expensive, None), expensive);
}

#[test]
fn first_look_without_a_connection_changes_nothing() {
    let probe = NlmProbe {
        connection: None,
        evidence: evidence(NLM_CONNECTIVITY_IPV4_INTERNET, true, true, vec![up(true)]),
    };
    assert_eq!(probe_network_info(&NetworkInfo::default(), &probe), NetworkInfo::default());
}

#[test]
fn first_look_sets_cost_and_connectivity() {
    let probe = NlmProbe {
        connection: Some(ConnectionCost { cost: Some(2), data_limit_megabytes: Some(1024) }),
        evidence: evidence(NLM_CONNECTIVITY_IPV4_INTERNET, true, true, vec![up(true)]),
    };
    assert_eq!(
        probe_network_info(&NetworkInfo::default(), &probe),
        NetworkInfo {
            status: NetworkStatus::Satisfied,
            is_expensive: true,
            is_low_data_mode: true,
            has_ipv4: true,
            has_ipv6: false,
            has_dns: true,
        }
    );
    let unknown_cost = NlmProbe {
        connection: Some(ConnectionCost { cost: None, data_limit_megabytes: None }),
        ..probe.clone()
    };
    let info = probe_network_info(&NetworkInfo::default(), &unknown_cost);
    assert!(!info.is_expensive);
    assert!(!info.is_low_data_mode);
    assert_eq!(info.status, NetworkStatus::Satisfied);
}

#[test]
fn advise_errors_are_sorted_by_code() {
    assert_eq!(
        advise_error(0x8000_4003u32 as i32, String::from("ignored")),
        MonitorError::Subscription(SubscribeFailure::Advise(AdviseFailure::InvalidPointer))
    );
    assert_eq!(
        advise_error(0x8004_0201u32 as i32, String::from("ignored")),
        MonitorError::Subscription(SubscribeFailure::Advise(AdviseFailure::LimitReached))
    );
    assert_eq!(
        advise_error(0x8004_0202u32 as i32, String::from("ignored")),
        MonitorError::Subscription(SubscribeFailure::Advise(AdviseFailure::CannotConnect))
    );
    assert_eq!(
        advise_error(ACCESS_DENIED, String::from("Access is denied.")),
        MonitorError::Subscription(SubscribeFailure::Advise(AdviseFailure::Other(String::from(
            "Access is denied."
        ))))
    );
}

#[test]
fn advise_error_of_the_system_error_type() {
    let limit = windows_core::Error::from_hresult(windows_core::HRESULT(0x8004_0201u32 as i32));
    assert_eq!(
        handle_advise_error(limit),
        MonitorError::Subscription(SubscribeFailure::Advise(AdviseFailure::LimitReached))
    );
    let denied = windows_core::Error::from_hresult(windows_core::HRESULT(ACCESS_DENIED));
    let text = format!("{denied}");
    assert_eq!(
        handle_advise_error(denied),
        MonitorError::Subscription(SubscribeFailure::Advise(AdviseFailure::Other(text)))
    );
}

#[test]
fn cookies_share_one_subscription_number() {
    assert_eq!(pack_cookies(0, 0), 0);
    assert_eq!(pack_cookies(1, 2), 0x0000_0001_0000_0002);
    assert_eq!(pack_cookies(u32::MAX, 0), 0xFFFF_FFFF_0000_0000);
    assert_eq!(pack_cookies(0, u32::MAX), 0x0000_0000_FFFF_FFFF);
    assert_eq!(unpack_cookies(0x0000_0001_0000_0002), (1, 2));
    assert_eq!(unpack_cookies(u64::MAX), (u32::MAX, u32::MAX));
    for (list, cost) in [(0, 0), (7, 9), (u32::MAX, 1), (0x8000_0000, 0x8000_0000)] {
        assert_eq!(unpack_cookies(pack_cookies(list, cost)), (list, cost));
    }
}

#[test]
fn first_look_with_unknown_cost_still_reads_connectivity() {
    let probe = NlmProbe {
        connection: Some(ConnectionCost { cost: None, data_limit_megabytes: None }),
        evidence: evidence(NLM_CONNECTIVITY_IPV6_INTERNET, true, true, vec![up(false)]),
    };
    let prev = NetworkInfo { is_expensive: true, has_dns: true, ..NetworkInfo::default() };
    assert_eq!(
        probe_network_info(&prev, &probe),
        NetworkInfo {
            status: NetworkStatus::Satisfied,
            is_expensive: true,
            is_low_data_mode: false,
            has_ipv4: false,
            has_ipv6: true,
            has_dns: false,
        }
    );
}

#[test]
fn advise_error_follows_the_code_of_the_error() {
    for (code, expected) in [
        (0x8000_4003u32, AdviseFailure::InvalidPointer),
        (0x8004_0201u32, AdviseFailure::LimitReached),
        (0x8004_0202u32, AdviseFailure::CannotConnect),
    ] {
        let err = windows_core::Error::from_hresult(windows_core::HRESULT(code as i32));
        assert_eq!(
            handle_advise_error(err),
            MonitorError::Subscription(SubscribeFailure::Advise(expected))
        );
    }
}
