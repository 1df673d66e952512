use network_change::error::{
    AdviseFailure, InitFailure, MonitorError, SubscribeFailure, CONNECT_E_ADVISELIMIT,
    CONNECT_E_CANNOTCONNECT, E_POINTER,
};

#[test]
fn initialization_messages() {
    assert_eq!(
        InitFailure::NetworkManagerClient.message(),
        "Error initializing NetworkManager client."
    );
    assert_eq!(
        InitFailure::ListManager.message(),
        "CoCreateInstance::CoCreateInstance INetworkListManager failed"
    );
    assert_eq!(
        InitFailure::CostManager.message(),
        "CoCreateInstance::CoCreateInstance INetworkCostManager failed"
    );
    assert_eq!(
        InitFailure::ListManagerContainer.message(),
        "INetworkListManager::QueryInterface failed"
    );
    assert_eq!(
        InitFailure::CostManagerContainer.message(),
        "INetworkCostManager::QueryInterface failed"
    );
    assert_eq!(
        InitFailure::NetworkEventsPoint.message(),
        "FindConnectionPoint::FindConnectionPoint(INetworkListManagerEvents) failed"
    );
    assert_eq!(
        InitFailure::CostEventsPoint.message(),
        "FindConnectionPoint::FindConnectionPoint(INetworkCostManagerEvents) failed"
    );
    assert_eq!(
        MonitorError::Initialization(InitFailure::ListManager).message(),
        InitFailure::ListManager.message()
    );
}

#[test]
fn error_code_constants() {
    assert_eq!(E_POINTER, 0x8000_4003u32 as i32);
    assert_eq!(CONNECT_E_ADVISELIMIT, 0x8004_0201u32 as i32);
    assert_eq!(CONNECT_E_CANNOTCONNECT, 0x8004_0202u32 as i32);
}

#[test]
fn advise_failures_by_code() {
    assert_eq!(AdviseFailure::classify(E_POINTER, String::new()), AdviseFailure::InvalidPointer);
    assert_eq!(
        AdviseFailure::classify(CONNECT_E_ADVISELIMIT, String::new()),
        AdviseFailure::LimitReached
    );
    assert_eq!(
        AdviseFailure::classify(CONNECT_E_CANNOTCONNECT, String::new()),
        AdviseFailure::CannotConnect
    );
    assert_eq!(
        AdviseFailure::classify(-1, String::from("Unspecified error")),
        AdviseFailure::Other(String::from("Unspecified error"))
    );
    assert_eq!(
        AdviseFailure::classify(0, String::from("done")),
        AdviseFailure::Other(String::from("done"))
    );
}

#[test]
fn subscription_messages() {
    assert_eq!(
        SubscribeFailure::SinkQuery.message(),
        "Failed to query IUnknown::IID on INetworkConnectionCostEvents"
    );
    assert_eq!(
        SubscribeFailure::SignalRejected.message(),
        "Error connecting the connectivity signal."
    );
    assert_eq!(
        SubscribeFailure::Advise(AdviseFailure::InvalidPointer).message(),
        "IConnectionPoint::Advise INetworkConnectionCostEvents failed The value in pUnkSink or pdwCookie is not valid. For example, either pointer may be NULL. "
    );
    assert_eq!(
        SubscribeFailure::Advise(AdviseFailure::LimitReached).message(),
        "IConnectionPoint::Advise INetworkConnectionCostEvents failed The connection point has already reached its limit of connections and cannot accept any more."
    );
    assert_eq!(
        SubscribeFailure::Advise(AdviseFailure::CannotConnect).message(),
        "IConnectionPoint::Advise INetworkConnectionCostEvents failed The sink does not support the interface required by this connection point."
    );
    assert_eq!(
        MonitorError::Subscription(SubscribeFailure::Advise(AdviseFailure::Other(String::from(
            "Access is denied. (0x80070005)"
        ))))
        .message(),
        "IConnectionPoint::Advise INetworkConnectionCostEvents failed Access is denied. (0x80070005)"
    );
}
