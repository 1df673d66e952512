//! The two failures that a caller of the monitor can see, and the text that
//! goes with each.

use vstd::prelude::*;
use vstd::string::StringExecFns;

verus! {

/// Which native handle could not be created while a monitor was built.
#[derive(Debug, Clone, Copy, PartialEq, Eq, Structural)]
pub enum InitFailure {
    /// The NetworkManager client.
    NetworkManagerClient,
    /// The network list manager instance.
    ListManager,
    /// The network cost manager instance.
    CostManager,
    /// The connection point container of the list manager.
    ListManagerContainer,
    /// The connection point container of the cost manager.
    CostManagerContainer,
    /// The connection point for network events.
    NetworkEventsPoint,
    /// The connection point for cost events.
    CostEventsPoint,
}

/// Why a connection point turned an advisory sink away.
#[derive(Debug, Clone, PartialEq, Eq)]
pub enum AdviseFailure {
    /// The sink or the cookie pointer was not valid.
    InvalidPointer,
    /// The connection point has reached its limit of connections.
    LimitReached,
    /// The sink does not support the interface that the point requires.
    CannotConnect,
    /// Any other code, with the text the system gave for it.
    Other(String),
}

/// Why the native change notification could not be registered.
#[derive(Debug, Clone, PartialEq, Eq)]
pub enum SubscribeFailure {
    /// The signal could not be connected.
    SignalRejected,
    /// The cost event sink did not answer the query for its base interface.
    SinkQuery,
    /// A connection point refused the sink.
    Advise(AdviseFailure),
}

/// The errors that construction and `start` can return.
#[derive(Debug, Clone, PartialEq, Eq)]
pub enum MonitorError {
    /// No monitor exists: a native handle could not be created.
    Initialization(InitFailure),
    /// The monitor stays as it was: registration was rejected.
    Subscription(SubscribeFailure),
}

/// HRESULT of an invalid pointer argument.
pub const E_POINTER: i32 = -2147467261i32;

/// HRESULT of a connection point that accepts no more connections.
pub const CONNECT_E_ADVISELIMIT: i32 = -2147220991i32;

/// HRESULT of a sink without the required interface.
pub const CONNECT_E_CANNOTCONNECT: i32 = -2147220990i32;

impl InitFailure {
    pub open spec fn spec_message(self) -> Seq<char> {
        match self {
            InitFailure::NetworkManagerClient => "Error initializing NetworkManager client."@,
            InitFailure::ListManager =>
                "CoCreateInstance::CoCreateInstance INetworkListManager failed"@,
            InitFailure::CostManager =>
                "CoCreateInstance::CoCreateInstance INetworkCostManager failed"@,
            InitFailure::ListManagerContainer => "INetworkListManager::QueryInterface failed"@,
            InitFailure::CostManagerContainer => "INetworkCostManager::QueryInterface failed"@,
            InitFailure::NetworkEventsPoint =>
                "FindConnectionPoint::FindConnectionPoint(INetworkListManagerEvents) failed"@,
            InitFailure::CostEventsPoint =>
                "FindConnectionPoint::FindConnectionPoint(INetworkCostManagerEvents) failed"@,
        }
    }

    /// The text reported for this failure.
    pub fn message(&self) -> (text: String)
        ensures
            text@ == self.spec_message(),
    {
        match self {
            InitFailure::NetworkManagerClient => String::from_str(
                "Error initializing NetworkManager client.",
            ),
            InitFailure::ListManager => String::from_str(
                "CoCreateInstance::CoCreateInstance INetworkListManager failed",
            ),
            InitFailure::CostManager => String::from_str(
                "CoCreateInstance::CoCreateInstance INetworkCostManager failed",
            ),
            InitFailure::ListManagerContainer => String::from_str(
                "INetworkListManager::QueryInterface failed",
            ),
            InitFailure::CostManagerContainer => String::from_str(
                "INetworkCostManager::QueryInterface failed",
            ),
            InitFailure::NetworkEventsPoint => String::from_str(
                "FindConnectionPoint::FindConnectionPoint(INetworkListManagerEvents) failed",
            ),
            InitFailure::CostEventsPoint => String::from_str(
                "FindConnectionPoint::FindConnectionPoint(INetworkCostManagerEvents) failed",
            ),
        }
    }
}

impl AdviseFailure {
    /// Whether `self` is the failure that `code` and `text` stand for.
    pub open spec fn classifies(self, code: i32, text: Seq<char>) -> bool {
        match self {
            AdviseFailure::InvalidPointer => code == E_POINTER,
            AdviseFailure::LimitReached => code == CONNECT_E_ADVISELIMIT,
            AdviseFailure::CannotConnect => code == CONNECT_E_CANNOTCONNECT,
            AdviseFailure::Other(t) => code != E_POINTER && code != CONNECT_E_ADVISELIMIT && code
                != CONNECT_E_CANNOTCONNECT && t@ == text,
        }
    }

    /// Sorts an advise error by its code; the text is kept only for a code
    /// without a meaning of its own.
    pub fn classify(code: i32, text: String) -> (failure: AdviseFailure)
        ensures
            failure.classifies(code, text@),
    {
        if code == E_POINTER {
            AdviseFailure::InvalidPointer
        } else if code == CONNECT_E_ADVISELIMIT {
            AdviseFailure::LimitReached
        } else if code == CONNECT_E_CANNOTCONNECT {
            AdviseFailure::CannotConnect
        } else {
            AdviseFailure::Other(text)
        }
    }

    pub open spec fn spec_detail(self) -> Seq<char> {
        match self {
            AdviseFailure::InvalidPointer =>
                "The value in pUnkSink or pdwCookie is not valid. For example, either pointer may be NULL. "@,
            AdviseFailure::LimitReached =>
                "The connection point has already reached its limit of connections and cannot accept any more."@,
            AdviseFailure::CannotConnect =>
                "The sink does not support the interface required by this connection point."@,
            AdviseFailure::Other(text) => text@,
        }
    }

    /// What is said about this failure after the fixed opening words.
    pub fn detail(&self) -> (text: String)
        ensures
            text@ == self.spec_detail(),
    {
        match self {
            AdviseFailure::InvalidPointer => String::from_str(
                "The value in pUnkSink or pdwCookie is not valid. For example, either pointer may be NULL. ",
            ),
            AdviseFailure::LimitReached => String::from_str(
                "The connection point has already reached its limit of connections and cannot accept any more.",
            ),
            AdviseFailure::CannotConnect => String::from_str(
                "The sink does not support the interface required by this connection point.",
            ),
            AdviseFailure::Other(text) => text.clone(),
        }
    }
}

impl SubscribeFailure {
    pub open spec fn spec_message(self) -> Seq<char> {
        match self {
            SubscribeFailure::SignalRejected => "Error connecting the connectivity signal."@,
            SubscribeFailure::SinkQuery =>
                "Failed to query IUnknown::IID on INetworkConnectionCostEvents"@,
            SubscribeFailure::Advise(failure) =>
                "IConnectionPoint::Advise INetworkConnectionCostEvents failed "@
                + failure.spec_detail(),
        }
    }

    /// The text reported for this failure.
    pub fn message(&self) -> (text: String)
        ensures
            text@ == self.spec_message(),
    {
        match self {
            SubscribeFailure::SignalRejected => String::from_str(
                "Error connecting the connectivity signal.",
            ),
            SubscribeFailure::SinkQuery => String::from_str(
                "Failed to query IUnknown::IID on INetworkConnectionCostEvents",
            ),
            SubscribeFailure::Advise(failure) => {
                let detail = failure.detail();
                String::from_str(
                    "IConnectionPoint::Advise INetworkConnectionCostEvents failed ",
                ).concat(detail.as_str())
            },
        }
    }
}

impl MonitorError {
    pub open spec fn spec_message(self) -> Seq<char> {
        match self {
            MonitorError::Initialization(failure) => failure.spec_message(),
            MonitorError::Subscription(failure) => failure.spec_message(),
        }
    }

    /// The text reported to the caller.
    pub fn message(&self) -> (text: String)
        ensures
            text@ == self.spec_message(),
    {
        match self {
            MonitorError::Initialization(failure) => failure.message(),
            MonitorError::Subscription(failure) => failure.message(),
        }
    }
}

} // verus!
