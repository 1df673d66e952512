//! Translation of what a path monitor of the Network framework reports, and
//! the monitor built on it.

use crate::lifecycle::{
    spec_dispatch, Delivery, DeliveryMode, Handler, Lifecycle, LifecycleView, StartAction,
    StopAction,
};
use crate::{NetworkInfo, NetworkStatus};
use vstd::prelude::*;
use vstd::std_specs::convert::FromSpecImpl;

verus! {

/// Raw path status: the path is not valid.
pub const NW_PATH_STATUS_INVALID: u32 = 0;

/// Raw path status: the path is valid and satisfies the constraints.
pub const NW_PATH_STATUS_SATISFIED: u32 = 1;

/// Raw path status: the path is valid but does not satisfy the constraints.
pub const NW_PATH_STATUS_UNSATISFIED: u32 = 2;

/// Raw path status: the path is potentially valid, a connection is required.
pub const NW_PATH_STATUS_SATISFIABLE: u32 = 3;

/// The underlying medium of a network link.
#[derive(Debug, Clone, Copy, PartialEq, Eq, Structural)]
pub enum NWInterfaceType {
    /// A virtual or otherwise unknown interface type.
    Other,
    /// A Wi-Fi link.
    Wifi,
    /// A cellular link.
    Cellular,
    /// A wired Ethernet link.
    Wired,
    /// A loopback link.
    Loopback,
}

/// Whether a usable route exists, as the path monitor puts it.
#[derive(Debug, Clone, Copy, PartialEq, Eq, Structural)]
pub enum NWPathStatus {
    /// The path is not valid.
    Invalid,
    /// The path is valid and satisfies the required constraints.
    Satisfied,
    /// The path is valid, but does not satisfy the required constraints.
    Unsatisfied,
    /// The path is potentially valid, but a connection is required.
    Satisfiable,
    /// Reserved: a raw status that has no name yet.
    Unknown,
}

/// One network path as delivered to a consumer.
#[derive(Debug, Clone, Copy, PartialEq, Eq, Structural)]
pub struct NWPath {
    pub status: NWPathStatus,
    pub is_expensive: bool,
    pub is_constrained: bool,
    pub has_ipv4: bool,
    pub has_ipv6: bool,
    pub has_dns: bool,
}

/// What the getters of a native path returned.
#[derive(Debug, Clone, Copy, PartialEq, Eq, Structural)]
pub struct PathEvidence {
    pub status: u32,
    pub is_expensive: bool,
    pub is_constrained: bool,
    pub has_ipv4: bool,
    pub has_ipv6: bool,
    pub has_dns: bool,
}

impl From<u32> for NWPathStatus {
    /// The status that a raw path status stands for.
    fn from(status: u32) -> (path_status: NWPathStatus) {
        if status == NW_PATH_STATUS_INVALID {
            NWPathStatus::Invalid
        } else if status == NW_PATH_STATUS_SATISFIED {
            NWPathStatus::Satisfied
        } else if status == NW_PATH_STATUS_UNSATISFIED {
            NWPathStatus::Unsatisfied
        } else if status == NW_PATH_STATUS_SATISFIABLE {
            NWPathStatus::Satisfiable
        } else {
            NWPathStatus::Unknown
        }
    }
}

impl FromSpecImpl<u32> for NWPathStatus {
    open spec fn obeys_from_spec() -> bool {
        true
    }

    open spec fn from_spec(status: u32) -> NWPathStatus {
        spec_path_status(status)
    }
}

/// The status that a raw path status stands for: the four named numbers
/// each stand for their status, every other number for `Unknown`.
pub open spec fn spec_path_status(status: u32) -> NWPathStatus {
    if status == NW_PATH_STATUS_INVALID {
        NWPathStatus::Invalid
    } else if status == NW_PATH_STATUS_SATISFIED {
        NWPathStatus::Satisfied
    } else if status == NW_PATH_STATUS_UNSATISFIED {
        NWPathStatus::Unsatisfied
    } else if status == NW_PATH_STATUS_SATISFIABLE {
        NWPathStatus::Satisfiable
    } else {
        NWPathStatus::Unknown
    }
}

impl NWInterfaceType {
    /// The number that the Network framework has for an interface type.
    pub open spec fn spec_raw(self) -> i32 {
        match self {
            NWInterfaceType::Other => 0,
            NWInterfaceType::Wifi => 1,
            NWInterfaceType::Cellular => 2,
            NWInterfaceType::Wired => 3,
            NWInterfaceType::Loopback => 4,
        }
    }

    /// Gives the number that the Network framework has for the type.
    #[verifier::when_used_as_spec(spec_raw)]
    pub fn raw(self) -> (raw: i32)
        ensures
            raw == self.spec_raw(),
    {
        match self {
            NWInterfaceType::Other => 0,
            NWInterfaceType::Wifi => 1,
            NWInterfaceType::Cellular => 2,
            NWInterfaceType::Wired => 3,
            NWInterfaceType::Loopback => 4,
        }
    }
}

impl NWPathStatus {
    /// The canonical status of the same name.
    pub open spec fn spec_status(self) -> NetworkStatus {
        match self {
            NWPathStatus::Invalid => NetworkStatus::Invalid,
            NWPathStatus::Satisfied => NetworkStatus::Satisfied,
            NWPathStatus::Unsatisfied => NetworkStatus::Unsatisfied,
            NWPathStatus::Satisfiable => NetworkStatus::Satisfiable,
            NWPathStatus::Unknown => NetworkStatus::Unknown,
        }
    }

    /// Gives the canonical status of the same name.
    #[verifier::when_used_as_spec(spec_status)]
    pub fn status(self) -> (status: NetworkStatus)
        ensures
            status == self.spec_status(),
    {
        match self {
            NWPathStatus::Invalid => NetworkStatus::Invalid,
            NWPathStatus::Satisfied => NetworkStatus::Satisfied,
            NWPathStatus::Unsatisfied => NetworkStatus::Unsatisfied,
            NWPathStatus::Satisfiable => NetworkStatus::Satisfiable,
            NWPathStatus::Unknown => NetworkStatus::Unknown,
        }
    }
}

/// The path that the evidence describes: the status by its number, the five
/// flags as they are.
pub open spec fn spec_ctx_to_path(evidence: PathEvidence) -> NWPath {
    NWPath {
        status: spec_path_status(evidence.status),
        is_expensive: evidence.is_expensive,
        is_constrained: evidence.is_constrained,
        has_ipv4: evidence.has_ipv4,
        has_ipv6: evidence.has_ipv6,
        has_dns: evidence.has_dns,
    }
}

/// Translates what the getters of a native path returned.
pub fn ctx_to_path(evidence: &PathEvidence) -> (path: NWPath)
    ensures
        path == spec_ctx_to_path(*evidence),
{
    NWPath {
        status: NWPathStatus::from(evidence.status),
        is_expensive: evidence.is_expensive,
        is_constrained: evidence.is_constrained,
        has_ipv4: evidence.has_ipv4,
        has_ipv6: evidence.has_ipv6,
        has_dns: evidence.has_dns,
    }
}

impl NWPath {
    /// The canonical snapshot of a path: a constrained path is one in low
    /// data mode.
    pub open spec fn spec_info(self) -> NetworkInfo {
        NetworkInfo {
            status: self.status.spec_status(),
            is_expensive: self.is_expensive,
            is_low_data_mode: self.is_constrained,
            has_ipv4: self.has_ipv4,
            has_ipv6: self.has_ipv6,
            has_dns: self.has_dns,
        }
    }

    /// Gives the canonical snapshot of the path.
    #[verifier::when_used_as_spec(spec_info)]
    pub fn info(self) -> (info: NetworkInfo)
        ensures
            info == self.spec_info(),
    {
        NetworkInfo {
            status: self.status.status(),
            is_expensive: self.is_expensive,
            is_low_data_mode: self.is_constrained,
            has_ipv4: self.has_ipv4,
            has_ipv6: self.has_ipv6,
            has_dns: self.has_dns,
        }
    }
}

/// A path monitor as a mathematical value.
pub struct PathMonitorView {
    pub lifecycle: LifecycleView,
    /// The interface type that paths are required to use, if any.
    pub required_interface: Option<NWInterfaceType>,
    /// The path of the latest update, if there was one.
    pub path: Option<NWPath>,
}

impl PathMonitorView {
    /// A freshly built path monitor.
    pub open spec fn created(required_interface: Option<NWInterfaceType>) -> PathMonitorView {
        PathMonitorView { lifecycle: LifecycleView::created(), required_interface, path: None }
    }

    /// After `start` or `start_weak`.
    pub open spec fn start(self, handler: Handler) -> PathMonitorView {
        PathMonitorView { lifecycle: self.lifecycle.start(handler), ..self }
    }

    /// After `arm_succeeded`.
    pub open spec fn arm_succeeded(self, subscription: u64) -> PathMonitorView {
        PathMonitorView { lifecycle: self.lifecycle.arm_succeeded(subscription), ..self }
    }

    /// After `stop`: the latest path is kept.
    pub open spec fn stop(self) -> PathMonitorView {
        PathMonitorView { lifecycle: self.lifecycle.stop(), ..self }
    }

    /// After `handle`.
    pub open spec fn handle(self, evidence: PathEvidence) -> PathMonitorView {
        PathMonitorView { path: Some(spec_ctx_to_path(evidence)), ..self }
    }

    /// What `handle` returns.
    pub open spec fn delivery(self, evidence: PathEvidence) -> Option<Delivery<NWPath>> {
        spec_dispatch(self.lifecycle.recipient(), spec_ctx_to_path(evidence))
    }
}

/// Watches for changes of the network path. The native monitor, its queue
/// and the callbacks stay with the caller, who carries out what `start` and
/// `stop` ask for and hands every path update to `handle`.
#[derive(Debug)]
pub struct NWPathMonitor {
    lifecycle: Lifecycle,
    required_interface: Option<NWInterfaceType>,
    path: Option<NWPath>,
}

impl View for NWPathMonitor {
    type V = PathMonitorView;

    closed spec fn view(&self) -> PathMonitorView {
        PathMonitorView {
            lifecycle: self.lifecycle@,
            required_interface: self.required_interface,
            path: self.path,
        }
    }
}

impl NWPathMonitor {
    /// A monitor of the paths over any interface.
    pub fn new() -> (monitor: NWPathMonitor)
        ensures
            monitor@ == PathMonitorView::created(None),
            monitor@.lifecycle.wf(),
    {
        NWPathMonitor { lifecycle: Lifecycle::new(), required_interface: None, path: None }
    }

    /// A monitor of the paths over interfaces of the given type.
    pub fn new_with_type(interface_type: NWInterfaceType) -> (monitor: NWPathMonitor)
        ensures
            monitor@ == PathMonitorView::created(Some(interface_type)),
            monitor@.lifecycle.wf(),
    {
        NWPathMonitor {
            lifecycle: Lifecycle::new(),
            required_interface: Some(interface_type),
            path: None,
        }
    }

    /// The interface type that the native monitor is to be created with.
    pub fn required_interface(&self) -> (interface_type: Option<NWInterfaceType>)
        ensures
            interface_type == self@.required_interface,
    {
        self.required_interface
    }

    /// The path of the latest update.
    pub fn current(&self) -> (path: Option<NWPath>)
        ensures
            path == self@.path,
    {
        self.path
    }

    /// Registers the handler `id` in place of whatever was registered; the
    /// handler keeps the host process alive. The result says whether the
    /// native monitor has to be started.
    pub fn start(&mut self, id: u64, mode: DeliveryMode) -> (action: StartAction)
        ensures
            final(self)@ == old(self)@.start(Handler { id, keep_alive: true, mode }),
            action == old(self)@.lifecycle.start_action(),
            final(self)@.lifecycle.wf(),
    {
        self.lifecycle.start(Handler { id, keep_alive: true, mode })
    }

    /// As `start`, with a handler that does not keep the host process alive.
    pub fn start_weak(&mut self, id: u64, mode: DeliveryMode) -> (action: StartAction)
        ensures
            final(self)@ == old(self)@.start(Handler { id, keep_alive: false, mode }),
            action == old(self)@.lifecycle.start_action(),
            final(self)@.lifecycle.wf(),
    {
        self.lifecycle.start(Handler { id, keep_alive: false, mode })
    }

    /// Takes note that the native monitor was started under `subscription`.
    /// Where no `start` waited for that, nothing changes and the subscription
    /// is handed back to be released.
    pub fn arm_succeeded(&mut self, subscription: u64) -> (surplus: Option<u64>)
        ensures
            final(self)@ == old(self)@.arm_succeeded(subscription),
            surplus == old(self)@.lifecycle.surplus(subscription),
            final(self)@.lifecycle.wf(),
    {
        self.lifecycle.arm_succeeded(subscription)
    }

    /// Stops the monitor: the handler is dropped. The result names the
    /// subscription to cancel, if there is one, and says whether deliveries
    /// in flight must be waited for.
    pub fn stop(&mut self) -> (action: StopAction)
        ensures
            final(self)@ == old(self)@.stop(),
            action == old(self)@.lifecycle.stop_action(),
            final(self)@.lifecycle.wf(),
    {
        self.lifecycle.stop()
    }

    /// Takes one path update: translates it, keeps the path, and returns the
    /// delivery to make, if a handler is to get it.
    pub fn handle(&mut self, evidence: &PathEvidence) -> (delivery: Option<Delivery<NWPath>>)
        ensures
            final(self)@ == old(self)@.handle(*evidence),
            delivery == old(self)@.delivery(*evidence),
    {
        let path = ctx_to_path(evidence);
        self.path = Some(path);
        self.lifecycle.dispatch(path)
    }
}

} // verus!
