//! The monitor: the last committed snapshot, the lifecycle, and the path of
//! one native signal from evidence to delivery.

use crate::error::{InitFailure, MonitorError, SubscribeFailure};
use crate::lifecycle::{
    spec_dispatch, Delivery, DeliveryMode, Handler, Lifecycle, LifecycleView, MonitorState,
    StartAction, StopAction,
};
use crate::linux::{network_changed, spec_network_changed, NmEvidence};
use crate::windows::{
    cost_changed, data_plan_status_changed, get_network_info, probe_network_info,
    spec_cost_changed, spec_data_plan_status_changed, spec_get_network_info,
    spec_probe_network_info, NlmEvidence, NlmProbe,
};
use crate::{NetworkInfo, NetworkStatus};
use vstd::prelude::*;

verus! {

/// One report of a native signal source, with the evidence read for it.
#[derive(Debug, Clone)]
pub enum Signal {
    /// A NetworkManager client reported a change, or was asked for the first
    /// time.
    NetworkManager(NmEvidence),
    /// The first look at the network through the list manager.
    Probe(NlmProbe),
    /// The list manager reported a change of connectivity.
    ConnectivityChanged(NlmEvidence),
    /// The cost manager reported a new cost of the connection.
    CostChanged(u32),
    /// The cost manager reported a change of the data plan; the data limit
    /// in megabytes, or `None` where it could not be read.
    DataPlanStatusChanged(Option<u32>),
}

impl Signal {
    /// Whether the evidence of the signal settles the status by itself: it
    /// speaks of connectivity, and no query that the decision needs failed.
    pub open spec fn determines_status(self) -> bool {
        match self {
            Signal::NetworkManager(_) => true,
            Signal::Probe(probe) => probe.connection.is_some() && probe.evidence.status().is_some(),
            Signal::ConnectivityChanged(evidence) => evidence.status().is_some(),
            Signal::CostChanged(_) => false,
            Signal::DataPlanStatusChanged(_) => false,
        }
    }
}

/// The snapshot that follows `prev` once `signal` has been translated.
pub open spec fn spec_translate(prev: NetworkInfo, signal: Signal) -> NetworkInfo {
    match signal {
        Signal::NetworkManager(evidence) => spec_network_changed(prev, evidence),
        Signal::Probe(probe) => spec_probe_network_info(prev, probe),
        Signal::ConnectivityChanged(evidence) => spec_get_network_info(prev, evidence),
        Signal::CostChanged(cost) => spec_cost_changed(prev, cost),
        Signal::DataPlanStatusChanged(limit) => spec_data_plan_status_changed(prev, limit),
    }
}

/// Translates one signal: the fields that its evidence determines take their
/// new values, the others stay as they are in `prev`.
pub fn translate(prev: &NetworkInfo, signal: &Signal) -> (info: NetworkInfo)
    ensures
        info == spec_translate(*prev, *signal),
{
    match signal {
        Signal::NetworkManager(evidence) => network_changed(prev, evidence),
        Signal::Probe(probe) => probe_network_info(prev, probe),
        Signal::ConnectivityChanged(evidence) => get_network_info(prev, evidence),
        Signal::CostChanged(cost) => cost_changed(prev, *cost),
        Signal::DataPlanStatusChanged(limit) => data_plan_status_changed(prev, *limit),
    }
}

/// Holds the latest committed snapshot. A commit replaces the whole snapshot
/// at once.
#[derive(Debug, Clone, Copy)]
pub struct ConnectivityStore {
    snapshot: NetworkInfo,
}

impl View for ConnectivityStore {
    type V = NetworkInfo;

    closed spec fn view(&self) -> NetworkInfo {
        self.snapshot
    }
}

impl ConnectivityStore {
    /// A store that holds the initial snapshot.
    pub fn new() -> (store: ConnectivityStore)
        ensures
            store@ == NetworkInfo::initial(),
    {
        ConnectivityStore { snapshot: NetworkInfo::default() }
    }

    /// The latest committed snapshot.
    pub fn read(&self) -> (snapshot: NetworkInfo)
        ensures
            snapshot == self@,
    {
        self.snapshot
    }

    /// Makes `snapshot` the latest committed snapshot.
    pub fn commit(&mut self, snapshot: NetworkInfo)
        ensures
            final(self)@ == snapshot,
    {
        self.snapshot = snapshot;
    }
}

/// A monitor as a mathematical value: its lifecycle and its snapshot.
pub struct MonitorView {
    pub lifecycle: LifecycleView,
    pub info: NetworkInfo,
}

impl MonitorView {
    /// The lifecycle is well formed.
    pub open spec fn wf(self) -> bool {
        self.lifecycle.wf()
    }

    /// The monitor that `new` builds from the first evidence.
    pub open spec fn created(seed: Signal) -> MonitorView {
        MonitorView {
            lifecycle: LifecycleView::created(),
            info: spec_translate(NetworkInfo::initial(), seed),
        }
    }

    /// After `start` or `start_weak`.
    pub open spec fn start(self, handler: Handler) -> MonitorView {
        MonitorView { lifecycle: self.lifecycle.start(handler), ..self }
    }

    /// After `arm_succeeded`.
    pub open spec fn arm_succeeded(self, subscription: u64) -> MonitorView {
        MonitorView { lifecycle: self.lifecycle.arm_succeeded(subscription), ..self }
    }

    /// After `arm_failed`.
    pub open spec fn arm_failed(self) -> MonitorView {
        MonitorView { lifecycle: self.lifecycle.arm_failed(), ..self }
    }

    /// After `stop`: the snapshot is kept.
    pub open spec fn stop(self) -> MonitorView {
        MonitorView { lifecycle: self.lifecycle.stop(), ..self }
    }

    /// After `handle`: the translated snapshot is committed, the lifecycle is
    /// untouched.
    pub open spec fn handle(self, signal: Signal) -> MonitorView {
        MonitorView { info: spec_translate(self.info, signal), ..self }
    }

    /// What `handle` returns: the new snapshot for the handler, while
    /// running.
    pub open spec fn delivery(self, signal: Signal) -> Option<Delivery<NetworkInfo>> {
        spec_dispatch(self.lifecycle.recipient(), spec_translate(self.info, signal))
    }

    /// After each of `signals` was handled in turn.
    pub open spec fn handle_all(self, signals: Seq<Signal>) -> MonitorView
        decreases signals.len(),
    {
        if signals.len() == 0 {
            self
        } else {
            self.handle_all(signals.drop_last()).handle(signals.last())
        }
    }

    /// All that was delivered while each of `signals` was handled in turn,
    /// in the order of delivery.
    pub open spec fn deliveries(self, signals: Seq<Signal>) -> Seq<Delivery<NetworkInfo>>
        decreases signals.len(),
    {
        if signals.len() == 0 {
            Seq::empty()
        } else {
            let earlier = self.deliveries(signals.drop_last());
            match self.handle_all(signals.drop_last()).delivery(signals.last()) {
                Some(delivery) => earlier.push(delivery),
                None => earlier,
            }
        }
    }
}

/// Reports live network reachability. It owns the snapshot and the lifecycle;
/// the native handles, the pump and the callbacks stay with the caller, who
/// carries out what `start` and `stop` ask for and hands every native signal
/// to `handle`.
#[derive(Debug)]
pub struct InternetMonitor {
    lifecycle: Lifecycle,
    store: ConnectivityStore,
}

impl View for InternetMonitor {
    type V = MonitorView;

    closed spec fn view(&self) -> MonitorView {
        MonitorView { lifecycle: self.lifecycle@, info: self.store@ }
    }
}

impl InternetMonitor {
    /// Builds a monitor from the first look at the network, which is to be
    /// had once the native handles are acquired. Where they could not be
    /// acquired, `probe` says which one failed: no monitor is built and that
    /// failure is the error.
    pub fn new(probe: Result<&Signal, InitFailure>) -> (r: Result<InternetMonitor, MonitorError>)
        ensures
            match probe {
                Ok(seed) => r matches Ok(monitor) && monitor@ == MonitorView::created(*seed)
                    && monitor@.wf() && monitor@.info.status != NetworkStatus::Unknown,
                Err(failure) => r matches Err(error) && error == MonitorError::Initialization(
                    failure,
                ),
            },
    {
        match probe {
            Err(failure) => Err(MonitorError::Initialization(failure)),
            Ok(seed) => {
                let mut store = ConnectivityStore::new();
                let info = translate(&store.read(), seed);
                proof {
                    crate::laws::lemma_status_never_unknown(NetworkInfo::initial(), *seed);
                }
                store.commit(info);
                Ok(InternetMonitor { lifecycle: Lifecycle::new(), store })
            },
        }
    }

    /// The latest committed snapshot.
    pub fn current(&self) -> (info: NetworkInfo)
        ensures
            info == self@.info,
    {
        self.store.read()
    }

    /// Where the monitor stands in its life.
    pub fn state(&self) -> (state: MonitorState)
        ensures
            state == self@.lifecycle.state,
    {
        self.lifecycle.state()
    }

    /// Registers the handler `id` in place of whatever was registered; the
    /// handler keeps the host process alive. The result says whether a pump
    /// has to be armed: it has, unless one runs or is being armed.
    pub fn start(&mut self, id: u64, mode: DeliveryMode) -> (action: StartAction)
        ensures
            final(self)@ == old(self)@.start(Handler { id, keep_alive: true, mode }),
            action == old(self)@.lifecycle.start_action(),
            final(self)@.wf(),
    {
        self.lifecycle.start(Handler { id, keep_alive: true, mode })
    }

    /// As `start`, with a handler that does not keep the host process alive.
    pub fn start_weak(&mut self, id: u64, mode: DeliveryMode) -> (action: StartAction)
        ensures
            final(self)@ == old(self)@.start(Handler { id, keep_alive: false, mode }),
            action == old(self)@.lifecycle.start_action(),
            final(self)@.wf(),
    {
        self.lifecycle.start(Handler { id, keep_alive: false, mode })
    }

    /// Takes note that the pump was armed under `subscription`: the monitor
    /// runs. Where no `start` waited for a pump, nothing changes and the
    /// subscription is handed back to be released.
    pub fn arm_succeeded(&mut self, subscription: u64) -> (surplus: Option<u64>)
        ensures
            final(self)@ == old(self)@.arm_succeeded(subscription),
            surplus == old(self)@.lifecycle.surplus(subscription),
            final(self)@.wf(),
    {
        self.lifecycle.arm_succeeded(subscription)
    }

    /// Takes note that the pump could not be armed, and gives the error that
    /// `start` is to return. The monitor is as it was before that `start`.
    pub fn arm_failed(&mut self, failure: SubscribeFailure) -> (error: MonitorError)
        ensures
            final(self)@ == old(self)@.arm_failed(),
            error == MonitorError::Subscription(failure),
            final(self)@.wf(),
    {
        self.lifecycle.arm_failed(failure)
    }

    /// Stops the monitor: the handler is dropped and the snapshot is kept.
    /// The result names the subscription to unregister, if there is one, and
    /// says whether a pump runs that the caller must join before it returns.
    pub fn stop(&mut self) -> (action: StopAction)
        ensures
            final(self)@ == old(self)@.stop(),
            action == old(self)@.lifecycle.stop_action(),
            final(self)@.wf(),
    {
        self.lifecycle.stop()
    }

    /// Takes one native signal: translates it, commits the new snapshot, and
    /// returns the delivery to make, if a handler is to get it.
    pub fn handle(&mut self, signal: &Signal) -> (delivery: Option<Delivery<NetworkInfo>>)
        ensures
            final(self)@ == old(self)@.handle(*signal),
            delivery == old(self)@.delivery(*signal),
    {
        let info = translate(&self.store.read(), signal);
        self.store.commit(info);
        self.lifecycle.dispatch(info)
    }
}

} // verus!
