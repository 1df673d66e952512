//! What holds of the translation and of the monitor whatever the evidence and
//! whatever the order of calls.

use crate::lifecycle::{
    Delivery, Handler, LifecycleView, MonitorState, StartAction, StopAction,
};
use crate::linux::{
    spec_connectivity_status, NM_CONNECTIVITY_FULL, NM_CONNECTIVITY_LIMITED, NM_CONNECTIVITY_NONE,
    NM_CONNECTIVITY_PORTAL,
};
use crate::monitor::{spec_translate, MonitorView, Signal};
use crate::windows::{any_up, NlmEvidence};
use crate::{NetworkInfo, NetworkStatus};
use vstd::prelude::*;

verus! {

/// A translation never yields the reserved status `Unknown`, unless the
/// snapshot before it had it.
pub proof fn lemma_status_never_unknown(prev: NetworkInfo, signal: Signal)
    requires
        prev.status != NetworkStatus::Unknown,
    ensures
        spec_translate(prev, signal).status != NetworkStatus::Unknown,
{
}

/// The status that a translation yields depends on the evidence alone, not
/// on what was translated before, wherever the evidence settles the status.
pub proof fn lemma_status_independent_of_history(
    first: NetworkInfo,
    second: NetworkInfo,
    signal: Signal,
)
    requires
        signal.determines_status(),
    ensures
        spec_translate(first, signal).status == spec_translate(second, signal).status,
{
}

/// Handling signals leaves the lifecycle as it is.
pub proof fn lemma_handling_keeps_lifecycle(monitor: MonitorView, signals: Seq<Signal>)
    ensures
        monitor.handle_all(signals).lifecycle == monitor.lifecycle,
    decreases signals.len(),
{
    if signals.len() > 0 {
        lemma_handling_keeps_lifecycle(monitor, signals.drop_last());
    }
}

/// Stopping twice is stopping once: the second `stop` changes nothing and
/// asks neither for an unregistration nor for a join.
pub proof fn lemma_stop_is_idempotent(monitor: MonitorView)
    ensures
        monitor.stop().stop() == monitor.stop(),
        monitor.stop().lifecycle.stop_action() == (StopAction { unregister: None, join: false }),
        monitor.stop().wf(),
{
}

/// A monitor that was never started has no pump: `stop` asks neither for an
/// unregistration nor for a join.
pub proof fn lemma_stop_before_start(seed: Signal)
    ensures
        MonitorView::created(seed).lifecycle.stop_action() == (StopAction {
            unregister: None,
            join: false,
        }),
        MonitorView::created(seed).stop().lifecycle.state == MonitorState::Stopped,
{
}

/// Stopping keeps the snapshot.
pub proof fn lemma_stop_keeps_snapshot(monitor: MonitorView)
    ensures
        monitor.stop().info == monitor.info,
{
}

/// After `stop` nothing is delivered, whatever signals still arrive; they
/// are committed all the same.
pub proof fn lemma_no_delivery_after_stop(monitor: MonitorView, signals: Seq<Signal>)
    ensures
        monitor.stop().deliveries(signals) == Seq::<Delivery<NetworkInfo>>::empty(),
        monitor.stop().handle_all(signals).info == monitor.handle_all(signals).info,
    decreases signals.len(),
{
    if signals.len() > 0 {
        lemma_no_delivery_after_stop(monitor, signals.drop_last());
        lemma_handling_keeps_lifecycle(monitor.stop(), signals.drop_last());
    }
}

/// Once `start` has registered a handler, every delivery goes to that
/// handler: none reaches a handler that was registered before it.
pub proof fn lemma_deliveries_go_to_latest_handler(
    monitor: MonitorView,
    handler: Handler,
    signals: Seq<Signal>,
)
    ensures
        forall|i: int|
            0 <= i < monitor.start(handler).deliveries(signals).len() ==> (
            #[trigger] monitor.start(handler).deliveries(signals)[i]).handler == handler,
    decreases signals.len(),
{
    if signals.len() > 0 {
        lemma_deliveries_go_to_latest_handler(monitor, handler, signals.drop_last());
        lemma_handling_keeps_lifecycle(monitor.start(handler), signals.drop_last());
    }
}

/// While a monitor runs, every signal gives exactly one delivery, in the
/// order of the signals, and each delivery carries the snapshot committed
/// for its signal.
pub proof fn lemma_one_delivery_per_signal(monitor: MonitorView, signals: Seq<Signal>)
    requires
        monitor.wf(),
        monitor.lifecycle.state == MonitorState::Running,
    ensures
        monitor.deliveries(signals).len() == signals.len(),
        forall|i: int|
            0 <= i < signals.len() ==> #[trigger] monitor.deliveries(signals)[i] == (Delivery {
                handler: monitor.lifecycle.handler.unwrap(),
                value: monitor.handle_all(signals.take(i + 1)).info,
            }),
    decreases signals.len(),
{
    if signals.len() > 0 {
        let earlier = signals.drop_last();
        lemma_one_delivery_per_signal(monitor, earlier);
        lemma_handling_keeps_lifecycle(monitor, earlier);
        assert forall|i: int| 0 <= i < signals.len() implies #[trigger] monitor.deliveries(
            signals,
        )[i] == (Delivery {
            handler: monitor.lifecycle.handler.unwrap(),
            value: monitor.handle_all(signals.take(i + 1)).info,
        }) by {
            if i < signals.len() - 1 {
                assert(signals.take(i + 1) == earlier.take(i + 1));
            } else {
                assert(signals.take(i + 1) == signals);
            }
        }
    }
}

/// After a run of signals the snapshot that `current` reads is the one that
/// was delivered last.
pub proof fn lemma_current_is_last_delivery(monitor: MonitorView, signals: Seq<Signal>)
    requires
        monitor.wf(),
        monitor.lifecycle.state == MonitorState::Running,
        signals.len() > 0,
    ensures
        monitor.deliveries(signals).len() > 0,
        monitor.deliveries(signals).last().value == monitor.handle_all(signals).info,
{
    lemma_one_delivery_per_signal(monitor, signals);
    assert(signals.take(signals.len() as int) == signals);
}

/// A second `start` silences the first handler: after it, no delivery goes
/// to the handler that it replaced.
pub proof fn lemma_replaced_handler_is_silent(
    monitor: MonitorView,
    first: Handler,
    second: Handler,
    signals: Seq<Signal>,
)
    requires
        first != second,
    ensures
        forall|i: int|
            0 <= i < monitor.start(first).start(second).deliveries(signals).len() ==> (
            #[trigger] monitor.start(first).start(second).deliveries(signals)[i]).handler != first,
{
    lemma_deliveries_go_to_latest_handler(monitor.start(first), second, signals);
}

/// The status table of NetworkManager: full connectivity is `Satisfied`,
/// limited connectivity and a captive portal are `Satisfiable`, no
/// connectivity is `Unsatisfied`, and every other state is `Invalid`.
pub proof fn lemma_network_manager_status_table(connectivity: i32)
    ensures
        connectivity == NM_CONNECTIVITY_FULL <==> spec_connectivity_status(connectivity)
            == NetworkStatus::Satisfied,
        connectivity == NM_CONNECTIVITY_LIMITED || connectivity == NM_CONNECTIVITY_PORTAL
            <==> spec_connectivity_status(connectivity) == NetworkStatus::Satisfiable,
        connectivity == NM_CONNECTIVITY_NONE <==> spec_connectivity_status(connectivity)
            == NetworkStatus::Unsatisfied,
        spec_connectivity_status(connectivity) != NetworkStatus::Unknown,
{
}

/// The status table of the list manager, where every query succeeded:
/// connected to the internet is `Satisfied`; else connected with an address
/// family that sees no traffic is `Unsatisfied`; else an adapter that is up
/// is `Satisfiable`; else the status is `Invalid`.
pub proof fn lemma_list_manager_status_table(evidence: NlmEvidence)
    requires
        evidence.is_connected_to_internet.is_some(),
        evidence.is_connected.is_some(),
        evidence.connectivity.is_some(),
        evidence.adapters.failure().is_none(),
    ensures
        evidence.status().is_some(),
        evidence.status() == Some(NetworkStatus::Satisfied)
            <==> evidence.is_connected_to_internet.unwrap(),
        evidence.status() == Some(NetworkStatus::Unsatisfied) <==> {
            &&& !evidence.is_connected_to_internet.unwrap()
            &&& evidence.is_connected.unwrap()
            &&& NlmEvidence::no_traffic(evidence.connectivity.unwrap())
        },
        evidence.status() == Some(NetworkStatus::Satisfiable) <==> {
            &&& !evidence.is_connected_to_internet.unwrap()
            &&& !(evidence.is_connected.unwrap() && NlmEvidence::no_traffic(
                evidence.connectivity.unwrap(),
            ))
            &&& any_up(evidence.adapters.adapters@)
        },
        evidence.status() == Some(NetworkStatus::Invalid) <==> {
            &&& !evidence.is_connected_to_internet.unwrap()
            &&& !(evidence.is_connected.unwrap() && NlmEvidence::no_traffic(
                evidence.connectivity.unwrap(),
            ))
            &&& !any_up(evidence.adapters.adapters@)
        },
{
}

/// Every step of the lifecycle keeps it well formed.
pub proof fn lemma_steps_keep_well_formed(
    lifecycle: LifecycleView,
    handler: Handler,
    subscription: u64,
)
    requires
        lifecycle.wf(),
    ensures
        LifecycleView::created().wf(),
        lifecycle.start(handler).wf(),
        lifecycle.arm_succeeded(subscription).wf(),
        lifecycle.arm_failed().wf(),
        lifecycle.stop().wf(),
{
}

/// A first `start` asks for a pump, and once the pump is armed the monitor
/// runs with the handler of that `start`.
pub proof fn lemma_start_then_armed_runs(
    lifecycle: LifecycleView,
    handler: Handler,
    subscription: u64,
)
    requires
        lifecycle.wf(),
        lifecycle.state != MonitorState::Running,
        lifecycle.handler.is_none(),
    ensures
        lifecycle.start_action() == StartAction::Arm,
        lifecycle.start(handler).arm_succeeded(subscription).state == MonitorState::Running,
        lifecycle.start(handler).arm_succeeded(subscription).recipient() == Some(handler),
        lifecycle.start(handler).surplus(subscription).is_none(),
        lifecycle.start(handler).arm_succeeded(subscription).stop_action() == (StopAction {
            unregister: Some(subscription),
            join: true,
        }),
{
}

/// A `start` on a running monitor replaces the handler and asks for no
/// second pump; the subscription stays the same.
pub proof fn lemma_restart_replaces_handler(lifecycle: LifecycleView, handler: Handler)
    requires
        lifecycle.wf(),
        lifecycle.state == MonitorState::Running,
    ensures
        lifecycle.start_action() == StartAction::Replaced,
        lifecycle.start(handler).state == MonitorState::Running,
        lifecycle.start(handler).subscription == lifecycle.subscription,
        lifecycle.start(handler).recipient() == Some(handler),
{
}

/// Where arming fails, the monitor is as it was before the `start`, so that
/// the `start` can be tried again.
pub proof fn lemma_failed_start_changes_nothing(lifecycle: LifecycleView, handler: Handler)
    requires
        lifecycle.wf(),
        lifecycle.state != MonitorState::Running,
        lifecycle.handler.is_none(),
    ensures
        lifecycle.start(handler).arm_failed() == lifecycle,
        lifecycle.start(handler).arm_failed().start_action() == StartAction::Arm,
{
}

/// After `stop` the monitor is stopped, has no handler and forwards to
/// nobody, and a further `stop` changes nothing and asks for nothing.
pub proof fn lemma_stopped_lifecycle(lifecycle: LifecycleView)
    ensures
        lifecycle.stop().state == MonitorState::Stopped,
        lifecycle.stop().recipient().is_none(),
        lifecycle.stop().stop() == lifecycle.stop(),
        lifecycle.stop().stop_action() == (StopAction { unregister: None, join: false }),
{
}

} // verus!
