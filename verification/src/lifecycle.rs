//! The parts that every monitor is made of: the slot for the one active
//! handler, and the state machine of `start` and `stop`.
//!
//! Nothing here touches the native notification mechanism. Where a step needs
//! it, the step returns what is to be done, and the outcome is handed back
//! through `arm_succeeded` or `arm_failed`.

use crate::error::{MonitorError, SubscribeFailure};
use vstd::prelude::*;

verus! {

/// Where a monitor stands in its life.
#[derive(Debug, Clone, Copy, PartialEq, Eq, Structural)]
pub enum MonitorState {
    /// Built, never started.
    Created,
    /// A subscription is active and its pump runs.
    Running,
    /// Stopped; the last snapshot stays readable.
    Stopped,
}

/// How a snapshot is handed to the consumer.
#[derive(Debug, Clone, Copy, PartialEq, Eq, Structural)]
pub enum DeliveryMode {
    /// The pump waits until the consumer has taken the snapshot.
    Blocking,
    /// The snapshot is queued and the pump goes on.
    NonBlocking,
}

/// A registered consumer callback: the caller's name for it, whether it pins
/// the host process alive, and how it wants its deliveries.
#[derive(Debug, Clone, Copy, PartialEq, Eq, Structural)]
pub struct Handler {
    pub id: u64,
    pub keep_alive: bool,
    pub mode: DeliveryMode,
}

/// One value on its way to one handler.
#[derive(Debug, Clone, Copy, PartialEq, Eq)]
pub struct Delivery<T> {
    pub handler: Handler,
    pub value: T,
}

/// What `start` asks of its caller.
#[derive(Debug, Clone, Copy, PartialEq, Eq, Structural)]
pub enum StartAction {
    /// Register for native change notifications, start the pump, and report
    /// the outcome.
    Arm,
    /// Nothing: a pump runs or is being armed already, and the handler has
    /// been replaced.
    Replaced,
}

/// What `stop` asks of its caller: the subscription to unregister, if there
/// is one, and whether a pump runs that must be joined before the caller
/// returns.
#[derive(Debug, Clone, Copy, PartialEq, Eq, Structural)]
pub struct StopAction {
    pub unregister: Option<u64>,
    pub join: bool,
}

/// Holds at most one handler.
#[derive(Debug, Clone, Copy)]
pub struct Dispatcher {
    handler: Option<Handler>,
}

impl View for Dispatcher {
    type V = Option<Handler>;

    closed spec fn view(&self) -> Option<Handler> {
        self.handler
    }
}

impl Dispatcher {
    /// A dispatcher without a handler.
    pub fn new() -> (dispatcher: Dispatcher)
        ensures
            dispatcher@.is_none(),
    {
        Dispatcher { handler: None }
    }

    /// Registers `handler` in place of whatever was registered before.
    pub fn set_handler(&mut self, handler: Handler)
        ensures
            final(self)@ == Some(handler),
    {
        self.handler = Some(handler);
    }

    /// Removes the handler, if there is one.
    pub fn clear_handler(&mut self)
        ensures
            final(self)@.is_none(),
    {
        self.handler = None;
    }

    /// The handler now registered.
    pub fn handler(&self) -> (handler: Option<Handler>)
        ensures
            handler == self@,
    {
        self.handler
    }

    /// Addresses `value` to the registered handler; `None` without one.
    pub fn dispatch<T>(&self, value: T) -> (delivery: Option<Delivery<T>>)
        ensures
            delivery == spec_dispatch(self@, value),
    {
        match self.handler {
            Some(handler) => Some(Delivery { handler, value }),
            None => None,
        }
    }
}

/// The delivery of `value` to `handler`, if there is one.
pub open spec fn spec_dispatch<T>(handler: Option<Handler>, value: T) -> Option<Delivery<T>> {
    match handler {
        Some(handler) => Some(Delivery { handler, value }),
        None => None,
    }
}

/// The state machine of a monitor, as a mathematical value.
pub struct LifecycleView {
    pub state: MonitorState,
    pub handler: Option<Handler>,
    pub subscription: Option<u64>,
}

impl LifecycleView {
    /// A subscription is held exactly while running, and a running monitor
    /// has a handler.
    pub open spec fn wf(self) -> bool {
        &&& (self.state == MonitorState::Running) == self.subscription.is_some()
        &&& self.state == MonitorState::Running ==> self.handler.is_some()
    }

    /// A freshly built monitor.
    pub open spec fn created() -> LifecycleView {
        LifecycleView { state: MonitorState::Created, handler: None, subscription: None }
    }

    /// Whether `start` has asked for a pump and the outcome is still owed.
    pub open spec fn arming(self) -> bool {
        self.state != MonitorState::Running && self.handler.is_some()
    }

    /// After `start`: the handler is the new one, all else is unchanged.
    pub open spec fn start(self, handler: Handler) -> LifecycleView {
        LifecycleView { handler: Some(handler), ..self }
    }

    /// What `start` asks for: a pump, unless one runs or is being armed.
    pub open spec fn start_action(self) -> StartAction {
        if self.state == MonitorState::Running || self.arming() {
            StartAction::Replaced
        } else {
            StartAction::Arm
        }
    }

    /// After the pump was armed with `subscription`: running, where that was
    /// still waited for; unchanged otherwise.
    pub open spec fn arm_succeeded(self, subscription: u64) -> LifecycleView {
        if self.arming() {
            LifecycleView {
                state: MonitorState::Running,
                subscription: Some(subscription),
                ..self
            }
        } else {
            self
        }
    }

    /// The subscription that nobody waited for and that must be released.
    pub open spec fn surplus(self, subscription: u64) -> Option<u64> {
        if self.arming() {
            None
        } else {
            Some(subscription)
        }
    }

    /// After arming failed: as before `start`, where the outcome was still
    /// waited for; unchanged otherwise.
    pub open spec fn arm_failed(self) -> LifecycleView {
        if self.arming() {
            LifecycleView { handler: None, ..self }
        } else {
            self
        }
    }

    /// After `stop`.
    pub open spec fn stop(self) -> LifecycleView {
        LifecycleView { state: MonitorState::Stopped, handler: None, subscription: None }
    }

    /// What `stop` asks for.
    pub open spec fn stop_action(self) -> StopAction {
        StopAction {
            unregister: self.subscription,
            join: self.state == MonitorState::Running,
        }
    }

    /// The handler that a value committed now is forwarded to.
    pub open spec fn recipient(self) -> Option<Handler> {
        if self.state == MonitorState::Running {
            self.handler
        } else {
            None
        }
    }
}

/// The state machine of a monitor.
#[derive(Debug)]
pub struct Lifecycle {
    state: MonitorState,
    dispatcher: Dispatcher,
    subscription: Option<u64>,
}

impl View for Lifecycle {
    type V = LifecycleView;

    closed spec fn view(&self) -> LifecycleView {
        LifecycleView {
            state: self.state,
            handler: self.dispatcher@,
            subscription: self.subscription,
        }
    }
}

impl Lifecycle {
    #[verifier::type_invariant]
    spec fn inv(self) -> bool {
        self@.wf()
    }

    /// A lifecycle at its start.
    pub fn new() -> (lifecycle: Lifecycle)
        ensures
            lifecycle@ == LifecycleView::created(),
            lifecycle@.wf(),
    {
        Lifecycle { state: MonitorState::Created, dispatcher: Dispatcher::new(), subscription: None }
    }

    /// The state.
    pub fn state(&self) -> (state: MonitorState)
        ensures
            state == self@.state,
    {
        self.state
    }

    /// The handler now registered.
    pub fn handler(&self) -> (handler: Option<Handler>)
        ensures
            handler == self@.handler,
    {
        self.dispatcher.handler()
    }

    /// Registers `handler` in place of whatever was registered, and says
    /// whether a pump has to be armed for it.
    pub fn start(&mut self, handler: Handler) -> (action: StartAction)
        ensures
            final(self)@ == old(self)@.start(handler),
            action == old(self)@.start_action(),
            final(self)@.wf(),
    {
        let action = if self.is_running() || self.dispatcher.handler().is_some() {
            StartAction::Replaced
        } else {
            StartAction::Arm
        };
        let mut dispatcher = self.dispatcher;
        dispatcher.set_handler(handler);
        proof {
            use_type_invariant(&*self);
        }
        *self = Lifecycle { state: self.state, dispatcher, subscription: self.subscription };
        action
    }

    /// Takes note that the pump was armed under `subscription`. Hands the
    /// subscription back where nothing waited for it: it must be released.
    pub fn arm_succeeded(&mut self, subscription: u64) -> (surplus: Option<u64>)
        ensures
            final(self)@ == old(self)@.arm_succeeded(subscription),
            surplus == old(self)@.surplus(subscription),
            final(self)@.wf(),
    {
        proof {
            use_type_invariant(&*self);
        }
        if !self.is_running() && self.dispatcher.handler().is_some() {
            *self = Lifecycle {
                state: MonitorState::Running,
                dispatcher: self.dispatcher,
                subscription: Some(subscription),
            };
            None
        } else {
            Some(subscription)
        }
    }

    /// Takes note that the pump could not be armed, and gives the error to
    /// surface. The handler that waited for the pump is dropped.
    pub fn arm_failed(&mut self, failure: SubscribeFailure) -> (error: MonitorError)
        ensures
            final(self)@ == old(self)@.arm_failed(),
            error == MonitorError::Subscription(failure),
            final(self)@.wf(),
    {
        proof {
            use_type_invariant(&*self);
        }
        if !self.is_running() && self.dispatcher.handler().is_some() {
            *self = Lifecycle {
                state: self.state,
                dispatcher: Dispatcher::new(),
                subscription: self.subscription,
            };
        }
        MonitorError::Subscription(failure)
    }

    /// Ends the subscription and drops the handler. The result names the
    /// subscription to unregister and says whether a pump is to be joined.
    pub fn stop(&mut self) -> (action: StopAction)
        ensures
            final(self)@ == old(self)@.stop(),
            action == old(self)@.stop_action(),
            final(self)@.wf(),
    {
        let action = StopAction { unregister: self.subscription, join: self.is_running() };
        *self = Lifecycle {
            state: MonitorState::Stopped,
            dispatcher: Dispatcher::new(),
            subscription: None,
        };
        action
    }

    /// Addresses `value` to the handler, while running; `None` otherwise.
    pub fn dispatch<T>(&self, value: T) -> (delivery: Option<Delivery<T>>)
        ensures
            delivery == spec_dispatch(self@.recipient(), value),
    {
        if self.is_running() {
            self.dispatcher.dispatch(value)
        } else {
            None
        }
    }

    fn is_running(&self) -> (running: bool)
        ensures
            running == (self@.state == MonitorState::Running),
    {
        match self.state {
            MonitorState::Running => true,
            _ => false,
        }
    }
}

} // verus!
