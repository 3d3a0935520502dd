//! The event loop and its control-flow engine.
//!
//! The loop owns a queue of user events fed by any number of
//! `EventLoopProxy` handles, pumps events to a per-iteration handler, and
//! after every wake consults the `ControlFlow` value the handler wrote to
//! decide how to idle next. Termination is sticky: once the engine has
//! observed `ExitWithCode`, later writes by the handler are discarded.

use core::marker::PhantomData;
use std::rc::Rc;
use vstd::prelude::*;

use crate::channel::{
    channel_recv, channel_recv_timeout, channel_send, channel_try_recv, clock_now_millis,
    clone_sender, user_channel,
};
use crate::event::{Event, WindowEvent, WindowId};
use crate::monitor::{monitor_eq, monitors_seq_eq, MonitorHandle};
use crate::window::{ProgressBarState, Theme};

verus! {

/// Set by the handler given to the run entry points.
///
/// Indicates the desired behavior of the event loop after the idle marker is
/// delivered. Defaults to `Poll`. Within one run every change persists
/// between handler invocations, except that `ExitWithCode`, once set, cannot
/// be unset; a fresh run always starts back at `Poll`.
#[non_exhaustive]
#[derive(Copy, Clone, Debug, PartialEq, Eq, Structural)]
pub enum ControlFlow {
    /// When the current loop iteration finishes, immediately begin a new
    /// iteration, whether or not events are available.
    Poll,
    /// When the current loop iteration finishes, suspend the thread until an
    /// event arrives.
    Wait,
    /// When the current loop iteration finishes, suspend the thread until an
    /// event arrives or the deadline — wall-clock milliseconds since the
    /// Unix epoch — is reached.
    WaitUntil(u64),
    /// Deliver the final loop-destroyed notification and stop the loop,
    /// yielding the contained exit code. This variant is sticky: once the
    /// engine observes it, attempts to write anything else are reset back to
    /// the observed value.
    ExitWithCode(i32),
}

impl Default for ControlFlow {
    /// The loop begins every run polling.
    fn default() -> (r: ControlFlow)
        ensures
            r == ControlFlow::Poll,
    {
        ControlFlow::Poll
    }
}

/// What the engine observes after one handler invocation: the handler's
/// write takes effect unless the value the engine handed in was already
/// `ExitWithCode`, which is restored unchanged.
pub open spec fn engine_observe(previous: ControlFlow, written: ControlFlow) -> ControlFlow {
    if previous is ExitWithCode {
        previous
    } else {
        written
    }
}

/// The control flow the engine observes after a run that saw the given
/// sequence of handler writes, starting from the fresh value `Poll`.
pub open spec fn observed_after(writes: Seq<ControlFlow>) -> ControlFlow
    decreases writes.len(),
{
    if writes.len() == 0 {
        ControlFlow::Poll
    } else {
        engine_observe(observed_after(writes.drop_last()), writes.last())
    }
}

/// Every control-flow value the engine observes during a run with the given
/// handler writes: entry `i` is the value after the first `i` writes.
pub open spec fn observed_states(writes: Seq<ControlFlow>) -> Seq<ControlFlow> {
    Seq::new(writes.len() + 1, |i: int| observed_after(writes.take(i)))
}

/// Appending one handler write steps the observed value by one
/// `engine_observe`.
pub proof fn lemma_observed_push(writes: Seq<ControlFlow>, written: ControlFlow)
    ensures
        observed_after(writes.push(written)) == engine_observe(observed_after(writes), written),
{
    assert(writes.push(written).drop_last() =~= writes);
    assert(writes.push(written).last() == written);
}

/// Sticky exit: once the engine-observed value is `ExitWithCode(c)`, the
/// observed value after any further handler writes — whatever they are —
/// still equals `ExitWithCode(c)`.
pub proof fn lemma_sticky_exit(writes: Seq<ControlFlow>, more: Seq<ControlFlow>, c: i32)
    requires
        observed_after(writes) == ControlFlow::ExitWithCode(c),
    ensures
        observed_after(writes + more) == ControlFlow::ExitWithCode(c),
    decreases more.len(),
{
    if more.len() == 0 {
        assert(writes + more =~= writes);
    } else {
        lemma_sticky_exit(writes, more.drop_last(), c);
        assert((writes + more).drop_last() =~= writes + more.drop_last());
        assert((writes + more).last() == more.last());
    }
}

/// Sticky exit over the whole trace: if the engine-observed value after `i`
/// handler writes is `ExitWithCode(c)`, then every later observed value of
/// the same run equals `ExitWithCode(c)`, for all sequences of writes.
pub proof fn lemma_sticky_exit_trace(writes: Seq<ControlFlow>, i: int, j: int, c: i32)
    requires
        0 <= i <= j <= writes.len(),
        observed_states(writes)[i] == ControlFlow::ExitWithCode(c),
    ensures
        observed_states(writes)[j] == ControlFlow::ExitWithCode(c),
{
    assert(writes.take(j) =~= writes.take(i) + writes.subrange(i, j));
    lemma_sticky_exit(writes.take(i), writes.subrange(i, j), c);
}

/// A run's observed trace is a function of that run's handler writes alone,
/// and it begins at `Poll`: a later run therefore starts from `Poll` no
/// matter how an earlier run ended.
pub proof fn lemma_fresh_run_starts_at_poll(writes: Seq<ControlFlow>)
    ensures
        observed_states(writes)[0] == ControlFlow::Poll,
{
    assert(writes.take(0) =~= Seq::<ControlFlow>::empty());
}

/// Filter controlling the propagation of device events.
#[derive(Copy, Clone, PartialEq, Eq, PartialOrd, Ord, Hash, Debug, Structural)]
pub enum DeviceEventFilter {
    /// Always filter out device events.
    Always,
    /// Filter out device events while the window is not focused.
    Unfocused,
    /// Report all device events regardless of window focus.
    Never,
}

impl Default for DeviceEventFilter {
    /// Device events of unfocused windows are filtered out by default.
    fn default() -> (r: DeviceEventFilter)
        ensures
            r == DeviceEventFilter::Unfocused,
    {
        DeviceEventFilter::Unfocused
    }
}

/// The per-iteration callback: the engine hands it every event together
/// with the window-target view and the current control flow, which it may
/// overwrite to choose the loop's next idle behavior.
///
/// The handler keeps a ghost delivery log, one entry per invocation; the
/// run entry points' contracts are stated over the entries a run appends to
/// it. An implementation whose log obeys the contract of `on_event` gets
/// those guarantees; the engine behaves the same either way.
pub trait EventHandler<T> {
    /// The handler's delivery log: one entry per invocation, oldest first,
    /// holding the event received and the control-flow value the handler
    /// left behind.
    spec fn delivery_log(&self) -> Seq<(Event<T>, ControlFlow)>;

    /// Handle one event. `control_flow` holds the engine's current value and
    /// may be set to any value; once the engine has observed `ExitWithCode`,
    /// later writes are discarded. The invocation appends the event and the
    /// written value to the delivery log.
    fn on_event(
        &mut self,
        event: Event<T>,
        target: &EventLoopWindowTarget<T>,
        control_flow: &mut ControlFlow,
    )
        ensures
            final(self).delivery_log() == old(self).delivery_log().push(
                (event, *final(control_flow)),
            ),
    ;
}

/// The control-flow values of a delivery log, in delivery order.
pub open spec fn writes_of<T>(log: Seq<(Event<T>, ControlFlow)>) -> Seq<ControlFlow> {
    log.map_values(|entry: (Event<T>, ControlFlow)| entry.1)
}

/// The unified event under which a backend-reported window event is
/// delivered.
pub open spec fn window_event_entry<T>(reported: (WindowId, WindowEvent)) -> Event<T> {
    Event::WindowEvent { window_id: reported.0, event: reported.1 }
}

proof fn lemma_writes_of_push<T>(log: Seq<(Event<T>, ControlFlow)>, entry: (Event<T>, ControlFlow))
    ensures
        writes_of(log.push(entry)) == writes_of(log).push(entry.1),
{
    assert(writes_of(log.push(entry)) =~= writes_of(log).push(entry.1));
}

/// One delivery step of the pump's bookkeeping: appending an entry to the
/// handler's log extends the run's write sequence by the written value and
/// leaves everything already delivered in place.
proof fn lemma_pump_step<T, H: EventHandler<T>>(
    pre: H,
    post: H,
    log0: Seq<(Event<T>, ControlFlow)>,
    writes: Seq<ControlFlow>,
    event: Event<T>,
    written: ControlFlow,
)
    requires
        pre.delivery_log().len() == log0.len() + writes.len(),
        pre.delivery_log().take(log0.len() as int) == log0,
        writes == writes_of(pre.delivery_log().skip(log0.len() as int)),
        post.delivery_log() == pre.delivery_log().push((event, written)),
    ensures
        post.delivery_log().len() == log0.len() + writes.push(written).len(),
        post.delivery_log().take(log0.len() as int) == log0,
        writes.push(written) == writes_of(post.delivery_log().skip(log0.len() as int)),
        observed_after(writes.push(written)) == engine_observe(observed_after(writes), written),
        forall|i: int|
            0 <= i < pre.delivery_log().len() ==> post.delivery_log()[i] == pre.delivery_log()[i],
        post.delivery_log()[log0.len() + writes.len() as int] == (event, written),
{
    lemma_observed_push(writes, written);
    assert(post.delivery_log().take(log0.len() as int) =~= log0);
    assert(post.delivery_log().skip(log0.len() as int) =~= pre.delivery_log().skip(
        log0.len() as int,
    ).push((event, written)));
    lemma_writes_of_push(pre.delivery_log().skip(log0.len() as int), (event, written));
}

/// What one pump run delivers and returns, stated over the entries `delta`
/// that the run appended to the handler's delivery log: the backend's
/// reported window events come first, in reported order; and either the
/// handler's writes, folded through the sticky-exit machine from a fresh
/// `Poll`, end at `ExitWithCode(code)` and the final delivery is the
/// loop-destroyed notification, or the run performed more deliveries than a
/// 64-bit counter can hold — unreachable in practice — and gave up with
/// code 0.
pub open spec fn pump_delivery_ok<T>(
    reported: Seq<(WindowId, WindowEvent)>,
    delta: Seq<(Event<T>, ControlFlow)>,
    code: i32,
) -> bool {
    &&& delta.len() >= reported.len()
    &&& forall|i: int|
        0 <= i < reported.len() ==> (#[trigger] delta[i]).0 == window_event_entry::<T>(reported[i])
    &&& {
        ||| {
            &&& observed_after(writes_of(delta)) == ControlFlow::ExitWithCode(code)
            &&& delta.len() >= 2
            &&& delta.last().0 is LoopDestroyed
            &&& delta[delta.len() - 2].0 is RedrawEventsCleared
        }
        ||| {
            &&& code == 0
            &&& delta.len() >= u64::MAX
        }
    }
}

/// The monitor layout a backend reports, handed through the builder: the
/// displays present at startup and which of them, if any, is primary.
pub struct PlatformSpecificEventLoopAttributes {
    pub monitors: Vec<MonitorHandle>,
    /// Index into `monitors` of the primary monitor.
    pub primary: Option<usize>,
    /// The window events the backend reports at the loop's first wake, in
    /// the order it reports them.
    pub window_events: Vec<(WindowId, WindowEvent)>,
}

/// Object that allows building the event loop.
pub struct EventLoopBuilder<T> {
    pub platform_specific: PlatformSpecificEventLoopAttributes,
    pub _p: PhantomData<T>,
}

impl EventLoopBuilder<()> {
    /// Start building a new event loop, with no user-event payload.
    pub fn new() -> (r: EventLoopBuilder<()>)
        ensures
            r.platform_specific.monitors@.len() == 0,
            r.platform_specific.primary is None,
            r.platform_specific.window_events@.len() == 0,
    {
        Self::with_user_event()
    }
}

impl<T> EventLoopBuilder<T> {
    /// Start building a new event loop, with the given type as the user
    /// event type.
    pub fn with_user_event() -> (r: EventLoopBuilder<T>)
        ensures
            r.platform_specific.monitors@.len() == 0,
            r.platform_specific.primary is None,
            r.platform_specific.window_events@.len() == 0,
    {
        EventLoopBuilder {
            platform_specific: PlatformSpecificEventLoopAttributes {
                monitors: Vec::new(),
                primary: None,
                window_events: Vec::new(),
            },
            _p: PhantomData,
        }
    }

    /// Builds a new event loop over the configured monitor layout. A primary
    /// index that does not point into the monitor list is dropped. The
    /// target starts with the default device-event filter and no theme or
    /// progress request.
    ///
    /// Native backends additionally require that at most one loop exist per
    /// process and that it be built on the main thread; those are contracts
    /// of the process environment, checked by the embedding program.
    pub fn build(&mut self) -> (r: EventLoop<T>)
        ensures
            monitors_seq_eq(r.window_target.monitors@, old(self).platform_specific.monitors@),
            old(self).platform_specific.primary matches Some(i) ==> r.window_target.primary == (
            if i < old(self).platform_specific.monitors@.len() {
                Some(i)
            } else {
                None
            }),
            old(self).platform_specific.primary is None ==> r.window_target.primary is None,
            r.window_target.device_event_filter == DeviceEventFilter::Unfocused,
            r.window_target.theme is None,
            r.window_target.progress is None,
            r.pending_window_events@ == old(self).platform_specific.window_events@,
            *final(self) == *old(self),
    {
        let monitors = clone_monitor_list(&self.platform_specific.monitors);
        let pending_window_events = copy_window_events(&self.platform_specific.window_events);
        let primary = match self.platform_specific.primary {
            Some(i) => if i < monitors.len() {
                Some(i)
            } else {
                None
            },
            None => None,
        };
        let (user_tx, user_rx) = user_channel();
        EventLoop {
            window_target: EventLoopWindowTarget {
                monitors,
                primary,
                device_event_filter: DeviceEventFilter::Unfocused,
                theme: None,
                progress: None,
                _marker: PhantomData,
            },
            pending_window_events,
            user_tx,
            user_rx,
            channel: Ghost(vstd::pervasive::arbitrary()),
            _marker: PhantomData,
        }
    }
}

fn copy_window_events(events: &Vec<(WindowId, WindowEvent)>) -> (r: Vec<(WindowId, WindowEvent)>)
    ensures
        r@ == events@,
{
    let mut out: Vec<(WindowId, WindowEvent)> = Vec::new();
    let mut i: usize = 0;
    while i < events.len()
        invariant
            i <= events@.len(),
            out@ == events@.take(i as int),
        decreases events@.len() - i,
    {
        out.push(events[i]);
        i = i + 1;
        proof {
            assert(out@ =~= events@.take(i as int));
        }
    }
    proof {
        assert(out@ =~= events@);
    }
    out
}

fn clone_monitor_list(monitors: &Vec<MonitorHandle>) -> (r: Vec<MonitorHandle>)
    ensures
        monitors_seq_eq(r@, monitors@),
{
    let mut out: Vec<MonitorHandle> = Vec::new();
    let mut i: usize = 0;
    while i < monitors.len()
        invariant
            i <= monitors@.len(),
            out@.len() == i,
            forall|j: int| 0 <= j < i ==> monitor_eq(#[trigger] out@[j], monitors@[j]),
        decreases monitors@.len() - i,
    {
        out.push(monitors[i].clone());
        i = i + 1;
    }
    out
}

/// Target that associates windows with an event loop: the read/query view
/// handed to the handler on every invocation. Queries are `&self` reads of
/// an immutable snapshot; the configuration setters record the request.
pub struct EventLoopWindowTarget<T> {
    pub monitors: Vec<MonitorHandle>,
    /// Index into `monitors` of the primary monitor.
    pub primary: Option<usize>,
    pub device_event_filter: DeviceEventFilter,
    /// The theme most recently requested through `set_theme`.
    pub theme: Option<Theme>,
    /// The progress-indicator state most recently requested.
    pub progress: Option<ProgressBarState>,
    pub _marker: PhantomData<T>,
}

/// The monitor covers the point: its rectangle, anchored at its position
/// and extending by its size, contains `(x, y)`.
pub open spec fn monitor_contains(m: MonitorHandle, x: int, y: int) -> bool {
    &&& m.position.x <= x < m.position.x + m.size.width
    &&& m.position.y <= y < m.position.y + m.size.height
}

impl<T> Clone for EventLoopWindowTarget<T> {
    fn clone(&self) -> (r: Self)
        ensures
            monitors_seq_eq(r.monitors@, self.monitors@),
            r.primary == self.primary,
            r.device_event_filter == self.device_event_filter,
            r.theme == self.theme,
            r.progress == self.progress,
    {
        EventLoopWindowTarget {
            monitors: clone_monitor_list(&self.monitors),
            primary: self.primary,
            device_event_filter: self.device_event_filter,
            theme: self.theme,
            progress: self.progress,
            _marker: PhantomData,
        }
    }
}

impl<T> EventLoopWindowTarget<T> {
    /// The list of all monitors available on the system, in the order the
    /// backend reported them.
    pub fn available_monitors(&self) -> (r: Vec<MonitorHandle>)
        ensures
            monitors_seq_eq(r@, self.monitors@),
    {
        clone_monitor_list(&self.monitors)
    }

    /// The primary monitor of the system, or `None` if no monitor is
    /// primary.
    pub fn primary_monitor(&self) -> (r: Option<MonitorHandle>)
        ensures
            self.primary is None ==> r is None,
            self.primary matches Some(i) ==> {
                &&& i < self.monitors@.len() ==> (r matches Some(m) && monitor_eq(
                    m,
                    self.monitors@[i as int],
                ))
                &&& i >= self.monitors@.len() ==> r is None
            },
    {
        match self.primary {
            Some(i) => if i < self.monitors.len() {
                Some(self.monitors[i].clone())
            } else {
                None
            },
            None => None,
        }
    }

    /// The first monitor, in reported order, whose rectangle contains the
    /// given point, or `None` when no monitor does.
    pub fn monitor_from_point(&self, x: i32, y: i32) -> (r: Option<MonitorHandle>)
        ensures
            r is None ==> forall|i: int|
                0 <= i < self.monitors@.len() ==> !monitor_contains(
                    #[trigger] self.monitors@[i],
                    x as int,
                    y as int,
                ),
            r matches Some(m) ==> exists|i: int|
                {
                    &&& 0 <= i < self.monitors@.len()
                    &&& monitor_eq(m, #[trigger] self.monitors@[i])
                    &&& monitor_contains(self.monitors@[i], x as int, y as int)
                    &&& forall|j: int|
                        0 <= j < i ==> !monitor_contains(self.monitors@[j], x as int, y as int)
                },
    {
        let mut i: usize = 0;
        while i < self.monitors.len()
            invariant
                i <= self.monitors@.len(),
                forall|j: int|
                    0 <= j < i ==> !monitor_contains(#[trigger] self.monitors@[j], x as int, y as int),
            decreases self.monitors@.len() - i,
        {
            let m = &self.monitors[i];
            let xi = x as i64;
            let yi = y as i64;
            let left = m.position.x as i64;
            let top = m.position.y as i64;
            let right = left + m.size.width as i64;
            let bottom = top + m.size.height as i64;
            if left <= xi && xi < right && top <= yi && yi < bottom {
                return Some(self.monitors[i].clone());
            }
            i = i + 1;
        }
        None
    }

    /// Change the device-event filter mode.
    pub fn set_device_event_filter(&mut self, filter: DeviceEventFilter)
        ensures
            final(self).device_event_filter == filter,
            final(self).monitors == old(self).monitors,
            final(self).primary == old(self).primary,
            final(self).theme == old(self).theme,
            final(self).progress == old(self).progress,
    {
        self.device_event_filter = filter;
    }

    /// Record a progress-indicator request.
    pub fn set_progress_bar(&mut self, progress: ProgressBarState)
        ensures
            final(self).progress == Some(progress),
            final(self).monitors == old(self).monitors,
            final(self).primary == old(self).primary,
            final(self).device_event_filter == old(self).device_event_filter,
            final(self).theme == old(self).theme,
    {
        self.progress = Some(progress);
    }

    /// Record the theme for the application; `None` returns to the system
    /// default.
    pub fn set_theme(&mut self, theme: Option<Theme>)
        ensures
            final(self).theme == theme,
            final(self).monitors == old(self).monitors,
            final(self).primary == old(self).primary,
            final(self).device_event_filter == old(self).device_event_filter,
            final(self).progress == old(self).progress,
    {
        self.theme = theme;
    }
}

/// Provides a way to retrieve events from the system and from registered
/// windows, and delivers them to one handler on the thread that runs it.
/// Owns the receiving end of the user-event queue: once the loop is dropped
/// or consumed, every proxy send fails.
#[verifier::reject_recursive_types(T)]
pub struct EventLoop<T> {
    pub window_target: EventLoopWindowTarget<T>,
    /// Window events not yet reported: the backend delivers them at the
    /// next wake, ahead of queued user events.
    pub pending_window_events: Vec<(WindowId, WindowEvent)>,
    pub user_tx: std::sync::mpsc::Sender<T>,
    pub user_rx: std::sync::mpsc::Receiver<T>,
    /// Ghost identity of the user-event channel this loop drains; every
    /// proxy bound to this loop carries the same identity.
    pub channel: Ghost<int>,
    /// The loop is bound to the thread that created it: neither `Send` nor
    /// `Sync`.
    pub _marker: PhantomData<Rc<()>>,
}

impl EventLoop<()> {
    /// Builds an event loop with an empty monitor layout and no user-event
    /// payload.
    pub fn new() -> (r: EventLoop<()>)
        ensures
            r.window_target.monitors@.len() == 0,
            r.window_target.primary is None,
            r.window_target.device_event_filter == DeviceEventFilter::Unfocused,
            r.window_target.theme is None,
            r.window_target.progress is None,
            r.pending_window_events@.len() == 0,
    {
        let mut builder = EventLoopBuilder::new();
        builder.build()
    }
}

impl Default for EventLoop<()> {
    /// Equivalent to `EventLoop::new`.
    fn default() -> (r: EventLoop<()>)
        ensures
            r.window_target.monitors@.len() == 0,
            r.window_target.primary is None,
            r.pending_window_events@.len() == 0,
    {
        EventLoop::new()
    }
}

impl<T> EventLoop<T> {
    /// The read/query view of this loop.
    pub fn window_target(&self) -> (r: &EventLoopWindowTarget<T>)
        ensures
            r == &self.window_target,
    {
        &self.window_target
    }

    /// Creates a proxy that can be used to dispatch user events to this
    /// event loop from any thread: the proxy is bound to this loop's own
    /// user-event channel. Does not affect control flow or pump state.
    pub fn create_proxy(&self) -> (r: EventLoopProxy<T>)
        ensures
            r.channel == self.channel,
    {
        EventLoopProxy { sender: clone_sender(&self.user_tx), channel: self.channel }
    }

    /// Hands each event to the handler and pumps until the handler requests
    /// termination; consumes the loop, so every proxy send fails afterwards.
    /// Returns the exit code observed through the sticky-exit state machine;
    /// the embedding program is expected to end the process with it. What
    /// the run delivered and how the code was chosen is stated by
    /// `pump_delivery_ok` over the entries appended to the handler's
    /// delivery log.
    pub fn run<H: EventHandler<T>>(self, handler: &mut H) -> (code: i32)
        ensures
            final(handler).delivery_log().len() > old(handler).delivery_log().len(),
            final(handler).delivery_log().take(old(handler).delivery_log().len() as int) == old(
                handler,
            ).delivery_log(),
            pump_delivery_ok(
                self.pending_window_events@,
                final(handler).delivery_log().skip(old(handler).delivery_log().len() as int),
                code,
            ),
    {
        let mut this = self;
        let code = this.pump_events(handler);
        code
    }

    /// One run of the pump: control flow starts fresh at `Poll`, the
    /// backend's reported window events are delivered first in reported
    /// order, then the loop waits as the current control flow directs,
    /// drains ready user events in arrival order, delivers the idle marker
    /// once per wake after them, and keeps iterating until the sticky-exit
    /// machine observes `ExitWithCode`; the final event delivered is the
    /// loop-destroyed notification. All of this is stated by
    /// `pump_delivery_ok` over the entries this run appends to the
    /// handler's delivery log.
    #[verifier::loop_isolation(false)]
    pub(crate) fn pump_events<H: EventHandler<T>>(&mut self, handler: &mut H) -> (code: i32)
        ensures
            final(handler).delivery_log().len() > old(handler).delivery_log().len(),
            final(handler).delivery_log().take(old(handler).delivery_log().len() as int) == old(
                handler,
            ).delivery_log(),
            pump_delivery_ok(
                old(self).pending_window_events@,
                final(handler).delivery_log().skip(old(handler).delivery_log().len() as int),
                code,
            ),
            final(self).pending_window_events@.len() == 0,
            final(self).window_target == old(self).window_target,
            final(self).channel == old(self).channel,
    {
        let ghost log0 = handler.delivery_log();
        let ghost reported = self.pending_window_events@;
        let mut control_flow: ControlFlow = ControlFlow::default();
        let ghost mut writes: Seq<ControlFlow> = Seq::empty();

        // The first wake of a fresh run polls, so the backend's window
        // events are reported before anything can block.
        while self.pending_window_events.len() > 0
            invariant
                handler.delivery_log().len() == log0.len() + writes.len(),
                handler.delivery_log().take(log0.len() as int) == log0,
                writes == writes_of(handler.delivery_log().skip(log0.len() as int)),
                control_flow == observed_after(writes),
                writes.len() + self.pending_window_events@.len() == reported.len(),
                self.pending_window_events@ == reported.skip(writes.len() as int),
                self.window_target == old(self).window_target,
                self.channel == old(self).channel,
                forall|i: int|
                    0 <= i < writes.len() ==> (#[trigger] handler.delivery_log()[log0.len() + i]).0
                        == window_event_entry::<T>(reported[i]),
            decreases self.pending_window_events@.len(),
        {
            let ghost pre = *handler;
            let ghost k = writes.len() as int;
            let (window_id, window_event) = self.pending_window_events.remove(0);
            proof {
                assert(reported[k] == (window_id, window_event));
                assert(self.pending_window_events@ =~= reported.skip(k + 1));
            }
            let w = self.dispatch(
                handler,
                Event::WindowEvent { window_id, event: window_event },
                &mut control_flow,
            );
            proof {
                lemma_pump_step(
                    pre,
                    *handler,
                    log0,
                    writes,
                    Event::WindowEvent { window_id, event: window_event },
                    w@,
                );
                writes = writes.push(w@);
                assert((handler.delivery_log()[log0.len() + k]).0 == window_event_entry::<T>(
                    reported[k],
                ));
            }
        }

        // Termination bookkeeping: the loop is total only up to a number of
        // wakes no real run can reach (one wake per iteration, so exhausting
        // the counter would take centuries). If it ever were exhausted, the
        // pump would stop as if the handler had requested exit code 0, and
        // the contract's second disjunct records exactly that.
        let mut wakes_left: u64 = u64::MAX;
        loop
            invariant
                handler.delivery_log().len() == log0.len() + writes.len(),
                handler.delivery_log().take(log0.len() as int) == log0,
                writes == writes_of(handler.delivery_log().skip(log0.len() as int)),
                control_flow == observed_after(writes),
                writes.len() >= reported.len(),
                forall|i: int|
                    0 <= i < reported.len() ==> (#[trigger] handler.delivery_log()[log0.len() + i]).0
                        == window_event_entry::<T>(reported[i]),
                self.pending_window_events@.len() == 0,
                writes.len() + wakes_left >= u64::MAX,
            decreases wakes_left,
        {
            if wakes_left == 0 {
                proof {
                    let delta = handler.delivery_log().skip(log0.len() as int);
                    assert(delta.len() == writes.len());
                    assert forall|i: int| 0 <= i < reported.len() implies (#[trigger] delta[i]).0
                        == window_event_entry::<T>(reported[i]) by {
                        assert(delta[i] == handler.delivery_log()[log0.len() + i]);
                    }
                }
                return 0;
            }
            wakes_left = wakes_left - 1;
            let mut batch: Vec<T> = self.wait_for_events(&control_flow);
            while batch.len() > 0
                invariant
                    handler.delivery_log().len() == log0.len() + writes.len(),
                    handler.delivery_log().take(log0.len() as int) == log0,
                    writes == writes_of(handler.delivery_log().skip(log0.len() as int)),
                    control_flow == observed_after(writes),
                    writes.len() >= reported.len(),
                    forall|i: int|
                        0 <= i < reported.len() ==> (#[trigger] handler.delivery_log()[log0.len()
                            + i]).0 == window_event_entry::<T>(reported[i]),
                    self.pending_window_events@.len() == 0,
                    writes.len() + wakes_left + 1 >= u64::MAX,
                decreases batch@.len(),
            {
                let ghost pre = *handler;
                let payload = batch.remove(0);
                let w = self.dispatch(handler, Event::UserEvent(payload), &mut control_flow);
                proof {
                    lemma_pump_step(pre, *handler, log0, writes, Event::UserEvent(payload), w@);
                    writes = writes.push(w@);
                }
            }
            let ghost pre = *handler;
            let w = self.dispatch(handler, Event::RedrawEventsCleared, &mut control_flow);
            proof {
                lemma_pump_step(pre, *handler, log0, writes, Event::RedrawEventsCleared, w@);
                writes = writes.push(w@);
                assert(handler.delivery_log()[log0.len() + writes.len() - 1] == (
                    Event::<T>::RedrawEventsCleared,
                    w@,
                ));
            }
            if let ControlFlow::ExitWithCode(code) = control_flow {
                let ghost pre = *handler;
                let w = self.dispatch(handler, Event::LoopDestroyed, &mut control_flow);
                proof {
                    lemma_pump_step(pre, *handler, log0, writes, Event::LoopDestroyed, w@);
                    writes = writes.push(w@);
                    let delta = handler.delivery_log().skip(log0.len() as int);
                    assert(delta.len() == writes.len());
                    assert(delta[writes.len() - 1] == handler.delivery_log()[log0.len()
                        + writes.len() - 1]);
                    assert(delta.last().0 is LoopDestroyed);
                    assert(delta[writes.len() - 2] == handler.delivery_log()[log0.len()
                        + writes.len() - 2]);
                    assert(delta[writes.len() - 2].0 is RedrawEventsCleared);
                    assert(observed_after(writes) == ControlFlow::ExitWithCode(code));
                    assert forall|i: int| 0 <= i < reported.len() implies (#[trigger] delta[i]).0
                        == window_event_entry::<T>(reported[i]) by {
                        assert(delta[i] == handler.delivery_log()[log0.len() + i]);
                    }
                }
                return code;
            }
        }
    }

    /// Deliver one event and enforce the sticky-exit invariant: the handler
    /// is invoked exactly once with the event and may write any control
    /// flow, but if the engine's value was already `ExitWithCode` it is
    /// restored. The returned ghost value is what the handler wrote.
    fn dispatch<H: EventHandler<T>>(
        &self,
        handler: &mut H,
        event: Event<T>,
        control_flow: &mut ControlFlow,
    ) -> (written: Ghost<ControlFlow>)
        ensures
            *final(control_flow) == engine_observe(*old(control_flow), written@),
            final(handler).delivery_log() == old(handler).delivery_log().push((event, written@)),
    {
        let previous = *control_flow;
        handler.on_event(event, &self.window_target, control_flow);
        let written = Ghost(*control_flow);
        if let ControlFlow::ExitWithCode(code) = previous {
            *control_flow = ControlFlow::ExitWithCode(code);
        }
        written
    }

    /// Wait as the control flow directs and collect the user events ready
    /// for this wake: `Poll` does not block, `Wait` blocks until an event
    /// arrives, `WaitUntil` blocks at most until the deadline, and
    /// `ExitWithCode` skips waiting so the loop can proceed straight to
    /// termination handling.
    fn wait_for_events(&self, control_flow: &ControlFlow) -> (batch: Vec<T>)
        ensures
            *control_flow is ExitWithCode ==> batch@.len() == 0,
    {
        match *control_flow {
            ControlFlow::Poll => {
                let mut batch: Vec<T> = Vec::new();
                self.drain_ready(&mut batch);
                batch
            },
            ControlFlow::Wait => {
                let mut batch: Vec<T> = Vec::new();
                match channel_recv(&self.user_rx) {
                    Ok(payload) => {
                        batch.push(payload);
                        self.drain_ready(&mut batch);
                    },
                    Err(_) => {},
                }
                batch
            },
            ControlFlow::WaitUntil(deadline) => {
                let mut batch: Vec<T> = Vec::new();
                let now = clock_now_millis();
                let remaining = if deadline > now {
                    deadline - now
                } else {
                    0
                };
                match channel_recv_timeout(&self.user_rx, remaining) {
                    Ok(payload) => {
                        batch.push(payload);
                        self.drain_ready(&mut batch);
                    },
                    Err(_) => {},
                }
                batch
            },
            ControlFlow::ExitWithCode(_) => Vec::new(),
        }
    }

    /// Move the queued user events into `batch` without blocking, preserving
    /// arrival order. At most a (practically unreachable) bounded number of
    /// events is taken per call; anything beyond it stays queued and is
    /// picked up at the next wake.
    fn drain_ready(&self, batch: &mut Vec<T>) {
        let mut budget: u64 = u64::MAX;
        while budget > 0
            decreases budget,
        {
            budget = budget - 1;
            match channel_try_recv(&self.user_rx) {
                Ok(payload) => {
                    batch.push(payload);
                },
                Err(_) => {
                    return ;
                },
            }
        }
    }
}

/// Used to send custom events to an `EventLoop` from any thread.
#[verifier::reject_recursive_types(T)]
pub struct EventLoopProxy<T> {
    pub sender: std::sync::mpsc::Sender<T>,
    /// Ghost identity of the user-event channel this proxy feeds: the one
    /// of the loop it was created from.
    pub channel: Ghost<int>,
}

impl<T> Clone for EventLoopProxy<T> {
    /// Another proxy bound to the same loop: it feeds the same user-event
    /// channel as `self`.
    fn clone(&self) -> (r: Self)
        ensures
            r.channel == self.channel,
    {
        EventLoopProxy { sender: clone_sender(&self.sender), channel: self.channel }
    }
}

impl<T> EventLoopProxy<T> {
    /// Send an event to the event loop this proxy was created from, waking
    /// it if it is idle; the loop delivers it to the handler as a
    /// `UserEvent`. Fails exactly when the loop has been destroyed, and the
    /// failure carries the payload back unchanged; it never blocks.
    pub fn send_event(&self, event: T) -> (r: Result<(), EventLoopClosed<T>>)
        ensures
            r matches Err(e) ==> e.0 == event,
    {
        match channel_send(&self.sender, event) {
            Ok(()) => Ok(()),
            Err(payload) => Err(EventLoopClosed(payload)),
        }
    }
}

/// The error returned when an `EventLoopProxy` attempts to wake up an
/// `EventLoop` that no longer exists. Contains the original event given to
/// `send_event`.
#[derive(Copy, Clone, Debug, PartialEq, Eq, Hash)]
pub struct EventLoopClosed<T>(pub T);

impl<T> EventLoopClosed<T> {
    /// Renders the failure as text.
    pub fn message(&self) -> (s: String)
        ensures
            s@ == "tried to wake up a closed event loop"@,
    {
        let s = "tried to wake up a closed event loop";
        s.to_owned()
    }
}

} // verus!
