use tao::dpi::{PhysicalPosition, PhysicalSize};
use tao::event::Event;
use tao::event_loop::{
    ControlFlow, DeviceEventFilter, EventHandler, EventLoop, EventLoopBuilder,
    EventLoopWindowTarget,
};
use tao::monitor::MonitorHandle;
use tao::run_return::EventLoopExtRunReturn;
use tao::window::{ProgressBarState, ProgressState, Theme};

#[test]
fn set_theme_records_the_request() {
    let mut event_loop: EventLoop<()> = EventLoop::new();
    assert_eq!(event_loop.window_target.theme, None);
    event_loop.window_target.set_theme(Some(Theme::Dark));
    assert_eq!(event_loop.window_target.theme, Some(Theme::Dark));
    event_loop.window_target.set_theme(None);
    assert_eq!(event_loop.window_target.theme, None);
}

#[test]
fn set_progress_bar_records_the_request() {
    let mut event_loop: EventLoop<()> = EventLoop::new();
    assert_eq!(event_loop.window_target.progress, None);
    let request = ProgressBarState { progress: Some(50), state: Some(ProgressState::Normal) };
    event_loop.window_target.set_progress_bar(request);
    assert_eq!(event_loop.window_target.progress, Some(request));
}

#[test]
fn set_device_event_filter_records_the_mode() {
    let mut event_loop: EventLoop<()> = EventLoop::new();
    assert_eq!(event_loop.window_target.device_event_filter, DeviceEventFilter::Unfocused);
    event_loop.window_target.set_device_event_filter(DeviceEventFilter::Never);
    assert_eq!(event_loop.window_target.device_event_filter, DeviceEventFilter::Never);
}

#[test]
fn window_target_accessor_returns_the_view() {
    let event_loop: EventLoop<()> = EventLoop::new();
    assert!(event_loop.window_target().primary_monitor().is_none());
    assert_eq!(event_loop.window_target().available_monitors().len(), 0);
}

#[test]
fn cloned_target_carries_the_same_snapshot() {
    let mut builder = EventLoopBuilder::<()>::with_user_event();
    builder.platform_specific.monitors = vec![MonitorHandle {
        id: 1,
        name: Some("only".to_string()),
        size: PhysicalSize { width: 1024, height: 768 },
        position: PhysicalPosition { x: 0, y: 0 },
        modes: Vec::new(),
    }];
    builder.platform_specific.primary = Some(0);
    let mut event_loop = builder.build();
    event_loop.window_target.set_theme(Some(Theme::Light));
    let copy = event_loop.window_target.clone();
    assert_eq!(copy.theme, Some(Theme::Light));
    assert_eq!(copy.available_monitors().len(), 1);
    assert_eq!(copy.primary_monitor().unwrap().id, 1);
}

/// The handler itself queries the target while the loop is pumping.
struct QueryingHandler {
    seen_monitors: usize,
    seen_primary: Option<u64>,
}

impl EventHandler<()> for QueryingHandler {
    // The ghost delivery log is proof-only state: it is erased from
    // compiled code and never invoked at run time.
    fn delivery_log(&self) -> vstd::seq::Seq<(Event<()>, ControlFlow)> {
        unreachable!()
    }

    fn on_event(
        &mut self,
        event: Event<()>,
        target: &EventLoopWindowTarget<()>,
        control_flow: &mut ControlFlow,
    ) {
        if matches!(event, Event::RedrawEventsCleared) {
            self.seen_monitors = target.available_monitors().len();
            self.seen_primary = target.primary_monitor().map(|m| m.id);
            assert!(target.monitor_from_point(8000, 8000).is_none());
            *control_flow = ControlFlow::ExitWithCode(0);
        }
    }
}

#[test]
fn target_queries_work_while_the_loop_is_pumping() {
    let mut builder = EventLoopBuilder::<()>::with_user_event();
    builder.platform_specific.monitors = vec![MonitorHandle {
        id: 6,
        name: None,
        size: PhysicalSize { width: 640, height: 480 },
        position: PhysicalPosition { x: 0, y: 0 },
        modes: Vec::new(),
    }];
    builder.platform_specific.primary = Some(0);
    let mut event_loop = builder.build();
    let mut handler = QueryingHandler { seen_monitors: 0, seen_primary: None };
    event_loop.run_return(&mut handler);
    assert_eq!(handler.seen_monitors, 1);
    assert_eq!(handler.seen_primary, Some(6));
}
