use tao::event::Event;
use tao::event_loop::{
    ControlFlow, DeviceEventFilter, EventHandler, EventLoop, EventLoopBuilder,
    EventLoopWindowTarget,
};
use tao::run_return::EventLoopExtRunReturn;

/// Records the control flow the engine hands in at every invocation, and
/// plays back a scripted write for each one.
struct ScriptedHandler {
    observed: Vec<ControlFlow>,
    script: Vec<ControlFlow>,
    step: usize,
}

impl ScriptedHandler {
    fn new(script: Vec<ControlFlow>) -> ScriptedHandler {
        ScriptedHandler { observed: Vec::new(), script, step: 0 }
    }
}

impl EventHandler<()> for ScriptedHandler {
    // The ghost delivery log is proof-only state: it is erased from
    // compiled code and never invoked at run time.
    fn delivery_log(&self) -> vstd::seq::Seq<(Event<()>, ControlFlow)> {
        unreachable!()
    }

    fn on_event(
        &mut self,
        _event: Event<()>,
        _target: &EventLoopWindowTarget<()>,
        control_flow: &mut ControlFlow,
    ) {
        self.observed.push(*control_flow);
        if self.step < self.script.len() {
            *control_flow = self.script[self.step];
            self.step += 1;
        }
    }
}

#[test]
fn control_flow_default_is_poll() {
    assert_eq!(ControlFlow::default(), ControlFlow::Poll);
}

#[test]
fn device_event_filter_default_is_unfocused() {
    assert_eq!(DeviceEventFilter::default(), DeviceEventFilter::Unfocused);
}

#[test]
fn run_return_returns_the_exit_code() {
    let mut event_loop: EventLoop<()> = EventLoop::new();
    // First delivery is the idle marker of the first wake.
    let mut handler = ScriptedHandler::new(vec![ControlFlow::ExitWithCode(7)]);
    let code = event_loop.run_return(&mut handler);
    assert_eq!(code, 7);
}

#[test]
fn exit_is_sticky_against_later_writes() {
    let mut event_loop: EventLoop<()> = EventLoop::new();
    // Request exit at the idle marker, then try to rescind it at the
    // loop-destroyed notification.
    let mut handler = ScriptedHandler::new(vec![ControlFlow::ExitWithCode(3), ControlFlow::Poll]);
    let code = event_loop.run_return(&mut handler);
    assert_eq!(code, 3);
    // The engine handed ExitWithCode(3) into the final notification even
    // though nothing but Poll had been written before the marker.
    assert_eq!(handler.observed, vec![ControlFlow::Poll, ControlFlow::ExitWithCode(3)]);
}

#[test]
fn loop_destroyed_is_delivered_last_exactly_once() {
    struct CountDestroyed {
        destroyed: usize,
        after_destroyed: usize,
    }
    impl EventHandler<()> for CountDestroyed {
    // The ghost delivery log is proof-only state: it is erased from
    // compiled code and never invoked at run time.
    fn delivery_log(&self) -> vstd::seq::Seq<(Event<()>, ControlFlow)> {
        unreachable!()
    }

        fn on_event(
            &mut self,
            event: Event<()>,
            _target: &EventLoopWindowTarget<()>,
            control_flow: &mut ControlFlow,
        ) {
            if self.destroyed > 0 {
                self.after_destroyed += 1;
            }
            if matches!(event, Event::LoopDestroyed) {
                self.destroyed += 1;
            }
            *control_flow = ControlFlow::ExitWithCode(0);
        }
    }
    let mut event_loop: EventLoop<()> = EventLoop::new();
    let mut handler = CountDestroyed { destroyed: 0, after_destroyed: 0 };
    event_loop.run_return(&mut handler);
    assert_eq!(handler.destroyed, 1);
    assert_eq!(handler.after_destroyed, 0);
}

#[test]
fn run_return_starts_fresh_at_poll_each_invocation() {
    let mut event_loop: EventLoop<()> = EventLoop::new();

    // First run ends in ExitWithCode(5).
    let mut first = ScriptedHandler::new(vec![ControlFlow::ExitWithCode(5)]);
    let code = event_loop.run_return(&mut first);
    assert_eq!(code, 5);
    assert_eq!(first.observed[0], ControlFlow::Poll);

    // The second run must begin at Poll again, not at ExitWithCode(5):
    // otherwise it would exit with 5 before the handler wrote anything,
    // instead of returning the fresh handler's 9.
    let mut second = ScriptedHandler::new(vec![ControlFlow::ExitWithCode(9)]);
    let code = event_loop.run_return(&mut second);
    assert_eq!(code, 9);
    assert_eq!(second.observed[0], ControlFlow::Poll);
}

#[test]
fn wait_until_past_deadline_does_not_block() {
    // A deadline in the past: the wake happens immediately and the second
    // idle marker requests exit.
    let mut event_loop: EventLoop<()> = EventLoop::new();
    let mut handler =
        ScriptedHandler::new(vec![ControlFlow::WaitUntil(0), ControlFlow::ExitWithCode(2)]);
    let code = event_loop.run_return(&mut handler);
    assert_eq!(code, 2);
    assert_eq!(handler.observed[1], ControlFlow::WaitUntil(0));
}

#[test]
fn run_consumes_the_loop_and_returns_the_code() {
    let mut builder = EventLoopBuilder::<()>::with_user_event();
    let event_loop = builder.build();
    let mut handler = ScriptedHandler::new(vec![ControlFlow::ExitWithCode(11)]);
    let code = event_loop.run(&mut handler);
    assert_eq!(code, 11);
}
