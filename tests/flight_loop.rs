use std::time::Duration;

use xplane::flight_loop::{FlightLoop, FlightLoopCallback, LoopResult, LoopState};
use xplane::registry::LifeEvent;
use xplane::{make_x, XPAPI};

struct TestLoopState {
    test_thing: i32,
}

struct TestLoopHandler {
    internal_state: bool,
}

impl FlightLoopCallback<TestLoopState> for TestLoopHandler {
    fn flight_loop(&mut self, _x: &mut XPAPI, state: &mut LoopState<TestLoopState>) -> LoopResult {
        let since_call = state.since_last_call();
        let since_loop = state.since_last_loop();
        let test_state = state.state_mut();
        test_state.test_thing += 1;
        self.internal_state = !self.internal_state;
        match test_state.test_thing {
            1 => {
                assert_eq!(since_call, Duration::from_secs_f32(2.0));
                assert_eq!(since_loop, Duration::from_secs_f32(2.0));
                LoopResult::NextLoop
            }
            2 => LoopResult::Loops(2),
            3 => LoopResult::Seconds(Duration::from_secs_f32(1.5f32)),
            4 => LoopResult::Deactivate,
            _ => panic!("We should not have gotten here!"),
        }
    }
}

/// The host's number for a result: the loop code, or the positive time in seconds.
fn host_value(r: LoopResult) -> f32 {
    match r.loop_code() {
        Some(c) => c as f32,
        None => r.seconds().unwrap().as_secs_f32(),
    }
}

#[test]
fn test_flight_loops() {
    let mut x = make_x();
    let mut fl = FlightLoop::new(
        TestLoopHandler {
            internal_state: false,
        },
        TestLoopState { test_thing: 0 },
    );
    fl.bind(0xdead);
    let id = fl.schedule_immediate();
    assert_eq!(id, 0xdead);
    assert_eq!(host_value(fl.loop_result().unwrap()), -1.0f32);
    let d = Duration::from_secs_f32(2.0);
    let res = fl.tick(&mut x, d, d, 1);
    assert_eq!(host_value(res), -1.0f32);
    let res = fl.tick(&mut x, d, d, 2);
    assert_eq!(host_value(res), -2.0f32);
    let res = fl.tick(&mut x, d, d, 3);
    assert_eq!(host_value(res), 1.5f32);
    let res = fl.tick(&mut x, d, d, 4);
    assert_eq!(host_value(res), 0.0f32);
    assert_eq!(fl.detach(), Some(0xdead));
    let _ = fl.release();
}

#[test]
fn loop_codes_match_the_host_encoding() {
    assert_eq!(LoopResult::Loops(2).loop_code(), Some(-2));
    assert_eq!(LoopResult::Loops(0).loop_code(), Some(0));
    assert_eq!(LoopResult::Loops(u32::MAX).loop_code(), Some(-(u32::MAX as i64)));
    assert_eq!(LoopResult::NextLoop.loop_code(), Some(-1));
    assert_eq!(LoopResult::Deactivate.loop_code(), Some(0));
    let t = Duration::from_millis(250);
    assert_eq!(LoopResult::Seconds(t).loop_code(), None);
    assert_eq!(LoopResult::Seconds(t).seconds(), Some(t));
    assert_eq!(LoopResult::Loops(3).seconds(), None);
    assert_eq!(host_value(LoopResult::Loops(2)), -2.0f32);
}

struct Every;

impl FlightLoopCallback<u32> for Every {
    fn flight_loop(&mut self, _x: &mut XPAPI, state: &mut LoopState<u32>) -> LoopResult {
        *state.state_mut() += 1;
        match *state.state() {
            2 => LoopResult::Loops(2),
            3 => LoopResult::Deactivate,
            _ => LoopResult::NextLoop,
        }
    }
}

#[test]
fn periodic_callback_scenario() {
    let mut x = make_x();
    let mut fl = FlightLoop::new(Every, 0u32);
    assert!(fl.loop_result().is_none());
    fl.bind(7);
    assert_eq!(fl.schedule_after_loops(1), 7);
    assert_eq!(fl.loop_result().unwrap().loop_code(), Some(-1));
    let d = Duration::from_millis(16);
    assert_eq!(host_value(fl.tick(&mut x, d, d, 1)), -1.0f32);
    assert_eq!(host_value(fl.tick(&mut x, d, d, 2)), -2.0f32);
    assert_eq!(host_value(fl.tick(&mut x, d, d, 3)), 0.0f32);
    // One destroy call, before the loop is released.
    assert_eq!(fl.detach(), Some(7));
    let _ = fl.release();
}

#[test]
fn schedule_calls_record_the_interval() {
    let mut fl = FlightLoop::new(Every, 0u32);
    fl.bind(3);
    fl.schedule_after(Duration::from_secs(2));
    assert_eq!(fl.loop_result().unwrap().seconds(), Some(Duration::from_secs(2)));
    fl.deactivate();
    assert_eq!(fl.loop_result().unwrap().loop_code(), Some(0));
    assert_eq!(fl.detach(), Some(3));
    let _ = fl.release();
    let _ = LifeEvent::Release;
}
