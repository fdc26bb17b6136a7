use relay_timer::controller::{Action, Controller, TICK_DELAY_MS, TIMER_TIME};

fn armed_at(now: u32) -> Controller {
    let mut c = Controller::new();
    c.step(now, true);
    c
}

#[test]
fn press_from_idle_arms_relay() {
    let mut c = Controller::new();
    assert!(!c.relay_high());
    let a = c.step(2, true);
    assert!(c.armed);
    assert!(c.relay_high());
    assert!(a.relay_high);
    assert_eq!(a.delay_ms, TICK_DELAY_MS);
    assert_eq!(c.remaining, TIMER_TIME - 1);
    assert_eq!(c.last_sample, 2);
}

#[test]
fn press_too_early_after_start_is_ignored() {
    let mut c = Controller::new();
    let a = c.step(1, true);
    assert_eq!(a, Action { relay_high: false, delay_ms: 0 });
    assert_eq!(c, Controller::new());
}

#[test]
fn countdown_runs_out_and_disarms() {
    let mut c = Controller::new();
    c.sample_button(8, true);
    assert!(c.armed);
    assert_eq!(c.remaining, TIMER_TIME);
    let mut now: u32 = 8;
    for i in 0..TIMER_TIME {
        now += 1000;
        let a = c.step(now, false);
        assert!(a.relay_high);
        assert_eq!(a.delay_ms, TICK_DELAY_MS);
        assert_eq!(c.remaining, TIMER_TIME - 1 - i);
    }
    assert_eq!(c.remaining, 0);
    assert!(c.armed);
    now += 1000;
    let a = c.step(now, false);
    assert_eq!(a, Action { relay_high: false, delay_ms: 0 });
    assert!(!c.armed);
    assert_eq!(c.remaining, TIMER_TIME);
}

#[test]
fn press_while_armed_cancels() {
    let mut c = armed_at(8);
    for k in 1..10u32 {
        c.step(8 + 1000 * k, false);
    }
    assert!(c.armed);
    assert!(c.remaining > 0);
    let a = c.step(20_000, true);
    assert_eq!(a, Action { relay_high: false, delay_ms: 0 });
    assert!(!c.armed);
    assert_eq!(c.remaining, TIMER_TIME);
}

#[test]
fn samples_within_interval_act_once() {
    let mut c = Controller::new();
    assert!(c.sample_button(16, true));
    assert!(c.armed);
    assert!(!c.sample_button(16, true));
    assert!(!c.sample_button(17, true));
    assert!(c.armed);
    assert!(c.sample_button(18, true));
    assert!(!c.armed);
}

#[test]
fn sampling_across_counter_wrap() {
    let mut c = Controller { remaining: TIMER_TIME, armed: false, last_sample: u32::MAX - 3 };
    assert!(!c.sample_button(u32::MAX - 2, true));
    assert!(c.sample_button(4, true));
    assert!(c.armed);
    assert_eq!(c.last_sample, 4);
}

#[test]
fn relay_follows_armed_every_iteration() {
    let mut c = Controller::new();
    let presses = [false, true, false, false, true, true, false, true, false];
    let mut now: u32 = 0;
    for p in presses {
        now += 8;
        let a = c.step(now, p);
        assert_eq!(a.relay_high, c.armed);
        assert_eq!(c.relay_high(), c.armed);
        if !c.armed {
            assert_eq!(c.remaining, TIMER_TIME);
        }
    }
}

#[test]
fn countdown_phase_alone() {
    let mut c = Controller { remaining: 1, armed: true, last_sample: 0 };
    assert!(c.run_countdown());
    assert_eq!(c.remaining, 0);
    assert!(!c.run_countdown());
    assert!(!c.armed);
    assert_eq!(c.remaining, TIMER_TIME);
    assert!(!c.run_countdown());
    assert_eq!(c.remaining, TIMER_TIME);
}
