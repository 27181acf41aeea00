use countdown::countdown::{
    Countdown, Effect, Effects, Event, BEEP_HZ, BEEP_TIMER_INTERVAL, BLINK_TIMER_INTERVAL, BLINK_TOGGLES,
    COUNTDOWN_TIMER_INTERVAL, INITIAL_SECONDS, PWM_DUTY_BEEP_OFF, PWM_DUTY_BEEP_ON, PWM_MAX_DUTY,
};
use countdown::glyph::BLANK;

fn started() -> Countdown {
    let mut c = Countdown::new();
    c.on_button_a();
    c
}

#[test]
fn power_up_state() {
    let c = Countdown::new();
    assert_eq!(c.remaining, 10);
    assert!(!c.running);
    assert_eq!(c.shown, 10);
    assert!(!c.is_tick_armed());
    assert!(!c.blink_armed);
    assert!(!c.beeping);
    assert_eq!(c.blink_count, 0);
}

#[test]
fn button_a_starts_and_stops() {
    let mut c = Countdown::new();
    let e = c.on_button_a();
    assert!(c.running);
    assert!(c.is_tick_armed());
    assert_eq!(
        e.as_slice(),
        &[Effect::ArmTick(1_000_000)]);
    let e = c.on_button_a();
    assert!(!c.running);
    assert!(!c.is_tick_armed());
    assert_eq!(
        e.as_slice(),
        &[Effect::DisarmTick]);
}

#[test]
fn button_a_presses_toggle_each_time() {
    let mut c = Countdown::new();
    for i in 1..=7u32 {
        c.on_button_a();
        assert_eq!(c.running, i % 2 == 1);
        assert_eq!(c.is_tick_armed(), c.running);
        assert_eq!(c.remaining, 10);
    }
}

#[test]
fn button_a_at_zero_arms_nothing() {
    let mut c = Countdown { remaining: 0, ..Countdown::new() };
    let e = c.on_button_a();
    assert!(c.running);
    assert!(!c.is_tick_armed());
    assert_eq!(
        e.as_slice(),
        &[Effect::DisarmTick]);
}

#[test]
fn tick_takes_one_second() {
    let mut c = started();
    let e = c.on_tick();
    assert_eq!(c.remaining, 9);
    assert_eq!(c.shown, 9);
    assert!(c.running);
    assert_eq!(
        e.as_slice(),
        &[Effect::Show(9), Effect::ArmTick(COUNTDOWN_TIMER_INTERVAL)]);
}

#[test]
fn ticks_count_down_monotonically() {
    let mut c = started();
    let mut last = c.remaining;
    for _ in 0..15 {
        c.on_tick();
        assert!(c.remaining <= last);
        if last > 0 {
            assert_eq!(c.remaining, last - 1);
        }
        last = c.remaining;
    }
    assert_eq!(c.remaining, 0);
}

#[test]
fn tick_while_stopped_changes_nothing() {
    let mut c = Countdown::new();
    let before = c;
    let e = c.on_tick();
    assert_eq!(c, before);
    assert!(e.len() == 0);
}

#[test]
fn last_tick_starts_alarm() {
    let mut c = started();
    for _ in 0..9 {
        c.on_tick();
    }
    assert_eq!(c.remaining, 1);
    let e = c.on_tick();
    assert_eq!(c.remaining, 0);
    assert!(!c.running);
    assert!(c.beeping);
    assert!(c.blink_armed);
    assert_eq!(c.blink_count, 0);
    assert_eq!(
        e.as_slice(),
        &[
            Effect::Show(0),
            Effect::DisarmTick,
            Effect::SetDuty(PWM_DUTY_BEEP_ON),
            Effect::ArmBeep(100_000),
            Effect::ArmBlink(100_000),
        ]
    );
}

#[test]
fn beep_duty_and_duration() {
    assert_eq!(PWM_MAX_DUTY as u32, 16_000_000 / BEEP_HZ);
    assert_eq!(PWM_DUTY_BEEP_ON, 18181);
    assert_eq!(PWM_DUTY_BEEP_OFF, 0);
    assert_eq!(BEEP_TIMER_INTERVAL, 100_000);
    assert_eq!(BLINK_TIMER_INTERVAL, 100_000);
    assert_eq!(BLINK_TOGGLES, 20);
}

#[test]
fn beep_timeout_silences_twice_harmlessly() {
    let mut c = Countdown { beeping: true, ..Countdown::new() };
    let e1 = c.on_beep_timeout();
    let after_first = c;
    let e2 = c.on_beep_timeout();
    assert!(!c.beeping);
    assert_eq!(c, after_first);
    assert_eq!(
        e1.as_slice(),
        &[Effect::SetDuty(0), Effect::DisarmBeep]);
    assert_eq!(e2.as_slice(), e1.as_slice());
}

#[test]
fn blink_sequence_toggles_twenty_times_and_ends_blank() {
    let mut c = Countdown { remaining: 0, blink_armed: true, shown: 0, ..Countdown::new() };
    let mut shows = Vec::new();
    for k in 1..=20u32 {
        let e = c.on_blink_tick();
        assert_eq!(e.len(), 2);
        shows.push(e.as_slice()[0]);
        if k < 20 {
            assert_eq!(e.as_slice()[1], Effect::ArmBlink(100_000));
            assert!(c.blink_armed);
            assert_eq!(c.blink_count, k);
        } else {
            assert_eq!(e.as_slice()[1], Effect::DisarmBlink);
        }
    }
    for (i, s) in shows.iter().enumerate() {
        let expected = if i % 2 == 0 { 0 } else { BLANK };
        assert_eq!(*s, Effect::Show(expected));
    }
    assert!(!c.blink_armed);
    assert_eq!(c.blink_count, 0);
    assert_eq!(c.shown, BLANK);
    let before = c;
    assert!(c.on_blink_tick().len() == 0);
    assert_eq!(c, before);
}

#[test]
fn reset_from_idle_running_and_alarm() {
    let idle = Countdown { remaining: 4, ..Countdown::new() };
    let running = Countdown { remaining: 6, running: true, shown: 6, ..Countdown::new() };
    let alarm = Countdown {
        remaining: 0,
        blink_armed: true,
        blink_count: 7,
        beeping: true,
        shown: 0,
        running: false,
    };
    for s in [idle, running, alarm] {
        let mut c = s;
        let e = c.on_button_b();
        assert_eq!(c.remaining, INITIAL_SECONDS);
        assert!(!c.running);
        assert_eq!(c.shown, 10);
        assert!(!c.is_tick_armed());
        assert_eq!(
        e.as_slice(),
        &[Effect::DisarmTick, Effect::Show(10)]);
        assert_eq!(c.blink_armed, s.blink_armed);
        assert_eq!(c.blink_count, s.blink_count);
        assert_eq!(c.beeping, s.beeping);
    }
}

#[test]
fn both_buttons_in_one_interrupt() {
    let mut c = started();
    c.on_tick();
    let e = c.on_buttons(true, true);
    assert_eq!(
        e.as_slice(),
        &[Effect::DisarmTick, Effect::DisarmTick, Effect::Show(10)]);
    assert_eq!(c, Countdown::new());
    let e = c.on_buttons(false, false);
    assert!(e.len() == 0);
    assert_eq!(c, Countdown::new());
}

#[test]
fn step_dispatches_each_event() {
    let mut a = Countdown::new();
    let mut b = Countdown::new();
    assert_eq!(a.step(Event::ButtonA).as_slice(), b.on_button_a().as_slice());
    assert_eq!(a.step(Event::Tick).as_slice(), b.on_tick().as_slice());
    assert_eq!(a.step(Event::ButtonB).as_slice(), b.on_button_b().as_slice());
    assert_eq!(a.step(Event::BeepTimeout).as_slice(), b.on_beep_timeout().as_slice());
    assert_eq!(a.step(Event::BlinkTick).as_slice(), b.on_blink_tick().as_slice());
    assert_eq!(a, b);
}

#[test]
fn full_countdown_round_trip() {
    let mut c = Countdown::new();
    c.step(Event::ButtonA);
    for _ in 0..10 {
        c.step(Event::Tick);
    }
    c.step(Event::BeepTimeout);
    for _ in 0..20 {
        c.step(Event::BlinkTick);
    }
    assert_eq!(c.remaining, 0);
    assert!(!c.running);
    assert!(!c.is_tick_armed());
    assert!(!c.blink_armed);
    assert!(!c.beeping);
    assert_eq!(c.shown, BLANK);
    c.step(Event::ButtonB);
    assert_eq!(c, Countdown::new());
    let e = c.step(Event::ButtonA);
    assert!(c.is_tick_armed());
    assert_eq!(
        e.as_slice(),
        &[Effect::ArmTick(1_000_000)]);
}

#[test]
fn scenario_start_count_alarm_and_reset_during_blink() {
    let mut c = Countdown::new();
    assert_eq!((c.remaining, c.running), (10, false));
    let e = c.step(Event::ButtonA);
    assert!(c.running);
    assert_eq!(
        e.as_slice(),
        &[Effect::ArmTick(1_000_000)]);
    let mut alarm_effects = Effects::new();
    for _ in 0..10 {
        alarm_effects = c.step(Event::Tick);
    }
    assert_eq!(c.remaining, 0);
    let beeps = alarm_effects.as_slice().iter().filter(|e| **e == Effect::ArmBeep(100_000)).count();
    assert_eq!(beeps, 1);
    assert!(alarm_effects.as_slice().contains(&Effect::SetDuty(PWM_DUTY_BEEP_ON)));
    assert!(alarm_effects.as_slice().contains(&Effect::ArmBlink(100_000)));
    // the beep ends once, the blink runs part way
    c.step(Event::BlinkTick);
    assert_eq!(
        c.step(Event::BeepTimeout).as_slice(),
        &[Effect::SetDuty(0), Effect::DisarmBeep]);
    for _ in 0..6 {
        c.step(Event::BlinkTick);
    }
    // reset during the blink
    let e = c.step(Event::ButtonB);
    assert_eq!(
        e.as_slice(),
        &[Effect::DisarmTick, Effect::Show(10)]);
    assert_eq!(c.remaining, 10);
    assert!(!c.running);
    assert_eq!(c.shown, 10);
    // the blink sequence goes on where it was
    assert!(c.blink_armed);
    assert_eq!(c.blink_count, 7);
    assert!(!c.beeping);
    let mut toggles = 7;
    while c.blink_armed {
        c.step(Event::BlinkTick);
        toggles += 1;
    }
    assert_eq!(toggles, 20);
    assert_eq!(c.shown, BLANK);
    assert_eq!(c.remaining, 10);
}

#[test]
fn effect_list_push_and_extend() {
    let mut a = Effects::new();
    assert_eq!(a.len(), 0);
    a.push(Effect::Show(3));
    a.push(Effect::DisarmBeep);
    let mut b = Effects::new();
    b.push(Effect::ArmBlink(7));
    a.extend(&b);
    assert_eq!(a.len(), 3);
    assert_eq!(
        a.as_slice(),
        &[Effect::Show(3), Effect::DisarmBeep, Effect::ArmBlink(7)]
    );
    assert_eq!(b.as_slice(), &[Effect::ArmBlink(7)]);
}
