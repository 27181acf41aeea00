//! What holds of the countdown over runs of events.
use vstd::prelude::*;

use crate::countdown::{
    Countdown, Effect, Event, BEEP_TIMER_INTERVAL, BLINK_TOGGLES, INITIAL_SECONDS,
    PWM_DUTY_BEEP_OFF, PWM_DUTY_BEEP_ON,
};
use crate::glyph::BLANK;

verus! {

/// `n` times the event `e`.
pub open spec fn repeat(e: Event, n: nat) -> Seq<Event> {
    Seq::new(n, |_i: int| e)
}

proof fn lemma_repeat_drop_first(e: Event, n: nat)
    requires
        n > 0,
    ensures
        repeat(e, n)[0] == e,
        repeat(e, n).drop_first() == repeat(e, (n - 1) as nat),
{
    assert(repeat(e, n).drop_first() =~= repeat(e, (n - 1) as nat));
}

proof fn lemma_run_empty(s: Countdown)
    ensures
        s.run(Seq::<Event>::empty()) == s,
{
}

proof fn lemma_run_single(s: Countdown, e: Event)
    ensures
        s.run(seq![e]) == s.next(e),
{
    assert(seq![e].drop_first() =~= Seq::<Event>::empty());
    lemma_run_empty(s.next(e));
}

/// One event more at the end of a run is one step more.
pub proof fn lemma_run_push(s: Countdown, evs: Seq<Event>, e: Event)
    ensures
        s.run(evs.push(e)) == s.run(evs).next(e),
    decreases evs.len(),
{
    if evs.len() == 0 {
        assert(evs.push(e).drop_first() =~= Seq::<Event>::empty());
        lemma_run_empty(s.next(e));
    } else {
        assert(evs.push(e).drop_first() =~= evs.drop_first().push(e));
        lemma_run_push(s.next(evs[0]), evs.drop_first(), e);
    }
}

/// Running two sequences one after the other is running their concatenation.
pub proof fn lemma_run_append(s: Countdown, a: Seq<Event>, b: Seq<Event>)
    ensures
        s.run(a + b) == s.run(a).run(b),
    decreases a.len(),
{
    if a.len() > 0 {
        assert((a + b).drop_first() =~= a.drop_first() + b);
        lemma_run_append(s.next(a[0]), a.drop_first(), b);
    } else {
        assert(a + b =~= b);
    }
}

/// Every run of events keeps the state well formed.
pub proof fn lemma_run_wf(s: Countdown, evs: Seq<Event>)
    requires
        s.wf(),
    ensures
        s.run(evs).wf(),
    decreases evs.len(),
{
    if evs.len() > 0 {
        lemma_run_wf(s.next(evs[0]), evs.drop_first());
    }
}

/// While seconds remain, each press of button A toggles `running` once: after
/// `n` presses the countdown runs exactly when it ran before and `n` is even,
/// or did not and `n` is odd. The countdown timer is then armed exactly when it
/// runs, and nothing else changes.
pub proof fn button_a_toggles(s: Countdown, n: nat)
    requires
        s.wf(),
        s.remaining > 0,
    ensures
        s.run(repeat(Event::ButtonA, n)) == (Countdown {
            running: s.running != (n % 2 == 1),
            ..s
        }),
        s.run(repeat(Event::ButtonA, n)).tick_armed() == s.run(repeat(Event::ButtonA, n)).running,
    decreases n,
{
    if n > 0 {
        lemma_repeat_drop_first(Event::ButtonA, n);
        button_a_toggles(s.next(Event::ButtonA), (n - 1) as nat);
    } else {
        assert(repeat(Event::ButtonA, n) =~= Seq::<Event>::empty());
        lemma_run_empty(s);
    }
}

/// A tick while the countdown runs with seconds left takes exactly one second
/// off; any other tick changes nothing, so the count never drops below zero.
pub proof fn tick_takes_one_second(s: Countdown)
    requires
        s.wf(),
    ensures
        s.running && s.remaining > 0 ==> s.next(Event::Tick).remaining == s.remaining - 1,
        !(s.running && s.remaining > 0) ==> s.next(Event::Tick) == s,
{
}

/// From a running countdown, `k` ticks (at most the seconds left) take exactly
/// `k` seconds off; it keeps running until the count reaches zero.
pub proof fn ticks_count_down(s: Countdown, k: nat)
    requires
        s.wf(),
        s.tick_armed(),
        k <= s.remaining,
    ensures
        s.run(repeat(Event::Tick, k)).remaining == s.remaining - k,
        s.run(repeat(Event::Tick, k)).running == (k < s.remaining),
    decreases k,
{
    if k > 0 {
        lemma_repeat_drop_first(Event::Tick, k);
        let t = s.next(Event::Tick);
        if s.remaining > 1 {
            ticks_count_down(t, (k - 1) as nat);
        } else {
            assert(repeat(Event::Tick, (k - 1) as nat) =~= Seq::<Event>::empty());
            lemma_run_empty(t);
        }
    } else {
        assert(repeat(Event::Tick, k) =~= Seq::<Event>::empty());
        lemma_run_empty(s);
    }
}

/// Without a reset the seconds left never grow, whatever the events.
pub proof fn remaining_never_grows(s: Countdown, evs: Seq<Event>)
    requires
        s.wf(),
        forall|i: int| 0 <= i < evs.len() ==> evs[i] != Event::ButtonB,
    ensures
        s.run(evs).remaining <= s.remaining,
    decreases evs.len(),
{
    if evs.len() > 0 {
        remaining_never_grows(s.next(evs[0]), evs.drop_first());
    }
}

/// A reset, from any state, stops the countdown at ten seconds, disarms its
/// timer and draws "10" at once; a tone or a blink sequence in progress is left
/// as it was.
pub proof fn reset_from_any_state(s: Countdown)
    requires
        s.wf(),
    ensures
        s.next(Event::ButtonB) == (Countdown {
            remaining: INITIAL_SECONDS,
            running: false,
            shown: INITIAL_SECONDS,
            ..s
        }),
        !s.next(Event::ButtonB).tick_armed(),
        s.effects(Event::ButtonB) == seq![Effect::DisarmTick, Effect::Show(INITIAL_SECONDS)],
{
}

/// The last second's tick starts the alarm: the tone sounds, its duration
/// timer is armed for the configured time, and a fresh blink sequence starts.
pub proof fn last_tick_starts_alarm(s: Countdown)
    requires
        s.wf(),
        s.running,
        s.remaining == 1,
    ensures
        s.next(Event::Tick).remaining == 0,
        !s.next(Event::Tick).running,
        s.next(Event::Tick).beeping,
        s.next(Event::Tick).blink_armed,
        s.next(Event::Tick).blink_count == 0,
        s.effects(Event::Tick).contains(Effect::SetDuty(PWM_DUTY_BEEP_ON)),
        s.effects(Event::Tick).contains(Effect::ArmBeep(BEEP_TIMER_INTERVAL)),
{
    assert(s.effects(Event::Tick)[2] == Effect::SetDuty(PWM_DUTY_BEEP_ON));
    assert(s.effects(Event::Tick)[3] == Effect::ArmBeep(BEEP_TIMER_INTERVAL));
}

/// The end of the tone silences it and disarms its timer; a second end does
/// the same again and changes nothing more.
pub proof fn beep_timeout_idempotent(s: Countdown)
    requires
        s.wf(),
    ensures
        !s.next(Event::BeepTimeout).beeping,
        s.next(Event::BeepTimeout).next(Event::BeepTimeout) == s.next(Event::BeepTimeout),
        s.effects(Event::BeepTimeout) == seq![
            Effect::SetDuty(PWM_DUTY_BEEP_OFF),
            Effect::DisarmBeep,
        ],
        s.next(Event::BeepTimeout).effects(Event::BeepTimeout) == s.effects(Event::BeepTimeout),
{
}

proof fn lemma_blinks(s: Countdown, k: nat)
    requires
        s.wf(),
        s.blink_armed,
        s.blink_count + k < BLINK_TOGGLES,
    ensures
        s.run(repeat(Event::BlinkTick, k)) == (Countdown {
            blink_count: (s.blink_count + k) as u32,
            shown: if k == 0 {
                s.shown
            } else {
                Countdown::blink_glyph((s.blink_count + k) as u32)
            },
            ..s
        }),
    decreases k,
{
    if k > 0 {
        lemma_repeat_drop_first(Event::BlinkTick, k);
        lemma_blinks(s.next(Event::BlinkTick), (k - 1) as nat);
    } else {
        assert(repeat(Event::BlinkTick, k) =~= Seq::<Event>::empty());
        lemma_run_empty(s);
    }
}

/// A blink sequence, once started, shows a glyph on each of exactly
/// `BLINK_TOGGLES` expiries of the blink timer, alternating between the zero
/// digit and blank; after the last one the display is blank, the timer is
/// disarmed, nothing else has changed, and further expiries change nothing and
/// call for nothing.
pub proof fn blink_sequence(s: Countdown)
    requires
        s.wf(),
        s.blink_armed,
        s.blink_count == 0,
    ensures
        forall|k: nat|
            k < BLINK_TOGGLES ==> {
                let t = #[trigger] s.run(repeat(Event::BlinkTick, k));
                &&& t.blink_armed
                &&& t.effects(Event::BlinkTick)[0] == Effect::Show(
                    Countdown::blink_glyph((k + 1) as u32),
                )
            },
        ({
            let t = s.run(repeat(Event::BlinkTick, BLINK_TOGGLES as nat));
            &&& t == (Countdown { blink_count: 0, blink_armed: false, shown: BLANK, ..s })
            &&& t.next(Event::BlinkTick) == t
            &&& t.effects(Event::BlinkTick) == Seq::<Effect>::empty()
        }),
{
    assert forall|k: nat| k < BLINK_TOGGLES implies {
        let t = #[trigger] s.run(repeat(Event::BlinkTick, k));
        &&& t.blink_armed
        &&& t.effects(Event::BlinkTick)[0] == Effect::Show(Countdown::blink_glyph((k + 1) as u32))
    } by {
        lemma_blinks(s, k);
    }
    let last = (BLINK_TOGGLES - 1) as nat;
    lemma_blinks(s, last);
    assert(repeat(Event::BlinkTick, last).push(Event::BlinkTick) =~= repeat(
        Event::BlinkTick,
        BLINK_TOGGLES as nat,
    ));
    lemma_run_push(s, repeat(Event::BlinkTick, last), Event::BlinkTick);
}

/// The events of one whole countdown from power-up: start, ten ticks, the end
/// of the tone, and the blink sequence.
pub open spec fn full_countdown() -> Seq<Event> {
    seq![Event::ButtonA] + repeat(Event::Tick, INITIAL_SECONDS as nat) + seq![Event::BeepTimeout]
        + repeat(Event::BlinkTick, BLINK_TOGGLES as nat)
}

/// A whole countdown from power-up ends at zero, stopped, blank, with no timer
/// armed and the tone silent. Button A is then taken as any other press (with
/// no second left it arms nothing); a reset brings back the power-up state,
/// from which button A starts a new countdown.
pub proof fn full_countdown_round_trip()
    ensures
        ({
            let t = Countdown::initial().run(full_countdown());
            &&& t.quiescent()
            &&& t.remaining == 0
            &&& !t.running
            &&& t.shown == BLANK
            &&& t.next(Event::ButtonA) == (Countdown { running: true, ..t })
            &&& t.next(Event::ButtonB) == Countdown::initial()
            &&& Countdown::initial().next(Event::ButtonA).tick_armed()
        }),
{
    let s0 = Countdown::initial();
    let a = seq![Event::ButtonA];
    let ticks = repeat(Event::Tick, INITIAL_SECONDS as nat);
    let b = seq![Event::BeepTimeout];
    let blinks = repeat(Event::BlinkTick, BLINK_TOGGLES as nat);
    lemma_run_append(s0, a, ticks);
    lemma_run_append(s0, a + ticks, b);
    lemma_run_append(s0, a + ticks + b, blinks);
    lemma_run_single(s0, Event::ButtonA);
    let s1 = s0.run(a);
    ticks_count_down(s1, INITIAL_SECONDS as nat);
    let s2 = s1.run(ticks);
    // the last tick started the alarm
    lemma_run_wf(s1, ticks);
    assert(ticks =~= repeat(Event::Tick, (INITIAL_SECONDS - 1) as nat).push(Event::Tick));
    lemma_run_push(s1, repeat(Event::Tick, (INITIAL_SECONDS - 1) as nat), Event::Tick);
    ticks_count_down(s1, (INITIAL_SECONDS - 1) as nat);
    lemma_run_single(s2, Event::BeepTimeout);
    blink_sequence(s2.run(b));
}

} // verus!
