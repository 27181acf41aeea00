//! The countdown state machine: the decisions that the button, countdown,
//! beep and blink interrupts take, written as transitions from a state and an
//! event to the next state and the hardware actions to perform.
use vstd::prelude::*;

use crate::glyph::BLANK;

verus! {

/// The value the countdown starts from, and returns to on reset.
pub const INITIAL_SECONDS: u32 = 10;

/// Number of full on/off cycles of the end-of-countdown blink.
pub const MAX_BLINKS: u32 = 10;

/// Number of blink-timer expiries in one blink sequence.
pub const BLINK_TOGGLES: u32 = MAX_BLINKS * 2;

/// Period of the countdown tick, in microseconds.
pub const COUNTDOWN_TIMER_INTERVAL: u32 = 1_000_000;

/// Period of the blink timer, in microseconds.
pub const BLINK_TIMER_INTERVAL: u32 = 100_000;

/// How long the alarm tone sounds, in milliseconds.
pub const BEEP_DURATION_MS: u32 = 100;

/// How long the alarm tone sounds, in microseconds.
pub const BEEP_TIMER_INTERVAL: u32 = BEEP_DURATION_MS * 1000;

/// Frequency of the alarm tone, in hertz.
pub const BEEP_HZ: u32 = 440;

/// PWM period (in 16 MHz clock cycles) that gives the alarm tone's frequency.
pub const PWM_MAX_DUTY: u16 = 36363;

/// Duty for an audible tone: half of the period.
pub const PWM_DUTY_BEEP_ON: u16 = PWM_MAX_DUTY / 2;

/// Duty for silence.
pub const PWM_DUTY_BEEP_OFF: u16 = 0;

/// Something that happened to the countdown.
#[derive(Clone, Copy, Debug, PartialEq, Eq, Structural)]
pub enum Event {
    /// Button A was pressed: start or stop.
    ButtonA,
    /// Button B was pressed: reset.
    ButtonB,
    /// The one-second countdown timer expired.
    Tick,
    /// The alarm tone's duration timer expired.
    BeepTimeout,
    /// The blink timer expired.
    BlinkTick,
}

/// A hardware action decided by a transition, for the caller to perform.
#[derive(Clone, Copy, Debug, PartialEq, Eq, Structural)]
pub enum Effect {
    /// Show the countdown glyph of this value (`BLANK` for an empty matrix).
    Show(u32),
    /// Start the countdown timer for this many microseconds, with its interrupt enabled.
    ArmTick(u32),
    /// Disable the countdown timer's interrupt.
    DisarmTick,
    /// Set the speaker's PWM duty.
    SetDuty(u16),
    /// Start the beep timer for this many microseconds, with its interrupt enabled.
    ArmBeep(u32),
    /// Disable the beep timer's interrupt.
    DisarmBeep,
    /// Start the blink timer for this many microseconds, with its interrupt enabled.
    ArmBlink(u32),
    /// Disable the blink timer's interrupt.
    DisarmBlink,
}

/// The most actions that one event calls for.
pub const MAX_EFFECTS: usize = 5;

/// The actions decided by one handler, in order: a list of at most
/// `MAX_EFFECTS` entries that needs no allocation.
#[derive(Clone, Copy, Debug)]
pub struct Effects {
    items: [Effect; MAX_EFFECTS],
    len: usize,
}

impl View for Effects {
    type V = Seq<Effect>;

    closed spec fn view(&self) -> Seq<Effect> {
        self.items@.subrange(0, self.len as int)
    }
}

impl Effects {
    #[verifier::type_invariant]
    spec fn inv(self) -> bool {
        self.len <= MAX_EFFECTS
    }

    /// No action.
    pub fn new() -> (r: Effects)
        ensures
            r@ == Seq::<Effect>::empty(),
    {
        let r = Effects { items: [Effect::DisarmTick; MAX_EFFECTS], len: 0 };
        assert(r@ =~= Seq::<Effect>::empty());
        r
    }

    /// Adds `e` at the end.
    pub fn push(&mut self, e: Effect)
        requires
            old(self)@.len() < MAX_EFFECTS,
        ensures
            final(self)@ == old(self)@.push(e),
    {
        proof {
            use_type_invariant(&*self);
        }
        let ghost before = self@;
        self.items[self.len] = e;
        self.len = self.len + 1;
        assert(self@ =~= before.push(e));
    }

    /// Adds the actions of `other` at the end.
    pub fn extend(&mut self, other: &Effects)
        requires
            old(self)@.len() + other@.len() <= MAX_EFFECTS,
        ensures
            final(self)@ == old(self)@ + other@,
    {
        proof {
            use_type_invariant(&*other);
        }
        let ghost start = self@;
        let mut i: usize = 0;
        while i < other.len
            invariant
                i <= other.len,
                other.len <= MAX_EFFECTS,
                other@.len() == other.len,
                start.len() + other@.len() <= MAX_EFFECTS,
                self@ == start + other@.subrange(0, i as int),
            decreases other.len - i,
        {
            proof {
                use_type_invariant(&*other);
            }
            let e = other.items[i];
            assert(other@[i as int] == e);
            self.push(e);
            assert(other@.subrange(0, i as int + 1) =~= other@.subrange(0, i as int).push(e));
            i = i + 1;
        }
        assert(other@.subrange(0, i as int) =~= other@);
    }

    /// The number of actions.
    pub fn len(&self) -> (r: usize)
        ensures
            r == self@.len(),
    {
        proof {
            use_type_invariant(self);
        }
        self.len
    }

    /// The actions, in order.
    pub fn as_slice(&self) -> (r: &[Effect])
        ensures
            r@ == self@,
    {
        proof {
            use_type_invariant(self);
        }
        vstd::slice::slice_subrange(self.items.as_slice(), 0, self.len)
    }
}

/// The whole state shared by the interrupt handlers. The countdown timer is
/// armed exactly when `running` holds and `remaining > 0` (see `tick_armed`).
#[derive(Clone, Copy, Debug, PartialEq, Eq, Structural)]
pub struct Countdown {
    /// Seconds left.
    pub remaining: u32,
    /// Whether the countdown runs.
    pub running: bool,
    /// Blink-timer expiries seen in the current blink sequence.
    pub blink_count: u32,
    /// Whether the blink timer is armed.
    pub blink_armed: bool,
    /// Whether the tone sounds, with its duration timer armed.
    pub beeping: bool,
    /// The glyph value last handed to the display.
    pub shown: u32,
}

impl Countdown {
    /// What every reachable state satisfies: at most ten seconds left, and a
    /// blink count that is below the sequence's length and zero when no blink
    /// sequence runs.
    pub open spec fn wf(self) -> bool {
        &&& self.remaining <= INITIAL_SECONDS
        &&& self.blink_count < BLINK_TOGGLES
        &&& (!self.blink_armed ==> self.blink_count == 0)
    }

    /// Whether the countdown timer is armed.
    pub open spec fn tick_armed(self) -> bool {
        self.running && self.remaining > 0
    }

    /// Whether no timer is armed and the tone is silent.
    pub open spec fn quiescent(self) -> bool {
        !self.tick_armed() && !self.blink_armed && !self.beeping
    }

    /// The state at power-up: stopped at ten seconds, showing "10", nothing armed.
    pub open spec fn initial() -> Countdown {
        Countdown {
            remaining: INITIAL_SECONDS,
            running: false,
            blink_count: 0,
            blink_armed: false,
            beeping: false,
            shown: INITIAL_SECONDS,
        }
    }

    /// The glyph shown after the `count`-th expiry of a blink sequence: the
    /// zero digit after an odd count, blank after an even one, so that the
    /// sequence ends blank.
    pub open spec fn blink_glyph(count: u32) -> u32 {
        if count % 2 == 1 {
            0
        } else {
            BLANK
        }
    }

    /// The state after `e`.
    pub open spec fn next(self, e: Event) -> Countdown {
        match e {
            Event::ButtonA => Countdown { running: !self.running, ..self },
            Event::ButtonB => Countdown {
                remaining: INITIAL_SECONDS,
                running: false,
                shown: INITIAL_SECONDS,
                ..self
            },
            Event::Tick => if !self.tick_armed() {
                self
            } else if self.remaining == 1 {
                Countdown {
                    remaining: 0,
                    running: false,
                    blink_count: 0,
                    blink_armed: true,
                    beeping: true,
                    shown: 0,
                }
            } else {
                Countdown {
                    remaining: (self.remaining - 1) as u32,
                    shown: (self.remaining - 1) as u32,
                    ..self
                }
            },
            Event::BeepTimeout => Countdown { beeping: false, ..self },
            Event::BlinkTick => if !self.blink_armed {
                self
            } else if self.blink_count + 1 == BLINK_TOGGLES {
                Countdown {
                    blink_count: 0,
                    blink_armed: false,
                    shown: Self::blink_glyph((self.blink_count + 1) as u32),
                    ..self
                }
            } else {
                Countdown {
                    blink_count: (self.blink_count + 1) as u32,
                    shown: Self::blink_glyph((self.blink_count + 1) as u32),
                    ..self
                }
            },
        }
    }

    /// The hardware actions that `e` calls for, in order.
    pub open spec fn effects(self, e: Event) -> Seq<Effect> {
        match e {
            Event::ButtonA => if !self.running && self.remaining > 0 {
                seq![Effect::ArmTick(COUNTDOWN_TIMER_INTERVAL)]
            } else {
                seq![Effect::DisarmTick]
            },
            Event::ButtonB => seq![Effect::DisarmTick, Effect::Show(INITIAL_SECONDS)],
            Event::Tick => if !self.tick_armed() {
                seq![]
            } else if self.remaining == 1 {
                seq![
                    Effect::Show(0),
                    Effect::DisarmTick,
                    Effect::SetDuty(PWM_DUTY_BEEP_ON),
                    Effect::ArmBeep(BEEP_TIMER_INTERVAL),
                    Effect::ArmBlink(BLINK_TIMER_INTERVAL),
                ]
            } else {
                seq![
                    Effect::Show((self.remaining - 1) as u32),
                    Effect::ArmTick(COUNTDOWN_TIMER_INTERVAL),
                ]
            },
            Event::BeepTimeout => seq![Effect::SetDuty(PWM_DUTY_BEEP_OFF), Effect::DisarmBeep],
            Event::BlinkTick => if !self.blink_armed {
                seq![]
            } else if self.blink_count + 1 == BLINK_TOGGLES {
                seq![
                    Effect::Show(Self::blink_glyph((self.blink_count + 1) as u32)),
                    Effect::DisarmBlink,
                ]
            } else {
                seq![
                    Effect::Show(Self::blink_glyph((self.blink_count + 1) as u32)),
                    Effect::ArmBlink(BLINK_TIMER_INTERVAL),
                ]
            },
        }
    }

    /// The state after the events of `evs`, in order.
    pub open spec fn run(self, evs: Seq<Event>) -> Countdown
        decreases evs.len(),
    {
        if evs.len() == 0 {
            self
        } else {
            self.next(evs[0]).run(evs.drop_first())
        }
    }

    /// The state at power-up.
    pub fn new() -> (r: Countdown)
        ensures
            r == Countdown::initial(),
            r.wf(),
    {
        Countdown {
            remaining: INITIAL_SECONDS,
            running: false,
            blink_count: 0,
            blink_armed: false,
            beeping: false,
            shown: INITIAL_SECONDS,
        }
    }

    /// Whether the countdown timer is armed.
    pub fn is_tick_armed(&self) -> (r: bool)
        ensures
            r == self.tick_armed(),
    {
        self.running && self.remaining > 0
    }

    /// Button A: start or stop. Starting arms the countdown timer only while
    /// seconds remain; stopping disarms it.
    pub fn on_button_a(&mut self) -> (r: Effects)
        requires
            old(self).wf(),
        ensures
            *final(self) == old(self).next(Event::ButtonA),
            r@ == old(self).effects(Event::ButtonA),
            final(self).wf(),
    {
        self.running = !self.running;
        let mut r = Effects::new();
        if self.running && self.remaining > 0 {
            r.push(Effect::ArmTick(COUNTDOWN_TIMER_INTERVAL));
        } else {
            r.push(Effect::DisarmTick);
        }
        r
    }

    /// Button B: back to ten seconds, stopped, with "10" drawn at once. A
    /// blink sequence or a tone in progress goes on undisturbed.
    pub fn on_button_b(&mut self) -> (r: Effects)
        requires
            old(self).wf(),
        ensures
            *final(self) == old(self).next(Event::ButtonB),
            r@ == old(self).effects(Event::ButtonB),
            final(self).wf(),
    {
        self.remaining = INITIAL_SECONDS;
        self.running = false;
        self.shown = INITIAL_SECONDS;
        let mut r = Effects::new();
        r.push(Effect::DisarmTick);
        r.push(Effect::Show(INITIAL_SECONDS));
        r
    }

    /// The pending button events of one interrupt: button A's first, then
    /// button B's. Two presses of one button before the interrupt runs are one
    /// event.
    pub fn on_buttons(&mut self, a_pressed: bool, b_pressed: bool) -> (r: Effects)
        requires
            old(self).wf(),
        ensures
            ({
                let s1 = if a_pressed { old(self).next(Event::ButtonA) } else { *old(self) };
                let e1 = if a_pressed { old(self).effects(Event::ButtonA) } else { seq![] };
                &&& *final(self) == if b_pressed { s1.next(Event::ButtonB) } else { s1 }
                &&& r@ == e1 + if b_pressed { s1.effects(Event::ButtonB) } else { seq![] }
            }),
            final(self).wf(),
    {
        let mut r = Effects::new();
        if a_pressed {
            let e = self.on_button_a();
            r.extend(&e);
        }
        if b_pressed {
            let e = self.on_button_b();
            r.extend(&e);
        }
        r
    }

    /// The countdown timer expired: one second less. At zero the countdown
    /// stops, the tone starts and the blink sequence begins.
    pub fn on_tick(&mut self) -> (r: Effects)
        requires
            old(self).wf(),
        ensures
            *final(self) == old(self).next(Event::Tick),
            r@ == old(self).effects(Event::Tick),
            final(self).wf(),
    {
        if !(self.running && self.remaining > 0) {
            return Effects::new();
        }
        self.remaining = self.remaining - 1;
        self.shown = self.remaining;
        if self.remaining == 0 {
            self.running = false;
            self.beeping = true;
            self.blink_armed = true;
            self.blink_count = 0;
            let mut r = Effects::new();
            r.push(Effect::Show(0));
            r.push(Effect::DisarmTick);
            r.push(Effect::SetDuty(PWM_DUTY_BEEP_ON));
            r.push(Effect::ArmBeep(BEEP_TIMER_INTERVAL));
            r.push(Effect::ArmBlink(BLINK_TIMER_INTERVAL));
            r
        } else {
            let mut r = Effects::new();
            r.push(Effect::Show(self.remaining));
            r.push(Effect::ArmTick(COUNTDOWN_TIMER_INTERVAL));
            r
        }
    }

    /// The tone's duration is over: silence it. Silencing twice does no harm.
    pub fn on_beep_timeout(&mut self) -> (r: Effects)
        requires
            old(self).wf(),
        ensures
            *final(self) == old(self).next(Event::BeepTimeout),
            r@ == old(self).effects(Event::BeepTimeout),
            final(self).wf(),
    {
        self.beeping = false;
        let mut r = Effects::new();
        r.push(Effect::SetDuty(PWM_DUTY_BEEP_OFF));
        r.push(Effect::DisarmBeep);
        r
    }

    /// The blink timer expired: draw the next glyph of the blink sequence, and
    /// after the last one disarm the timer.
    pub fn on_blink_tick(&mut self) -> (r: Effects)
        requires
            old(self).wf(),
        ensures
            *final(self) == old(self).next(Event::BlinkTick),
            r@ == old(self).effects(Event::BlinkTick),
            final(self).wf(),
    {
        if !self.blink_armed {
            return Effects::new();
        }
        let count = self.blink_count + 1;
        let glyph: u32 = if count % 2 == 1 {
            0
        } else {
            BLANK
        };
        self.shown = glyph;
        let mut r = Effects::new();
        r.push(Effect::Show(glyph));
        if count == BLINK_TOGGLES {
            self.blink_count = 0;
            self.blink_armed = false;
            r.push(Effect::DisarmBlink);
        } else {
            self.blink_count = count;
            r.push(Effect::ArmBlink(BLINK_TIMER_INTERVAL));
        }
        r
    }

    /// Any one event.
    pub fn step(&mut self, e: Event) -> (r: Effects)
        requires
            old(self).wf(),
        ensures
            *final(self) == old(self).next(e),
            r@ == old(self).effects(e),
            final(self).wf(),
    {
        match e {
            Event::ButtonA => self.on_button_a(),
            Event::ButtonB => self.on_button_b(),
            Event::Tick => self.on_tick(),
            Event::BeepTimeout => self.on_beep_timeout(),
            Event::BlinkTick => self.on_blink_tick(),
        }
    }
}

} // verus!
