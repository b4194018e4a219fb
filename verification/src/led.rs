//! The onboard LED effect machinery: a small color state machine stepped
//! on a fixed beat by the LED task.

use vstd::prelude::*;

verus! {

/// A color, one byte per channel.
#[derive(Clone, Copy, PartialEq, Eq, Structural, Debug)]
pub struct Rgb {
    pub r: u8,
    pub g: u8,
    pub b: u8,
}

/// Which channel the rainbow sweep is moving, and which way.
#[derive(Clone, Copy, PartialEq, Eq, Structural, Debug)]
pub enum RainbowEffectStateMachine {
    IncRed,
    IncGreen,
    IncBlue,
    DecRed,
    DecGreen,
    DecBlue,
}

/// The sweep order of the rainbow.
pub open spec fn rainbow_next(s: RainbowEffectStateMachine) -> RainbowEffectStateMachine {
    match s {
        RainbowEffectStateMachine::IncRed => RainbowEffectStateMachine::DecGreen,
        RainbowEffectStateMachine::DecGreen => RainbowEffectStateMachine::IncBlue,
        RainbowEffectStateMachine::IncBlue => RainbowEffectStateMachine::DecRed,
        RainbowEffectStateMachine::DecRed => RainbowEffectStateMachine::IncGreen,
        RainbowEffectStateMachine::IncGreen => RainbowEffectStateMachine::DecBlue,
        RainbowEffectStateMachine::DecBlue => RainbowEffectStateMachine::IncRed,
    }
}

/// One beat of the rainbow sweep: nudge the active channel by one step,
/// and hand over to the next phase once it reaches its bound.
pub open spec fn rainbow_step(s: RainbowEffectStateMachine, max: u8, rgb: Rgb) -> (
    RainbowEffectStateMachine,
    Rgb,
) {
    match s {
        RainbowEffectStateMachine::IncRed => if rgb.r >= max {
            (rainbow_next(s), rgb)
        } else {
            (s, Rgb { r: (rgb.r + 1) as u8, ..rgb })
        },
        RainbowEffectStateMachine::IncGreen => if rgb.g >= max {
            (rainbow_next(s), rgb)
        } else {
            (s, Rgb { g: (rgb.g + 1) as u8, ..rgb })
        },
        RainbowEffectStateMachine::IncBlue => if rgb.b >= max {
            (rainbow_next(s), rgb)
        } else {
            (s, Rgb { b: (rgb.b + 1) as u8, ..rgb })
        },
        RainbowEffectStateMachine::DecRed => if rgb.r == 0 {
            (rainbow_next(s), rgb)
        } else {
            (s, Rgb { r: (rgb.r - 1) as u8, ..rgb })
        },
        RainbowEffectStateMachine::DecGreen => if rgb.g == 0 {
            (rainbow_next(s), rgb)
        } else {
            (s, Rgb { g: (rgb.g - 1) as u8, ..rgb })
        },
        RainbowEffectStateMachine::DecBlue => if rgb.b == 0 {
            (rainbow_next(s), rgb)
        } else {
            (s, Rgb { b: (rgb.b - 1) as u8, ..rgb })
        },
    }
}

impl RainbowEffectStateMachine {
    /// The phase after this one.
    pub fn next_state(&self) -> (r: Self)
        ensures
            r == rainbow_next(*self),
    {
        match self {
            RainbowEffectStateMachine::IncRed => RainbowEffectStateMachine::DecGreen,
            RainbowEffectStateMachine::DecGreen => RainbowEffectStateMachine::IncBlue,
            RainbowEffectStateMachine::IncBlue => RainbowEffectStateMachine::DecRed,
            RainbowEffectStateMachine::DecRed => RainbowEffectStateMachine::IncGreen,
            RainbowEffectStateMachine::IncGreen => RainbowEffectStateMachine::DecBlue,
            RainbowEffectStateMachine::DecBlue => RainbowEffectStateMachine::IncRed,
        }
    }
}

/// An LED effect, if any is running.
#[derive(Clone, Copy, PartialEq, Eq, Structural, Debug)]
pub enum LedEffects {
    /// The LED is left alone.
    Off,
    /// A rainbow sweep up to `max_brightness`, one nudge per `delay_ms`.
    Rainbow { state: RainbowEffectStateMachine, max_brightness: u8, delay_ms: u64 },
}

/// What one beat of an effect does: the next effect state, the color to
/// drive, and how long to wait before the next beat (nothing for an idle
/// effect).
pub open spec fn led_step(e: LedEffects, rgb: Rgb) -> (LedEffects, Rgb, Option<u64>) {
    match e {
        LedEffects::Off => (e, rgb, None),
        LedEffects::Rainbow { state, max_brightness, delay_ms } => {
            let (s2, rgb2) = rainbow_step(state, max_brightness, rgb);
            (
                LedEffects::Rainbow { state: s2, max_brightness, delay_ms },
                rgb2,
                Some(delay_ms),
            )
        },
    }
}

/// The driver the LED task holds.
pub struct LedEffect {
    pub effect: LedEffects,
}

impl LedEffect {
    pub fn new(effect: LedEffects) -> (r: Self)
        ensures
            r.effect == effect,
    {
        LedEffect { effect }
    }

    /// One beat: advance the effect, update the color in place, and hand
    /// back the wait before the next beat.
    pub fn next(&mut self, rgb: &mut Rgb) -> (delay: Option<u64>)
        ensures
            ({
                let (e2, rgb2, d) = led_step(old(self).effect, *old(rgb));
                &&& final(self).effect == e2
                &&& *final(rgb) == rgb2
                &&& delay == d
            }),
    {
        match &mut self.effect {
            LedEffects::Off => None,
            LedEffects::Rainbow { state, max_brightness, delay_ms } => {
                let max = *max_brightness;
                let d = *delay_ms;
                match state {
                    RainbowEffectStateMachine::IncRed => {
                        if rgb.r >= max {
                            *state = state.next_state();
                        } else {
                            rgb.r = rgb.r + 1;
                        }
                    },
                    RainbowEffectStateMachine::IncGreen => {
                        if rgb.g >= max {
                            *state = state.next_state();
                        } else {
                            rgb.g = rgb.g + 1;
                        }
                    },
                    RainbowEffectStateMachine::IncBlue => {
                        if rgb.b >= max {
                            *state = state.next_state();
                        } else {
                            rgb.b = rgb.b + 1;
                        }
                    },
                    RainbowEffectStateMachine::DecRed => {
                        if rgb.r == 0 {
                            *state = state.next_state();
                        } else {
                            rgb.r = rgb.r - 1;
                        }
                    },
                    RainbowEffectStateMachine::DecGreen => {
                        if rgb.g == 0 {
                            *state = state.next_state();
                        } else {
                            rgb.g = rgb.g - 1;
                        }
                    },
                    RainbowEffectStateMachine::DecBlue => {
                        if rgb.b == 0 {
                            *state = state.next_state();
                        } else {
                            rgb.b = rgb.b - 1;
                        }
                    },
                }
                Some(d)
            },
        }
    }
}

} // verus!
