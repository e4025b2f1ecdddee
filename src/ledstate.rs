//! The camera's lights.
use vstd::prelude::*;
use vstd::string::StringExecFns;

verus! {

/// The infrared lights: on, off, or switched by the light level.
#[derive(Clone, Copy, Debug, PartialEq, Eq, Structural)]
pub enum LightState {
    On,
    Off,
    Auto,
}

/// The word that the LED record holds for an infrared light state.
pub fn ir_light_word(state: LightState) -> (r: String)
    ensures
        r@ == match state {
            LightState::On => "open"@,
            LightState::Off => "close"@,
            LightState::Auto => "auto"@,
        },
{
    match state {
        LightState::On => String::from_str("open"),
        LightState::Off => String::from_str("close"),
        LightState::Auto => String::from_str("auto"),
    }
}

/// The word that the LED record holds for the status light.
pub fn status_light_word(on: bool) -> (r: String)
    ensures
        r@ == if on {
            "open"@
        } else {
            "close"@
        },
{
    if on {
        String::from_str("open")
    } else {
        String::from_str("close")
    }
}

} // verus!
