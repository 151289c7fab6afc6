//! Checks of commands against the safety limits, and the valve update rate.

use vstd::prelude::*;
use crate::config_types::SafetyLimits;
use crate::firmware::error::{FaultKind, FirmwareError, FirmwareErrorView};
use crate::gcode_types::{Command, CommandView};
use crate::units::{push_fixed3, spec_fixed3};

verus! {

/// Message for a value above its maximum.
pub open spec fn spec_limit_message(what: Seq<char>, value: i64, max: i64) -> Seq<char> {
    what + " "@ + spec_fixed3(value as int) + " exceeds maximum "@ + spec_fixed3(max as int)
}

pub(crate) fn limit_message(what: &str, value: i64, max: i64) -> (m: String)
    ensures
        m@ == spec_limit_message(what@, value, max),
{
    let mut m = String::from_str(what);
    m.append(" ");
    push_fixed3(&mut m, value);
    m.append(" exceeds maximum ");
    push_fixed3(&mut m, max);
    assert(m@ =~= spec_limit_message(what@, value, max));
    m
}

/// Why a command breaks the safety limits, if it does: a heating command
/// above the maximum temperature, a pressure command above the maximum
/// pressure, or a layer advance with a feed rate above the maximum Z
/// speed. Every other command passes.
pub open spec fn spec_unsafe(cmd: CommandView, limits: SafetyLimits) -> Option<Seq<char>> {
    match cmd {
        CommandView::G4H(h) => if h.temperature > limits.max_temperature {
            Some(spec_limit_message("Temperature"@, h.temperature, limits.max_temperature))
        } else {
            None
        },
        CommandView::G4P(p) => if p.pressure > limits.max_pressure {
            Some(spec_limit_message("Pressure"@, p.pressure, limits.max_pressure))
        } else {
            None
        },
        CommandView::G4L(l) => match l.feed_rate {
            Some(f) => if f > limits.max_z_speed {
                Some(spec_limit_message("Z speed"@, f, limits.max_z_speed))
            } else {
                None
            },
            None => None,
        },
        _ => None,
    }
}

/// Validates that the parameters of a command are within the safety
/// limits.
pub fn validate_command_safety(cmd: &Command, limits: &SafetyLimits) -> (r: Result<
    (),
    FirmwareError,
>)
    ensures
        match spec_unsafe(cmd@, *limits) {
            Some(reason) => r is Err && r->Err_0@ == (FirmwareErrorView {
                kind: FaultKind::InvalidCommand,
                detail: reason,
            }),
            None => r is Ok,
        },
{
    match cmd {
        Command::G4H(h) => {
            if h.temperature > limits.max_temperature {
                return Err(
                    FirmwareError::InvalidCommand(
                        limit_message("Temperature", h.temperature, limits.max_temperature),
                    ),
                );
            }
        },
        Command::G4P(p) => {
            if p.pressure > limits.max_pressure {
                return Err(
                    FirmwareError::InvalidCommand(
                        limit_message("Pressure", p.pressure, limits.max_pressure),
                    ),
                );
            }
        },
        Command::G4L(l) => {
            match l.feed_rate {
                Some(f) => {
                    if f > limits.max_z_speed {
                        return Err(
                            FirmwareError::InvalidCommand(
                                limit_message("Z speed", f, limits.max_z_speed),
                            ),
                        );
                    }
                },
                None => {},
            }
        },
        _ => {},
    }
    Ok(())
}

/// Valve updates per second, in thousandths, that a layer of
/// `valve_count` valves needs when it takes `layer_time_ms` milliseconds:
/// zero for an empty layer or no time, and held at `i64::MAX`.
pub open spec fn spec_valve_update_rate(layer_time_ms: u64, valve_count: usize) -> int {
    if layer_time_ms == 0 || valve_count == 0 {
        0
    } else {
        let rate = (valve_count as int * 1_000_000) / (layer_time_ms as int);
        if rate > i64::MAX {
            i64::MAX as int
        } else {
            rate
        }
    }
}

/// Calculates the valve update rate that a layer time requires.
pub fn calculate_valve_update_rate(layer_time_ms: u64, valve_count: usize) -> (rate: i64)
    ensures
        rate as int == spec_valve_update_rate(layer_time_ms, valve_count),
{
    if layer_time_ms == 0 || valve_count == 0 {
        return 0;
    }
    let scaled: u128 = valve_count as u128 * 1_000_000u128;
    let rate: u128 = scaled / (layer_time_ms as u128);
    if rate > i64::MAX as u128 {
        i64::MAX
    } else {
        rate as i64
    }
}

} // verus!
