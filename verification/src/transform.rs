//! The two stick transforms: absolute angle to value, angular delta to step.

use crate::xinput_handler::{StickPosition, HALF_TURN};
use vstd::prelude::*;

verus! {

/// Largest value of a MIDI data byte.
pub const MIDI_MAX: u8 = 127;

/// The absolute value of a bearing: `0.6 * bearing / HALF_TURN + 0.5`,
/// clamped to the unit interval, scaled by 127 and rounded down. Roughly
/// eight o'clock gives 0, twelve o'clock the middle, four o'clock 127.
pub open spec fn absolute_value(bearing: int) -> int {
    let scaled = 6 * bearing + 5 * HALF_TURN;
    if scaled <= 0 {
        0
    } else if scaled >= 10 * HALF_TURN {
        127
    } else {
        (127 * scaled) / (10 * HALF_TURN)
    }
}

/// What the absolute transform emits: nothing inside the deadzone, else the
/// absolute value of the bearing.
pub open spec fn absolute_output(pos: StickPosition, deadzone: u32) -> Option<u8> {
    if pos.radius < deadzone {
        None
    } else {
        Some(absolute_value(pos.bearing as int) as u8)
    }
}

/// The change of bearing from `last` to `angle`, brought back into the half
/// open turn around zero by at most one full revolution.
pub open spec fn wrapped_difference(angle: int, last: int) -> int {
    let diff = angle - last;
    if diff > HALF_TURN {
        diff - 2 * HALF_TURN
    } else if diff <= -HALF_TURN {
        diff + 2 * HALF_TURN
    } else {
        diff
    }
}

/// Quotient rounded toward zero, for a positive divisor.
pub open spec fn truncated_quotient(a: int, b: int) -> int {
    if a >= 0 {
        a / b
    } else {
        -((-a) / b)
    }
}

/// A change of bearing counted in steps, `steps` of them to the revolution,
/// rounded toward zero and clamped to `-127..=127`.
pub open spec fn relative_steps(diff: int, steps: int) -> int {
    let whole = truncated_quotient(diff * steps, 2 * HALF_TURN);
    if whole > 127 {
        127
    } else if whole < -127 {
        -127
    } else {
        whole
    }
}

/// A signed step on the wire: counter-clockwise steps are sent raised by 128.
pub open spec fn encoded_step(step: int) -> int {
    if step < 0 {
        step + 128
    } else {
        step
    }
}

/// What the relative transform emits.
///
/// Inside the deadzone nothing. With no earlier angle to compare with (the
/// remembered position is the centre) nothing either. Otherwise the encoded
/// step count, unless it rounds to zero.
pub open spec fn relative_output(
    pos: StickPosition,
    deadzone: u32,
    steps: u32,
    last: StickPosition,
) -> Option<u8> {
    if pos.radius < deadzone || last.is_origin() {
        None
    } else {
        let step = relative_steps(
            wrapped_difference(pos.bearing as int, last.bearing as int),
            steps as int,
        );
        if step == 0 {
            None
        } else {
            Some(encoded_step(step) as u8)
        }
    }
}

/// The position the relative transform remembers afterwards: the current one,
/// except where the motion stayed below one step, which keeps the old one so
/// that slow motion adds up.
pub open spec fn relative_memory(
    pos: StickPosition,
    deadzone: u32,
    steps: u32,
    last: StickPosition,
) -> StickPosition {
    if pos.radius < deadzone || last.is_origin() {
        pos
    } else if relative_steps(
        wrapped_difference(pos.bearing as int, last.bearing as int),
        steps as int,
    ) == 0 {
        last
    } else {
        pos
    }
}

/// Maps the stick's angle to a controller value.
pub fn calculate_midi_cc_value_absolute(pos: StickPosition, deadzone: u32) -> (value: Option<u8>)
    ensures
        value == absolute_output(pos, deadzone),
        pos.radius < deadzone ==> value is None,
        pos.radius >= deadzone ==> value is Some,
        value matches Some(v) ==> v <= MIDI_MAX,
{
    if pos.radius < deadzone {
        return None;
    }
    let scaled: i64 = 6 * (pos.bearing as i64) + 5 * (HALF_TURN as i64);
    if scaled <= 0 {
        Some(0)
    } else if scaled >= 10 * (HALF_TURN as i64) {
        Some(127)
    } else {
        let numerator: u64 = 127 * (scaled as u64);
        let quotient: u64 = numerator / 1_800_000_000;
        Some(quotient as u8)
    }
}

/// Maps the stick's angular motion since the remembered position to a step
/// count, and updates the remembered position.
pub fn calculate_midi_cc_value_relative(
    pos: StickPosition,
    deadzone: u32,
    steps: u32,
    last: &mut StickPosition,
) -> (value: Option<u8>)
    ensures
        value == relative_output(pos, deadzone, steps, *old(last)),
        *final(last) == relative_memory(pos, deadzone, steps, *old(last)),
        pos.radius < deadzone ==> value is None,
        value matches Some(v) ==> 1 <= v <= MIDI_MAX,
{
    if pos.radius < deadzone || last.radius == 0 {
        *last = pos;
        return None;
    }
    let raw: i64 = (pos.bearing as i64) - (last.bearing as i64);
    let half: i64 = HALF_TURN as i64;
    let diff: i64 = if raw > half {
        raw - 2 * half
    } else if raw <= -half {
        raw + 2 * half
    } else {
        raw
    };
    let negative: bool = diff < 0;
    let magnitude: u64 = if negative {
        (-diff) as u64
    } else {
        diff as u64
    };
    assert(magnitude <= 3_934_967_295);
    assert(magnitude * steps <= 3_934_967_295 * 4_294_967_295) by (nonlinear_arith)
        requires
            magnitude <= 3_934_967_295,
            steps <= 4_294_967_295,
    ;
    let product: u64 = magnitude * (steps as u64);
    let whole: u64 = product / 360_000_000;
    let clamped: u8 = if whole > 127 {
        127
    } else {
        whole as u8
    };
    proof {
        let d = diff as int;
        let s = steps as int;
        assert(d == wrapped_difference(pos.bearing as int, old(last).bearing as int));
        if negative {
            assert(-(d * s) == (-d) * s) by (nonlinear_arith);
            assert(d * s <= 0) by (nonlinear_arith)
                requires
                    d < 0,
                    s >= 0,
            ;
            assert(truncated_quotient(d * s, 2 * HALF_TURN) == -(whole as int));
        } else {
            assert(d * s >= 0) by (nonlinear_arith)
                requires
                    d >= 0,
                    s >= 0,
            ;
            assert(truncated_quotient(d * s, 2 * HALF_TURN) == whole as int);
        }
    }
    if clamped == 0 {
        None
    } else {
        *last = pos;
        if negative {
            Some(128 - clamped)
        } else {
            Some(clamped)
        }
    }
}

/// Inside the deadzone both transforms stay silent.
pub proof fn law_deadzone_is_silent(
    pos: StickPosition,
    deadzone: u32,
    steps: u32,
    last: StickPosition,
)
    requires
        pos.radius < deadzone,
    ensures
        absolute_output(pos, deadzone) is None,
        relative_output(pos, deadzone, steps, last) is None,
{
}

/// The absolute value is a MIDI data byte for every bearing, rises with the
/// bearing, and meets the six o'clock boundary with 127 from the right and
/// with 0 from the left.
pub proof fn law_absolute_range(bearing: int, other: int)
    ensures
        0 <= absolute_value(bearing) <= 127,
        bearing <= other ==> absolute_value(bearing) <= absolute_value(other),
        absolute_value(HALF_TURN as int) == 127,
        absolute_value(-HALF_TURN) == 0,
        absolute_value(0) == 63,
{
}

/// A stick that does not move between two calls yields nothing on the second,
/// whatever the first call met.
pub proof fn law_still_stick_is_silent(
    pos: StickPosition,
    deadzone: u32,
    steps: u32,
    last: StickPosition,
)
    ensures
        relative_output(pos, deadzone, steps, relative_memory(pos, deadzone, steps, last))
            is None,
        relative_memory(pos, deadzone, steps, relative_memory(pos, deadzone, steps, last))
            == relative_memory(pos, deadzone, steps, last),
{
    let kept = relative_memory(pos, deadzone, steps, last);
    if pos.radius >= deadzone && !last.is_origin() {
        if kept == pos {
            assert(wrapped_difference(pos.bearing as int, pos.bearing as int) == 0);
            assert(0 * (steps as int) == 0);
            assert(relative_steps(0, steps as int) == 0);
        }
    }
}

/// A turn by a whole number of steps is reported exactly: with `steps` to the
/// revolution, a wrapped difference of `count` steps yields `count`, for
/// every count that fits a data byte.
pub proof fn law_whole_steps(diff: int, steps: int, count: int)
    requires
        diff * steps == count * (2 * HALF_TURN),
        -127 <= count <= 127,
    ensures
        relative_steps(diff, steps) == count,
{
    let turn: int = 2 * HALF_TURN;
    if count >= 0 {
        assert((count * turn) / turn == count) by (nonlinear_arith)
            requires
                turn > 0,
        ;
    } else {
        assert(-(count * turn) == (-count) * turn) by (nonlinear_arith);
        assert(((-count) * turn) / turn == -count) by (nonlinear_arith)
            requires
                turn > 0,
        ;
    }
}

} // verus!
